//! The decision logic of a desktop HTTP client: how the lists shown for
//! collections, requests, request headers and authorization react to what the
//! user does and to what the store answers.

pub mod model;
pub mod state;
pub mod queries;
pub mod db_path;
pub mod laws;
