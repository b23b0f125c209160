[package]
name = "querry"
version = "0.1.0"
edition = "2021"
publish = false

[dependencies]
uuid = "=1.29.0"
getrandom = "=0.4.3"
directories = "=6.0.0"
sqlx = { version = "=0.8.6", default-features = false, features = ["sqlite", "runtime-tokio", "macros"] }
slint = { version = "=1.18.1", default-features = false, features = ["std", "compat-1-2"] }
tokio = { version = "=1.54.1", features = ["rt", "macros"] }
