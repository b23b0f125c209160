//! Where the database file lives.
//!
//! The caller resolves the directories (the system's temporary directory, the
//! user's data directory for the project) and creates the file; the library
//! chooses the directory and the file name.
use vstd::prelude::*;

verus! {

/// The qualifier, organization and application that name the project's data directory.
pub const PROJECT_QUALIFIER: &'static str = "org";
pub const PROJECT_ORGANIZATION: &'static str = "etim";
pub const PROJECT_APPLICATION: &'static str = "querry";

/// The file name of the database in the user's data directory.
pub const DB_FILE_NAME: &'static str = "querry.db";

/// Where to put the database file.
#[derive(Debug, PartialEq, Eq)]
pub enum DbLocation {
    /// A file of this name in the system's temporary directory.
    Temporary(String),
    /// A file of this name in the project's data directory of the user.
    UserData(String),
}

/// Whether `c` is a lower-case hexadecimal digit.
pub open spec fn is_lower_hex(c: char) -> bool {
    ('0' <= c && c <= '9') || ('a' <= c && c <= 'f')
}

/// Whether `s` is the hyphenated lower-case text of a random (version 4)
/// UUID: 36 characters, hyphens at positions 8, 13, 18 and 23, the version
/// digit `4` at position 14, the variant digit (one of `8`, `9`, `a`, `b`) at
/// position 19, lower-case hexadecimal digits elsewhere.
pub open spec fn is_v4_uuid_text(s: Seq<char>) -> bool {
    &&& s.len() == 36
    &&& forall|i: int|
        0 <= i < 36 ==> (if i == 8 || i == 13 || i == 18 || i == 23 {
            s[i] == '-'
        } else {
            is_lower_hex(#[trigger] s[i])
        })
    &&& s[14] == '4'
    &&& (s[19] == '8' || s[19] == '9' || s[19] == 'a' || s[19] == 'b')
}

/// The file name of a throwaway database for the run identified by `id`.
pub open spec fn test_db_file_name_of(id: Seq<char>) -> Seq<char> {
    "querry_test_"@ + id + ".db"@
}

#[verifier::external_type_specification]
#[verifier::external_body]
pub struct ExRandomSourceError(getrandom::Error);

/// Why the database's place could not be chosen.
#[derive(Debug, PartialEq, Eq)]
pub enum DbPathError {
    /// The system's random source failed, so no name for a test database
    /// could be drawn.
    RandomSourceFailed,
}

/// Sixteen bytes from the system's random source.
///
/// Calls `getrandom::fill` on a 16-byte buffer and hands the buffer back
/// where it succeeded, its error where it failed. Nothing is claimed of the
/// bytes, nor of when the source fails: both depend on the machine.
#[verifier::external_body]
fn random_bytes() -> (res: Result<[u8; 16], getrandom::Error>) {
    let mut bytes = [0u8; 16];
    match getrandom::fill(&mut bytes) {
        Ok(()) => Ok(bytes),
        Err(error) => Err(error),
    }
}

/// The lower-case hexadecimal digit of `n`, for `n` below 16.
pub open spec fn hex_digit(n: u8) -> char {
    if n < 10 {
        (48 + n) as char
    } else {
        (87 + n) as char
    }
}

/// The bytes `bytes` with the version (4) and variant (RFC 4122) bits set:
/// byte 6 becomes `(b & 0x0f) | 0x40`, byte 8 becomes `(b & 0x3f) | 0x80`.
pub open spec fn v4_bytes(bytes: Seq<u8>) -> Seq<u8> {
    bytes.update(6, (bytes[6] & 0x0f) | 0x40).update(8, (bytes[8] & 0x3f) | 0x80)
}

/// The lower-case hexadecimal text of `bytes`, two digits per byte, the high
/// digit first.
pub open spec fn hex_text(bytes: Seq<u8>) -> Seq<char> {
    Seq::new(
        2 * bytes.len(),
        |i: int| hex_digit(if i % 2 == 0 { bytes[i / 2] >> 4 } else { bytes[i / 2] & 0x0f }),
    )
}

/// The 32 digits `h` grouped 8-4-4-4-12 and joined by hyphens.
pub open spec fn hyphenated(h: Seq<char>) -> Seq<char> {
    h.subrange(0, 8) + seq!['-'] + h.subrange(8, 12) + seq!['-'] + h.subrange(12, 16) + seq!['-']
        + h.subrange(16, 20) + seq!['-'] + h.subrange(20, 32)
}

/// The text of the version 4 UUID made of sixteen random bytes.
pub open spec fn v4_uuid_text_of(bytes: Seq<u8>) -> Seq<char> {
    hyphenated(hex_text(v4_bytes(bytes)))
}

/// The text of the version 4 UUID made of `bytes`.
///
/// Calls `uuid::Builder::from_random_bytes`, which sets the version and
/// variant bits of the bytes, then formats the UUID with `to_string`, which
/// writes the hyphenated lower-case form. The contract states that text.
#[verifier::external_body]
fn v4_uuid_text(bytes: [u8; 16]) -> (res: String)
    ensures
        res@ == v4_uuid_text_of(bytes@),
{
    uuid::Builder::from_random_bytes(bytes).into_uuid().to_string()
}

/// The text of the version 4 UUID made of any sixteen bytes has the shape of
/// such a text.
pub proof fn lemma_v4_uuid_text_shape(bytes: Seq<u8>)
    requires
        bytes.len() == 16,
    ensures
        is_v4_uuid_text(v4_uuid_text_of(bytes)),
{
    let b = v4_bytes(bytes);
    let h = hex_text(b);
    let t = v4_uuid_text_of(bytes);
    assert(h.len() == 32);
    assert forall|i: int| 0 <= i < 32 implies is_lower_hex(#[trigger] h[i]) by {
        let x = b[i / 2];
        assert(x >> 4 < 16u8 && x & 0x0f < 16u8) by (bit_vector);
    }
    assert forall|i: int|
        0 <= i < 36 implies (if i == 8 || i == 13 || i == 18 || i == 23 {
        t[i] == '-'
    } else {
        is_lower_hex(#[trigger] t[i])
    }) by {
        if i < 8 {
            assert(t[i] == h[i]);
        } else if i == 8 {
        } else if i < 13 {
            assert(t[i] == h[i - 1]);
        } else if i == 13 {
        } else if i < 18 {
            assert(t[i] == h[i - 2]);
        } else if i == 18 {
        } else if i < 23 {
            assert(t[i] == h[i - 3]);
        } else if i == 23 {
        } else {
            assert(t[i] == h[i - 4]);
        }
    }
    let x6 = bytes[6];
    let x8 = bytes[8];
    assert(((x6 & 0x0f) | 0x40) >> 4 == 4u8) by (bit_vector);
    assert(8u8 <= ((x8 & 0x3f) | 0x80) >> 4 <= 11u8) by (bit_vector);
    assert(t[14] == h[12]);
    assert(t[19] == h[16]);
}

/// The file name of a throwaway database for the run identified by `id`.
pub fn test_db_file_name(id: &str) -> (res: String)
    ensures
        res@ == test_db_file_name_of(id@),
{
    let mut name = "querry_test_".to_owned();
    name.append(id);
    name.append(".db");
    name
}

/// Where the database lives, given the identifier of the run: a throwaway
/// file named after `run_id` in the temporary directory for a test run (where
/// `is_test` is `Some(true)`), the project's file in the user's data directory
/// otherwise.
pub fn db_location_for(is_test: Option<bool>, run_id: &str) -> (res: DbLocation)
    ensures
        is_test == Some(true) ==> (res matches DbLocation::Temporary(name) && name@ == test_db_file_name_of(run_id@)),
        is_test != Some(true) ==> (res matches DbLocation::UserData(name) && name@ == DB_FILE_NAME@),
{
    let test = match is_test {
        Some(t) => t,
        None => false,
    };
    if test {
        DbLocation::Temporary(test_db_file_name(run_id))
    } else {
        DbLocation::UserData(DB_FILE_NAME.to_owned())
    }
}

/// Where the database lives, given sixteen random bytes: for a test run
/// (where `is_test` is `Some(true)`), a throwaway file in the temporary
/// directory named after the version 4 UUID made of the bytes; otherwise the
/// project's file in the user's data directory.
pub fn db_location_from_bytes(is_test: Option<bool>, bytes: [u8; 16]) -> (res: DbLocation)
    ensures
        is_test == Some(true) ==> (res matches DbLocation::Temporary(name) && name@
            == test_db_file_name_of(v4_uuid_text_of(bytes@))),
        is_test != Some(true) ==> (res matches DbLocation::UserData(name) && name@ == DB_FILE_NAME@),
{
    if is_test == Some(true) {
        let id = v4_uuid_text(bytes);
        db_location_for(is_test, id.as_str())
    } else {
        db_location_for(is_test, "")
    }
}

/// Where the database lives: for a test run (where `is_test` is
/// `Some(true)`), a throwaway file in the temporary directory named after a
/// fresh random UUID, or an error where the system's random source failed;
/// otherwise the project's file in the user's data directory.
pub fn db_location(is_test: Option<bool>) -> (res: Result<DbLocation, DbPathError>)
    ensures
        is_test != Some(true) ==> (res matches Ok(DbLocation::UserData(name)) && name@ == DB_FILE_NAME@),
        is_test == Some(true) ==> match res {
            Ok(DbLocation::Temporary(name)) => exists|bytes: Seq<u8>|
                bytes.len() == 16 && is_v4_uuid_text(v4_uuid_text_of(bytes)) && name@
                    == test_db_file_name_of(#[trigger] v4_uuid_text_of(bytes)),
            Ok(DbLocation::UserData(_)) => false,
            Err(e) => e == DbPathError::RandomSourceFailed,
        },
{
    if is_test == Some(true) {
        match random_bytes() {
            Ok(bytes) => {
                proof {
                    lemma_v4_uuid_text_shape(bytes@);
                }
                Ok(db_location_from_bytes(is_test, bytes))
            },
            Err(_) => Err(DbPathError::RandomSourceFailed),
        }
    } else {
        Ok(db_location_for(is_test, ""))
    }
}

} // verus!
