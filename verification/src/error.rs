//! The failure taxonomy: one variant per failure source, each carrying the
//! originating collaborator's error for diagnostics.

use vstd::prelude::*;

verus! {

/// A non-2xx answer from the remote service: the requested URL and the
/// status code that came back.
pub struct APIError {
    pub url: String,
    pub status_code: u16,
}

/// Declares rusqlite's error type, carried opaquely for diagnostics.
#[verifier::external_type_specification]
#[verifier::external_body]
pub struct ExSqliteError(rusqlite::Error);

/// Declares serde_json's error type, carried opaquely for diagnostics.
#[verifier::external_type_specification]
#[verifier::external_body]
pub struct ExJsonError(serde_json::Error);

/// Declares ureq's transport-failure type, carried opaquely for diagnostics.
#[verifier::external_type_specification]
#[verifier::external_body]
pub struct ExTransport(ureq::Transport);

/// Declares std's I/O error type, carried opaquely for diagnostics.
#[verifier::external_type_specification]
#[verifier::external_body]
pub struct ExIoError(std::io::Error);

/// Why a response body could not be turned into a record.
pub enum ParseFault {
    /// The body is not well-formed JSON.
    Json(serde_json::Error),
    /// The body lacks this required string field.
    MissingField(String),
    /// The body carries this date where the requested one was expected.
    DateMismatch(String),
}

/// Why the storage engine could not serve a request.
pub enum StorageFault {
    /// The engine itself failed: I/O, or a uniqueness-constraint violation.
    Engine(rusqlite::Error),
    /// An existing table at the storage location has this schema, which is
    /// not the record schema.
    IncompatibleSchema(String),
}

/// Every failure the library can report.
pub enum ApodError {
    /// The remote service answered with a non-2xx status.
    API(APIError),
    /// The response body was malformed or structurally unexpected.
    Parse(ParseFault),
    /// The storage engine failed: I/O, an incompatible existing schema, or
    /// a uniqueness-constraint violation.
    Storage(StorageFault),
    /// The request could not be carried out at all.
    Transport(ureq::Transport),
    /// The response body could not be read.
    Io(std::io::Error),
}

} // verus!
