//! The envelope of the embedded control server's JSON answers and
//! the server-side error codes it maps failures to. The host's web
//! framework serializes the envelope; this module fixes what it
//! holds.

use vstd::prelude::*;

verus! {

/// The uniform answer envelope: a status code, a short message, and
/// the payload of a successful call.
#[derive(Debug)]
pub struct ApiResponse<T> {
    pub code: i32,
    pub msg: String,
    pub data: Option<T>,
}

impl<T> ApiResponse<T> {
    /// A successful answer: code 200, message `"success"`, and the
    /// payload.
    pub fn success(data: T) -> (r: Self)
        ensures
            r.code == 200,
            r.msg@ == "success"@,
            r.data == Some(data),
    {
        Self { code: 200, msg: String::from_str("success"), data: Some(data) }
    }

    /// A failed answer: the given code and message, no payload.
    pub fn error(code: i32, msg: &str) -> (r: Self)
        ensures
            r.code == code,
            r.msg@ == msg@,
            r.data is None,
    {
        Self { code, msg: msg.to_owned(), data: None }
    }
}

/// A failure of a control-server handler.
#[derive(Debug)]
pub enum ServerError {
    /// The server could not be started.
    StartupError(String),
    /// The underlying store failed.
    DatabaseError(String),
    /// The request was malformed.
    BadRequest(String),
    /// The addressed resource does not exist.
    NotFound(String),
}

impl ServerError {
    /// The code of the error envelope this failure answers with.
    pub open spec fn spec_status_code(self) -> i32 {
        match self {
            ServerError::NotFound(_) => 404,
            ServerError::DatabaseError(_) => 500,
            ServerError::StartupError(_) => 500,
            ServerError::BadRequest(_) => 400,
        }
    }

    pub fn status_code(&self) -> (r: i32)
        ensures
            r == self.spec_status_code(),
    {
        match self {
            ServerError::NotFound(_) => 404,
            ServerError::DatabaseError(_) => 500,
            ServerError::StartupError(_) => 500,
            ServerError::BadRequest(_) => 400,
        }
    }

    /// The message carried in the error envelope.
    pub open spec fn spec_message(self) -> Seq<char> {
        match self {
            ServerError::NotFound(m) => m@,
            ServerError::DatabaseError(m) => m@,
            ServerError::StartupError(m) => m@,
            ServerError::BadRequest(m) => m@,
        }
    }

    /// The error envelope of this failure, as a handler answers it.
    pub fn into_response_parts(self) -> (r: ApiResponse<()>)
        ensures
            r.code == self.spec_status_code(),
            r.msg@ == self.spec_message(),
            r.data is None,
    {
        match self {
            ServerError::NotFound(m) => ApiResponse::error(404, m.as_str()),
            ServerError::DatabaseError(m) => ApiResponse::error(500, m.as_str()),
            ServerError::StartupError(m) => ApiResponse::error(500, m.as_str()),
            ServerError::BadRequest(m) => ApiResponse::error(400, m.as_str()),
        }
    }
}

} // verus!
