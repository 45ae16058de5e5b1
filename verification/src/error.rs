//! The error taxonomy of the host's embedded HTTP control server:
//! which status code and which description each failure answers
//! with. The host's web framework turns these into responses.

use vstd::prelude::*;

verus! {

/// A failure of the embedded control server.
#[derive(Debug)]
pub enum ServerError {
    /// The server could not be started.
    StartupError(String),
    /// The underlying store failed.
    DatabaseError(String),
    /// The request was malformed.
    BadRequest(String),
    /// The addressed resource does not exist.
    NotFound(String),
}

impl ServerError {
    /// The HTTP status code this failure answers with.
    pub open spec fn spec_status_code(self) -> u16 {
        match self {
            ServerError::StartupError(_) => 500,
            ServerError::DatabaseError(_) => 500,
            ServerError::BadRequest(_) => 400,
            ServerError::NotFound(_) => 404,
        }
    }

    pub fn status_code(&self) -> (r: u16)
        ensures
            r == self.spec_status_code(),
    {
        match self {
            ServerError::StartupError(_) => 500,
            ServerError::DatabaseError(_) => 500,
            ServerError::BadRequest(_) => 400,
            ServerError::NotFound(_) => 404,
        }
    }

    /// The description shown to the caller.
    pub open spec fn spec_message(self) -> Seq<char> {
        match self {
            ServerError::StartupError(m) => "Server startup failed: "@ + m@,
            ServerError::DatabaseError(m) => "Database failure: "@ + m@,
            ServerError::BadRequest(m) => "Invalid request: "@ + m@,
            ServerError::NotFound(m) => "Resource not found: "@ + m@,
        }
    }

    pub fn message(&self) -> (r: String)
        ensures
            r@ == self.spec_message(),
    {
        match self {
            ServerError::StartupError(m) => {
                let mut s = String::from_str("Server startup failed: ");
                s.append(m.as_str());
                s
            },
            ServerError::DatabaseError(m) => {
                let mut s = String::from_str("Database failure: ");
                s.append(m.as_str());
                s
            },
            ServerError::BadRequest(m) => {
                let mut s = String::from_str("Invalid request: ");
                s.append(m.as_str());
                s
            },
            ServerError::NotFound(m) => {
                let mut s = String::from_str("Resource not found: ");
                s.append(m.as_str());
                s
            },
        }
    }
}

} // verus!
