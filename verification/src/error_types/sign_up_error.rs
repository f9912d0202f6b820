use vstd::prelude::*;

use super::ErrorResponse;
use crate::status;

verus! {

/// Why a sign-up was refused. The database and connection errors carry the
/// description of what went wrong; the message does not show it.
#[derive(Debug, Clone, PartialEq, Eq)]
pub enum SignUpError {
    DatabaseError(String),
    HashingError,
    ConnectionError(String),
    UsernameTakenError,
    InvalidUsername,
    InvalidPassword,
}

impl SignUpError {
    /// The error's message.
    pub open spec fn text(&self) -> Seq<char> {
        match self {
            SignUpError::DatabaseError(_) => "Database error"@,
            SignUpError::HashingError => "Hashing error"@,
            SignUpError::ConnectionError(_) => "Connection error"@,
            SignUpError::UsernameTakenError => "Username taken"@,
            SignUpError::InvalidUsername => "Username must be at least 1 char long"@,
            SignUpError::InvalidPassword => "Password must be at least 1 char long"@,
        }
    }

    /// The status the error is answered with: a taken name is a conflict,
    /// empty credentials are a bad request, the rest is the server's fault.
    pub open spec fn status_code(&self) -> u16 {
        match self {
            SignUpError::UsernameTakenError => status::CONFLICT,
            SignUpError::InvalidUsername | SignUpError::InvalidPassword => status::BAD_REQUEST,
            _ => status::INTERNAL_SERVER_ERROR,
        }
    }

    pub fn message(&self) -> (m: String)
        ensures
            m@ == self.text(),
    {
        match self {
            SignUpError::DatabaseError(_) => String::from_str("Database error"),
            SignUpError::HashingError => String::from_str("Hashing error"),
            SignUpError::ConnectionError(_) => String::from_str("Connection error"),
            SignUpError::UsernameTakenError => String::from_str("Username taken"),
            SignUpError::InvalidUsername => String::from_str("Username must be at least 1 char long"),
            SignUpError::InvalidPassword => String::from_str("Password must be at least 1 char long"),
        }
    }

    /// The response to a refused sign-up: its status, and the message after
    /// `"message: "` as body.
    pub fn respond_to(&self) -> (r: ErrorResponse)
        ensures
            r.status == self.status_code(),
            r.body@ == "message: "@ + self.text(),
    {
        let status = match self {
            SignUpError::UsernameTakenError => status::CONFLICT,
            SignUpError::InvalidUsername | SignUpError::InvalidPassword => status::BAD_REQUEST,
            _ => status::INTERNAL_SERVER_ERROR,
        };
        let mut body = String::from_str("message: ");
        let m = self.message();
        body.append(m.as_str());
        ErrorResponse { status, body }
    }
}

/// A refused sign-up is answered by what went wrong, never by the text an
/// error carries: a taken name is 409, an empty name or password 400, a
/// database, connection or hashing failure 500.
pub proof fn lemma_sign_up_error_responses(description: String)
    ensures
        SignUpError::DatabaseError(description).status_code() == 500,
        SignUpError::ConnectionError(description).status_code() == 500,
        SignUpError::HashingError.status_code() == 500,
        SignUpError::UsernameTakenError.status_code() == 409,
        SignUpError::InvalidUsername.status_code() == 400,
        SignUpError::InvalidPassword.status_code() == 400,
        SignUpError::DatabaseError(description).text() == "Database error"@,
        SignUpError::ConnectionError(description).text() == "Connection error"@,
{
}

} // verus!
