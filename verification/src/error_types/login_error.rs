use vstd::prelude::*;

use super::ErrorResponse;
use crate::status;

verus! {

/// Why a login was refused. A database error carries the database's own
/// description of what went wrong.
#[derive(Debug, Clone, PartialEq, Eq)]
pub enum LoginError {
    DatabaseError(String),
    UserNotFound,
    WrongPassword,
    HmacKeyError,
    JwtSigningError,
}

impl LoginError {
    /// The error's message.
    pub open spec fn text(&self) -> Seq<char> {
        match self {
            LoginError::DatabaseError(e) => "database error: "@ + e@,
            LoginError::UserNotFound => "user not found"@,
            LoginError::WrongPassword => "wrong password"@,
            LoginError::HmacKeyError => "HMAC key error"@,
            LoginError::JwtSigningError => "JWT signing error"@,
        }
    }

    /// The status the error is answered with: a wrong user name or password
    /// is unauthorized, anything else is the server's fault.
    pub open spec fn status_code(&self) -> u16 {
        match self {
            LoginError::UserNotFound | LoginError::WrongPassword => status::UNAUTHORIZED,
            _ => status::INTERNAL_SERVER_ERROR,
        }
    }

    pub fn message(&self) -> (m: String)
        ensures
            m@ == self.text(),
    {
        match self {
            LoginError::DatabaseError(e) => {
                let mut m = String::from_str("database error: ");
                m.append(e.as_str());
                m
            },
            LoginError::UserNotFound => String::from_str("user not found"),
            LoginError::WrongPassword => String::from_str("wrong password"),
            LoginError::HmacKeyError => String::from_str("HMAC key error"),
            LoginError::JwtSigningError => String::from_str("JWT signing error"),
        }
    }

    /// The response to a refused login: its status, and the message as body.
    pub fn respond_to(&self) -> (r: ErrorResponse)
        ensures
            r.status == self.status_code(),
            r.body@ == self.text(),
    {
        let status = match self {
            LoginError::UserNotFound | LoginError::WrongPassword => status::UNAUTHORIZED,
            _ => status::INTERNAL_SERVER_ERROR,
        };
        ErrorResponse { status, body: self.message() }
    }
}

/// A refused login is answered by what went wrong, never by the text an
/// error carries: a wrong name or password is 401, a database, key or
/// signing failure is 500, and a database error's message is
/// `"database error: "` followed by its description.
pub proof fn lemma_login_error_responses(description: String)
    ensures
        LoginError::DatabaseError(description).status_code() == 500,
        LoginError::DatabaseError(description).text() == "database error: "@ + description@,
        LoginError::UserNotFound.status_code() == 401,
        LoginError::WrongPassword.status_code() == 401,
        LoginError::HmacKeyError.status_code() == 500,
        LoginError::JwtSigningError.status_code() == 500,
{
}

} // verus!
