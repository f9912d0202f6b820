use vstd::prelude::*;

use super::ErrorResponse;
use crate::status;

verus! {

/// Why a user's history could not be given. The database and serialization
/// errors carry the description of what went wrong.
#[derive(Debug, Clone, PartialEq, Eq)]
pub enum FetchHistoryError {
    DatabaseError(String),
    SerializationError(String),
    NotFound,
}

impl FetchHistoryError {
    /// The error's message.
    pub open spec fn text(&self) -> Seq<char> {
        match self {
            FetchHistoryError::DatabaseError(e) => "database error: "@ + e@,
            FetchHistoryError::SerializationError(e) => "serialization error: "@ + e@,
            FetchHistoryError::NotFound => "history not found"@,
        }
    }

    /// The status the error is answered with.
    pub open spec fn status_code(&self) -> u16 {
        match self {
            FetchHistoryError::NotFound => status::NOT_FOUND,
            _ => status::INTERNAL_SERVER_ERROR,
        }
    }

    pub fn message(&self) -> (m: String)
        ensures
            m@ == self.text(),
    {
        match self {
            FetchHistoryError::DatabaseError(e) => {
                let mut m = String::from_str("database error: ");
                m.append(e.as_str());
                m
            },
            FetchHistoryError::SerializationError(e) => {
                let mut m = String::from_str("serialization error: ");
                m.append(e.as_str());
                m
            },
            FetchHistoryError::NotFound => String::from_str("history not found"),
        }
    }

    /// The response to a failed history request: its status, and the
    /// message as body.
    pub fn respond_to(&self) -> (r: ErrorResponse)
        ensures
            r.status == self.status_code(),
            r.body@ == self.text(),
    {
        let status = match self {
            FetchHistoryError::NotFound => status::NOT_FOUND,
            _ => status::INTERNAL_SERVER_ERROR,
        };
        ErrorResponse { status, body: self.message() }
    }
}

/// A failed history request is answered by what went wrong, never by the
/// text an error carries: a missing history is 404, a database or
/// serialization failure 500, each message ending in its description.
pub proof fn lemma_fetch_history_error_responses(description: String)
    ensures
        FetchHistoryError::DatabaseError(description).status_code() == 500,
        FetchHistoryError::SerializationError(description).status_code() == 500,
        FetchHistoryError::NotFound.status_code() == 404,
        FetchHistoryError::DatabaseError(description).text() == "database error: "@ + description@,
        FetchHistoryError::SerializationError(description).text() == "serialization error: "@
            + description@,
{
}

} // verus!
