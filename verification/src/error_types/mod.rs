pub mod fetch_history_error;
pub mod login_error;
pub mod sign_up_error;

pub use fetch_history_error::FetchHistoryError;
pub use login_error::LoginError;
pub use sign_up_error::SignUpError;

use vstd::prelude::*;

verus! {

/// What an error is answered with: an HTTP status and the text that goes,
/// as a JSON string, into the body.
#[derive(Debug, Clone, PartialEq, Eq)]
pub struct ErrorResponse {
    pub status: u16,
    pub body: String,
}

} // verus!
