use vstd::prelude::*;

verus! {

/// The answer to a successful login: the session token.
#[derive(Debug, Clone, PartialEq, Eq)]
pub struct TokenResponse {
    pub token: String,
}

} // verus!
