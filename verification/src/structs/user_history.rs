use vstd::prelude::*;

verus! {

/// A row of the history table: a user's past requests, each as JSON text.
#[derive(Debug, Clone, PartialEq, Eq)]
pub struct UserHistory {
    pub username: String,
    pub requests: Vec<String>,
}

} // verus!
