use vstd::prelude::*;

verus! {

/// The answer to a prompt: the text and prompt it was asked with, and the
/// model's result.
#[derive(Debug, Clone, PartialEq, Eq)]
pub struct MlRequestResult {
    pub text: String,
    pub prompt: String,
    pub result: String,
}

} // verus!
