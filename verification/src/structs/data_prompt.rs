use vstd::prelude::*;

verus! {

/// A text and the prompt to run on it.
#[derive(Debug, Clone, PartialEq, Eq)]
pub struct DataPrompt {
    pub text: String,
    pub prompt: String,
}

impl DataPrompt {
    /// An empty prompt: no text, no prompt.
    pub fn new() -> (d: Self)
        ensures
            d.text@ == Seq::<char>::empty(),
            d.prompt@ == Seq::<char>::empty(),
    {
        DataPrompt { text: String::new(), prompt: String::new() }
    }
}

} // verus!
