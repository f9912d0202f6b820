use vstd::prelude::*;

verus! {

/// The credentials of a login or sign-up form.
#[derive(Debug, Clone, PartialEq, Eq)]
pub struct LoginForm {
    pub username: String,
    pub password: String,
}

} // verus!
