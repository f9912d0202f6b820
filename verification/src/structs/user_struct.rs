use vstd::prelude::*;

use crate::crypto::{bcrypt_verdict, bcrypt_verify};
use crate::error_types::SignUpError;
use crate::structs::UserHistory;

verus! {

/// An account: its name and the bcrypt hash of its password.
#[derive(Debug, Clone, PartialEq, Eq)]
pub struct User {
    pub username: String,
    pub password_hashed: String,
}

/// The two rows that creating an account inserts: the user, and its empty
/// history.
#[derive(Debug, Clone, PartialEq, Eq)]
pub struct NewAccount {
    pub user: User,
    pub history: UserHistory,
}

impl User {
    /// What deciding on creating this account answers, given the lookup of
    /// its name.
    pub open spec fn create_new_holds(self, existing: Result<Option<User>, String>, r: Result<NewAccount, SignUpError>) -> bool {
        match existing {
            Ok(Some(_)) => r == Err::<NewAccount, SignUpError>(SignUpError::UsernameTakenError),
            Ok(None) => r matches Ok(a) && a.user == self && a.history.username@ == self.username@
                && a.history.requests@.len() == 0,
            Err(e) => r == Err::<NewAccount, SignUpError>(SignUpError::DatabaseError(e)),
        }
    }

    /// What bcrypt answers for `input` against the stored hash: `None` when
    /// the stored hash does not parse.
    pub fn check_password(&self, input: &str) -> (r: Option<bool>)
        ensures
            r == bcrypt_verdict(input@, self.password_hashed@),
    {
        match bcrypt_verify(input, self.password_hashed.as_str()) {
            Ok(b) => Some(b),
            Err(_) => None,
        }
    }

    /// Whether `input` is the password of this account. The stored hash
    /// must be one bcrypt can read.
    pub fn verify_password(&self, input: &str) -> (ok: bool)
        requires
            bcrypt_verdict(input@, self.password_hashed@) is Some,
        ensures
            ok == (bcrypt_verdict(input@, self.password_hashed@) == Some(true)),
    {
        match self.check_password(input) {
            Some(b) => b,
            None => false,
        }
    }

    /// Decides on creating this account, given what looking its name up
    /// found (or the database's error): a taken name is refused, a free one
    /// gives the rows to insert.
    pub fn create_new(self, existing: Result<Option<User>, String>) -> (r: Result<NewAccount, SignUpError>)
        ensures
            self.create_new_holds(existing, r),
    {
        match existing {
            Ok(Some(_)) => Err(SignUpError::UsernameTakenError),
            Ok(None) => {
                let history = UserHistory { username: self.username.clone(), requests: Vec::new() };
                Ok(NewAccount { user: self, history })
            },
            Err(e) => Err(SignUpError::DatabaseError(e)),
        }
    }
}

} // verus!
