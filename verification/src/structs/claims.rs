use vstd::prelude::*;

use crate::crypto::TokenClaims;

verus! {

/// The claims a session token carries: whom it was issued to, and until
/// when (seconds since the epoch) it is valid.
#[derive(Debug, Clone, PartialEq, Eq)]
pub struct Claims {
    pub sub: String,
    pub exp: usize,
}

impl Claims {
    /// Reads the claims out of a verified token; a token without a subject
    /// or an expiration, or with an expiration past `usize`, has none.
    pub fn from_token(c: TokenClaims) -> (r: Option<Claims>)
        ensures
            match (c.subject, c.expiration) {
                (Some(s), Some(e)) => if e <= usize::MAX {
                    r matches Some(k) && k.sub == s && k.exp == e
                } else {
                    r is None
                },
                _ => r is None,
            },
    {
        match (c.subject, c.expiration) {
            (Some(s), Some(e)) => {
                if e <= usize::MAX as u64 {
                    Some(Claims { sub: s, exp: e as usize })
                } else {
                    None
                }
            },
            _ => None,
        }
    }
}

} // verus!
