//! The password hashing (bcrypt) and token signing (jwt over HMAC-SHA256)
//! that the server relies on. Each function here calls into the outside
//! crate and states what its contract claims of that call.
use vstd::prelude::*;

use hmac::{Hmac, Mac};
use jwt::{SignWithKey, VerifyWithKey};
use sha2::Sha256;

verus! {

#[verifier::external_type_specification]
#[verifier::external_body]
pub struct ExBcryptError(bcrypt::BcryptError);

#[verifier::external_type_specification]
#[verifier::external_body]
pub struct ExJwtError(jwt::Error);

/// What `bcrypt::verify(password, hash)` answers: `Some(b)` for `Ok(b)`,
/// `None` when it fails (a hash string that does not parse).
pub uninterp spec fn bcrypt_verdict(password: Seq<char>, hash: Seq<char>) -> Option<bool>;

/// The token string that `jwt` produces when it signs, with the HMAC-SHA256
/// key made of `secret`, the registered claims `{"sub": subject, "exp": expiration}`.
pub uninterp spec fn jwt_hs256_token(secret: Seq<char>, subject: Seq<char>, expiration: u64) -> Seq<char>;

/// What `jwt` gives back when it verifies `token` against the HMAC-SHA256 key
/// made of `secret` and decodes its claims into a JSON object: `None` when
/// that fails, else its `sub` entry read as a string and its `exp` entry read
/// as an unsigned integer (each `None` when absent or of another type).
pub uninterp spec fn jwt_hs256_claims(secret: Seq<char>, token: Seq<char>) -> Option<(Option<Seq<char>>, Option<u64>)>;

/// The two claims of a verified token that the server reads.
pub struct TokenClaims {
    pub subject: Option<String>,
    pub expiration: Option<u64>,
}

pub open spec fn opt_view(o: Option<String>) -> Option<Seq<char>> {
    match o {
        Some(s) => Some(s@),
        None => None,
    }
}

/// No character of `s` is a space.
pub open spec fn spaceless(s: Seq<char>) -> bool {
    forall|i: int| 0 <= i < s.len() ==> s[i] != ' '
}

/// The two decimal digits of a bcrypt cost.
pub open spec fn cost_digits(cost: u32) -> Seq<char> {
    seq![('0' as u32 + cost / 10) as char, ('0' as u32 + cost % 10) as char]
}

/// A bcrypt hash string in the `2b` format at `cost`: `"$2b$"`, the cost in
/// two digits, `"$"`, then 22 characters of salt and 31 of hash, 60 in all.
pub open spec fn is_bcrypt_hash(h: Seq<char>, cost: u32) -> bool {
    &&& h.len() == 60
    &&& h.subrange(0, 7) == seq!['$', '2', 'b', '$'] + cost_digits(cost) + seq!['$']
}

/// A bcrypt hash string in the `2b` format at cost 12.
pub open spec fn is_default_cost_hash(h: Seq<char>) -> bool {
    &&& h.len() == 60
    &&& h.subrange(0, 7) == seq!['$', '2', 'b', '$', '1', '2', '$']
}

/// `bcrypt::hash`. It fails on a cost outside 4..=31, and can fail when the
/// system's random source fails. A hash it returns, at any cost, is one
/// that `bcrypt::verify` accepts for the same password: it encodes the cost
/// and the salt that `verify` reuses; it is formatted as `"$2b$"`, the cost
/// in two digits, `"$"`, the 22-character salt and the 31-character hash.
/// The random salt it draws is left unsaid.
#[verifier::external_body]
pub(crate) fn bcrypt_hash(password: &str, cost: u32) -> (r: Result<String, bcrypt::BcryptError>)
    ensures
        !(4 <= cost <= 31) ==> r is Err,
        r matches Ok(h) ==> bcrypt_verdict(password@, h@) == Some(true),
        r matches Ok(h) ==> is_bcrypt_hash(h@, cost),
{
    bcrypt::hash(password, cost)
}

/// `bcrypt::verify`: its answer is the named verdict.
#[verifier::external_body]
pub(crate) fn bcrypt_verify(password: &str, hash: &str) -> (r: Result<bool, bcrypt::BcryptError>)
    ensures
        match r {
            Ok(b) => bcrypt_verdict(password@, hash@) == Some(b),
            Err(_) => bcrypt_verdict(password@, hash@) is None,
        },
{
    bcrypt::verify(password, hash)
}

/// `jwt`'s `sign_with_key` on registered claims `sub` and `exp`, with the
/// key that `Hmac::<Sha256>::new_from_slice` makes of the secret's bytes.
/// Claimed: it succeeds (HMAC takes keys of any length, the claims always
/// serialize, HMAC signing cannot fail), gives the named token, the token
/// has no space (it is three base64url parts joined by dots), and verifying
/// it with the same secret gives back its subject and expiration.
#[verifier::external_body]
pub(crate) fn jwt_sign(secret: &str, subject: &str, expiration: u64) -> (r: Result<String, jwt::Error>)
    ensures
        r is Ok,
        r matches Ok(t) ==> t@ == jwt_hs256_token(secret@, subject@, expiration),
        r matches Ok(t) ==> spaceless(t@),
        r matches Ok(t) ==> jwt_hs256_claims(secret@, t@) == Some((Some(subject@), Some(expiration))),
{
    let key: Hmac<Sha256> = Hmac::new_from_slice(secret.as_bytes())?;
    let mut registered = jwt::RegisteredClaims::default();
    registered.subject = Some(subject.to_string());
    registered.expiration = Some(expiration);
    jwt::Claims::new(registered).sign_with_key(&key)
}

/// `jwt`'s `verify_with_key` into a JSON object of claims, with the key
/// that `Hmac::<Sha256>::new_from_slice` makes of the secret's bytes; the
/// `sub` and `exp` entries are read with `serde_json::from_value` as a
/// `String` and a `u64`, and every other claim is left alone. Claimed: the
/// outcome is the named one, and a token that `jwt_sign` made with the same
/// secret verifies and gives back its subject and expiration. Of a claim
/// repeated in the object, the last one is read.
#[verifier::external_body]
pub(crate) fn jwt_verify(secret: &str, token: &str) -> (r: Result<TokenClaims, jwt::Error>)
    ensures
        r is Ok <==> jwt_hs256_claims(secret@, token@) is Some,
        r matches Ok(c) ==> jwt_hs256_claims(secret@, token@) == Some((opt_view(c.subject), c.expiration)),
        r is Err ==> forall|p: (Seq<char>, u64)| #[trigger] jwt_hs256_token(secret@, p.0, p.1) != token@,
        r matches Ok(c) ==> forall|p: (Seq<char>, u64)|
            #[trigger] jwt_hs256_token(secret@, p.0, p.1) == token@ ==> opt_view(c.subject) == Some(p.0)
                && c.expiration == Some(p.1),
{
    let key: Hmac<Sha256> = Hmac::new_from_slice(secret.as_bytes())?;
    let mut claims: std::collections::BTreeMap<String, serde_json::Value> = token.verify_with_key(&key)?;
    let subject = match claims.remove("sub") {
        Some(v) => serde_json::from_value::<String>(v).ok(),
        None => None,
    };
    let expiration = match claims.remove("exp") {
        Some(v) => serde_json::from_value::<u64>(v).ok(),
        None => None,
    };
    Ok(TokenClaims { subject, expiration })
}

} // verus!
