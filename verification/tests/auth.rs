use std::collections::BTreeMap;

use hmac::{Hmac, Mac};
use jwt::VerifyWithKey;
use sha2::Sha256;

use prompt_server::error_types::LoginError;
use prompt_server::handlers::{login, try_login};
use prompt_server::jwt_verification::{AuthenticatedUser, GuardStep, SECRET_KEY};
use prompt_server::status;
use prompt_server::structs::User;

// bcrypt's own test vector: the hash (cost 4) of "password".
const PASSWORD_HASH: &str = "$2a$04$UuTkLRZZ6QofpDOlMz32MuuxEHA43WOemOYHPz6.SjsVsyO1tDU96";

fn alice() -> User {
    User { username: "alice".to_string(), password_hashed: PASSWORD_HASH.to_string() }
}

#[test]
fn login_issues_a_signed_token() {
    let now: i64 = 1_700_000_000;
    let token = login(Ok(Some(alice())), "password", now).unwrap().token;
    assert!(token.starts_with("eyJhbGciOiJIUzI1NiJ9."));
    let key: Hmac<Sha256> = Hmac::new_from_slice(b"secret_key").unwrap();
    let claims: BTreeMap<String, serde_json::Value> = token.as_str().verify_with_key(&key).unwrap();
    assert_eq!(claims["sub"], serde_json::Value::from("alice"));
    assert_eq!(claims["exp"], serde_json::Value::from(1_700_001_200u64));
}

#[test]
fn login_refusals() {
    assert_eq!(login(Ok(Some(alice())), "wrong", 0), Err(LoginError::WrongPassword));
    assert_eq!(login(Ok(None), "password", 0), Err(LoginError::UserNotFound));
    assert_eq!(
        login(Err("connection refused".to_string()), "password", 0),
        Err(LoginError::DatabaseError("connection refused".to_string()))
    );
}

#[test]
fn unreadable_stored_hash() {
    let broken = User { username: "bob".to_string(), password_hashed: "not a hash".to_string() };
    assert!(broken.check_password("password").is_none());
    assert_eq!(try_login(Ok(Some(broken)), "password", 0), None);
    assert_eq!(try_login(Ok(None), "password", 0), Some(Err(LoginError::UserNotFound)));
}

#[test]
fn password_checks() {
    assert_eq!(alice().check_password("password"), Some(true));
    assert_eq!(alice().check_password("Password"), Some(false));
    assert!(alice().verify_password("password"));
    assert!(!alice().verify_password("passwor"));
}

#[test]
fn issued_token_authenticates_until_it_expires() {
    let now: i64 = 1_700_000_000;
    let token = login(Ok(Some(alice())), "password", now).unwrap().token;
    let header = format!("Bearer {}", token);
    assert_eq!(
        AuthenticatedUser::try_from_request(true, Some(&header), now + 60),
        Some(GuardStep::LookUp("alice".to_string()))
    );
    assert_eq!(
        AuthenticatedUser::from_request(true, Some(&header), now + 1199),
        GuardStep::LookUp("alice".to_string())
    );
    assert_eq!(AuthenticatedUser::from_request(true, Some(&header), now + 1200), GuardStep::Reject);
    assert_eq!(AuthenticatedUser::try_from_request(true, Some(&header), now + 5000), Some(GuardStep::Reject));
}

#[test]
fn guard_turns_away_requests_without_database_or_header() {
    assert_eq!(AuthenticatedUser::try_from_request(false, Some("Bearer x"), 0), Some(GuardStep::Reject));
    assert_eq!(AuthenticatedUser::try_from_request(true, None, 0), Some(GuardStep::Reject));
}

#[test]
fn guard_cannot_read_forged_tokens() {
    assert_eq!(AuthenticatedUser::try_from_request(true, Some("Bearer not.a.token"), 0), None);
    let key: Hmac<Sha256> = Hmac::new_from_slice(b"another secret").unwrap();
    let mut claims = BTreeMap::new();
    claims.insert("sub", serde_json::Value::from("alice"));
    claims.insert("exp", serde_json::Value::from(u64::MAX));
    let forged = jwt::SignWithKey::sign_with_key(claims, &key).unwrap();
    assert_eq!(AuthenticatedUser::try_from_request(true, Some(&format!("Bearer {}", forged)), 0), None);
    assert_eq!(SECRET_KEY, "secret_key");
}

#[test]
fn token_without_expiration_is_unreadable() {
    let key: Hmac<Sha256> = Hmac::new_from_slice(b"secret_key").unwrap();
    let mut claims = BTreeMap::new();
    claims.insert("sub", "alice");
    let token = jwt::SignWithKey::sign_with_key(claims, &key).unwrap();
    assert_eq!(AuthenticatedUser::try_from_request(true, Some(&format!("Bearer {}", token)), 0), None);
}

#[test]
fn lookup_decides_the_guard() {
    let a = AuthenticatedUser::from_lookup(Ok(Some(alice()))).unwrap();
    assert_eq!(a.user(), &alice());
    assert_eq!(AuthenticatedUser::from_lookup(Ok(None)), Err(status::UNAUTHORIZED));
    assert_eq!(AuthenticatedUser::from_lookup(Err("timeout".to_string())), Err(401));
}

#[test]
fn other_claims_of_any_type_are_ignored() {
    let key: Hmac<Sha256> = Hmac::new_from_slice(b"secret_key").unwrap();
    let mut claims = BTreeMap::new();
    claims.insert("sub", serde_json::Value::from("alice"));
    claims.insert("exp", serde_json::Value::from(2_000u64));
    claims.insert("aud", serde_json::Value::from(vec!["a", "b"]));
    claims.insert("iss", serde_json::Value::from(7));
    let token = jwt::SignWithKey::sign_with_key(claims, &key).unwrap();
    let header = format!("Bearer {}", token);
    assert_eq!(
        AuthenticatedUser::try_from_request(true, Some(&header), 1_000),
        Some(GuardStep::LookUp("alice".to_string()))
    );
}

#[test]
fn claims_of_the_wrong_type_are_unreadable() {
    let key: Hmac<Sha256> = Hmac::new_from_slice(b"secret_key").unwrap();
    let mut claims = BTreeMap::new();
    claims.insert("sub", serde_json::Value::from(12));
    claims.insert("exp", serde_json::Value::from(2_000u64));
    let token = jwt::SignWithKey::sign_with_key(claims, &key).unwrap();
    assert_eq!(AuthenticatedUser::try_from_request(true, Some(&format!("Bearer {}", token)), 0), None);
    let mut claims = BTreeMap::new();
    claims.insert("sub", serde_json::Value::from("alice"));
    claims.insert("exp", serde_json::Value::from(-5));
    let token = jwt::SignWithKey::sign_with_key(claims, &key).unwrap();
    assert_eq!(AuthenticatedUser::try_from_request(true, Some(&format!("Bearer {}", token)), 0), None);
}
