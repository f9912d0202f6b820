use prompt_server::error_types::SignUpError;
use prompt_server::handlers::{login, sign_up, signed_up_user};
use prompt_server::structs::{LoginForm, User};

fn form(u: &str, p: &str) -> LoginForm {
    LoginForm { username: u.to_string(), password: p.to_string() }
}

#[test]
fn empty_credentials_are_refused() {
    assert_eq!(sign_up(form("", "pw")), Err(SignUpError::InvalidUsername));
    assert_eq!(sign_up(form("dave", "")), Err(SignUpError::InvalidPassword));
    assert_eq!(sign_up(form("", "")), Err(SignUpError::InvalidUsername));
}

#[test]
fn signed_up_user_can_log_in() {
    let user = sign_up(form("dave", "hunter2")).unwrap();
    assert_eq!(user.username, "dave");
    assert_ne!(user.password_hashed, "hunter2");
    assert_eq!(user.password_hashed.len(), 60);
    assert!(user.password_hashed.starts_with("$2b$12$"));
    assert!(bcrypt::verify("hunter2", &user.password_hashed).unwrap());
    let token = login(Ok(Some(user.clone())), "hunter2", 0).unwrap();
    assert!(!token.token.is_empty());
    assert!(!token.token.contains(' '));
}

#[test]
fn hashing_outcome_decides_the_account() {
    assert_eq!(
        signed_up_user("erin".to_string(), Ok("$2b$04$abc".to_string())),
        Ok(User { username: "erin".to_string(), password_hashed: "$2b$04$abc".to_string() })
    );
    assert_eq!(
        signed_up_user("erin".to_string(), Err(bcrypt::BcryptError::CostNotAllowed(3))),
        Err(SignUpError::HashingError)
    );
}

#[test]
fn creating_an_account() {
    let u = User { username: "frank".to_string(), password_hashed: "h".to_string() };
    let a = u.clone().create_new(Ok(None)).unwrap();
    assert_eq!(a.user, u);
    assert_eq!(a.history.username, "frank");
    assert!(a.history.requests.is_empty());
    assert_eq!(u.clone().create_new(Ok(Some(u.clone()))), Err(SignUpError::UsernameTakenError));
    assert_eq!(u.create_new(Err("down".to_string())), Err(SignUpError::DatabaseError("down".to_string())));
}
