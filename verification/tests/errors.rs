use prompt_server::error_types::{FetchHistoryError, LoginError, SignUpError};

#[test]
fn login_error_statuses_and_messages() {
    let cases = vec![
        (LoginError::DatabaseError("connection reset".to_string()), 500, "database error: connection reset"),
        (LoginError::UserNotFound, 401, "user not found"),
        (LoginError::WrongPassword, 401, "wrong password"),
        (LoginError::HmacKeyError, 500, "HMAC key error"),
        (LoginError::JwtSigningError, 500, "JWT signing error"),
    ];
    for (e, status, text) in cases {
        assert_eq!(e.message(), text);
        let r = e.respond_to();
        assert_eq!(r.status, status);
        assert_eq!(r.body, text);
    }
}

#[test]
fn sign_up_error_statuses_and_messages() {
    let cases = vec![
        (SignUpError::DatabaseError("duplicate key".to_string()), 500, "Database error"),
        (SignUpError::HashingError, 500, "Hashing error"),
        (SignUpError::ConnectionError("pool timed out".to_string()), 500, "Connection error"),
        (SignUpError::UsernameTakenError, 409, "Username taken"),
        (SignUpError::InvalidUsername, 400, "Username must be at least 1 char long"),
        (SignUpError::InvalidPassword, 400, "Password must be at least 1 char long"),
    ];
    for (e, status, text) in cases {
        assert_eq!(e.message(), text);
        let r = e.respond_to();
        assert_eq!(r.status, status);
        assert_eq!(r.body, format!("message: {}", text));
    }
}

#[test]
fn fetch_history_error_statuses_and_messages() {
    let cases = vec![
        (FetchHistoryError::DatabaseError("relation does not exist".to_string()), 500, "database error: relation does not exist"),
        (FetchHistoryError::SerializationError("expected value".to_string()), 500, "serialization error: expected value"),
        (FetchHistoryError::NotFound, 404, "history not found"),
    ];
    for (e, status, text) in cases {
        assert_eq!(e.message(), text);
        let r = e.respond_to();
        assert_eq!(r.status, status);
        assert_eq!(r.body, text);
    }
}
