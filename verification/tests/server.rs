use prompt_server::cors::{FairingKind, Method, CORS};
use prompt_server::crypto::TokenClaims;
use prompt_server::handlers::{feed, rocket, Fairing, Handler};
use prompt_server::jwt_verification::AuthenticatedUser;
use prompt_server::structs::{Claims, DataPrompt, User};

fn pair(a: &str, b: &str) -> (String, String) {
    (a.to_string(), b.to_string())
}

#[test]
fn root_greets() {
    assert_eq!(prompt_server::handlers::test(), "Hello there");
}

#[test]
fn cors_fairing_info() {
    let info = CORS.info();
    assert_eq!(info.name, "Add CORS headers to responses");
    assert_eq!(info.kind, FairingKind::Response);
}

#[test]
fn preflight_gets_no_content_and_all_headers() {
    let e = CORS.on_response(Method::Options);
    assert_eq!(e.status, Some(204));
    assert_eq!(
        e.headers,
        vec![
            pair("Access-Control-Allow-Methods", "POST, GET, OPTIONS, DELETE"),
            pair("Access-Control-Allow-Headers", "Content-Type, Authorization"),
            pair("Access-Control-Allow-Origin", "*"),
            pair("Access-Control-Allow-Credentials", "true"),
        ]
    );
}

#[test]
fn other_responses_allow_any_origin() {
    for m in [Method::Get, Method::Post, Method::Delete, Method::Put, Method::Head, Method::Patch] {
        let e = CORS.on_response(m);
        assert_eq!(e.status, None);
        assert_eq!(
            e.headers,
            vec![pair("Access-Control-Allow-Origin", "*"), pair("Access-Control-Allow-Credentials", "true")]
        );
    }
}

#[test]
fn route_table() {
    let l = rocket();
    assert_eq!(l.fairings, vec![Fairing::Cors, Fairing::Database]);
    assert_eq!(l.database, "postgres_db");
    assert_eq!(l.mount_point, "/");
    let table: Vec<(Method, &str, Handler)> = l.routes.iter().map(|r| (r.method, r.path.as_str(), r.handler)).collect();
    assert_eq!(
        table,
        vec![
            (Method::Post, "/feed", Handler::Feed),
            (Method::Post, "/login", Handler::Login),
            (Method::Post, "/sign_up", Handler::SignUp),
            (Method::Get, "/", Handler::Test),
            (Method::Get, "/history", Handler::GetHistory),
            (Method::Options, "/history", Handler::OptionsHistory),
            (Method::Delete, "/clear", Handler::ClearHistory),
        ]
    );
    for i in 0..table.len() {
        for j in (i + 1)..table.len() {
            assert!(!(table[i].0 == table[j].0 && table[i].1 == table[j].1));
        }
    }
}

#[test]
fn feed_answers_empty() {
    let u = User { username: "gus".to_string(), password_hashed: "h".to_string() };
    let user = AuthenticatedUser::from_lookup(Ok(Some(u))).unwrap();
    let data = DataPrompt { text: "some text".to_string(), prompt: "summarize".to_string() };
    let r = feed(&user, data);
    assert_eq!(r.text, "");
    assert_eq!(r.prompt, "");
    assert_eq!(r.result, "");
}

#[test]
fn empty_data_prompt() {
    let d = DataPrompt::new();
    assert_eq!(d.text, "");
    assert_eq!(d.prompt, "");
}

#[test]
fn claims_need_subject_and_expiration() {
    let full = TokenClaims { subject: Some("h".to_string()), expiration: Some(42) };
    assert_eq!(Claims::from_token(full), Some(Claims { sub: "h".to_string(), exp: 42 }));
    assert_eq!(Claims::from_token(TokenClaims { subject: None, expiration: Some(42) }), None);
    assert_eq!(Claims::from_token(TokenClaims { subject: Some("h".to_string()), expiration: None }), None);
}
