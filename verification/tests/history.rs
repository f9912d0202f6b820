use prompt_server::error_types::FetchHistoryError;
use prompt_server::handlers::{clear_history, get_history};
use prompt_server::jwt_verification::AuthenticatedUser;
use prompt_server::structs::{User, UserHistory};

fn carol() -> AuthenticatedUser {
    let u = User { username: "carol".to_string(), password_hashed: "h".to_string() };
    AuthenticatedUser::from_lookup(Ok(Some(u))).unwrap()
}

#[test]
fn history_query_names_the_user() {
    assert_eq!(
        carol().history_query(),
        "SELECT username, requests FROM user_histories WHERE username = 'carol'"
    );
}

#[test]
fn no_history_row_gives_an_empty_object() {
    assert_eq!(carol().get_history(Ok(vec![])), Ok(Some(vec!["{}".to_string()])));
}

#[test]
fn first_history_row_is_given() {
    let rows = vec![
        UserHistory { username: "carol".to_string(), requests: vec!["{\"a\":1}".to_string(), "[]".to_string()] },
        UserHistory { username: "carol".to_string(), requests: vec!["2".to_string()] },
    ];
    assert_eq!(carol().get_history(Ok(rows)), Ok(Some(vec!["{\"a\":1}".to_string(), "[]".to_string()])));
    let empty = vec![UserHistory { username: "carol".to_string(), requests: vec![] }];
    assert_eq!(carol().get_history(Ok(empty)), Ok(Some(vec![])));
}

#[test]
fn history_database_error() {
    assert_eq!(
        carol().get_history(Err("gone".to_string())),
        Err(FetchHistoryError::DatabaseError("gone".to_string()))
    );
}

#[test]
fn history_response() {
    assert_eq!(get_history(Ok(Some(vec!["{}".to_string()]))), Ok(vec!["{}".to_string()]));
    assert_eq!(get_history(Ok(None)), Err(FetchHistoryError::NotFound));
    assert_eq!(get_history(Err(FetchHistoryError::DatabaseError("x".to_string()))), Err(FetchHistoryError::NotFound));
}

#[test]
fn appending_and_clearing() {
    assert_eq!(carol().append_history(Ok(0)), Ok(Some(carol())));
    assert_eq!(carol().append_history(Ok(1)), Ok(Some(carol())));
    assert_eq!(carol().append_history(Err("e".to_string())), Err("e".to_string()));
    assert_eq!(carol().clear_history(Ok(3)), Ok(true));
    assert_eq!(carol().clear_history(Err("e".to_string())), Err("e".to_string()));
    assert_eq!(clear_history(Ok(true)), Ok(200));
    assert_eq!(clear_history(Err("e".to_string())), Err(FetchHistoryError::DatabaseError("e".to_string())));
}

fn rows_of(table: &[UserHistory], name: &str) -> Vec<UserHistory> {
    table.iter().filter(|r| r.username == name).cloned().collect()
}

#[test]
fn read_after_append_and_clear_on_a_table() {
    let mut table = vec![
        UserHistory { username: "carol".to_string(), requests: vec!["1".to_string()] },
        UserHistory { username: "dan".to_string(), requests: vec!["9".to_string()] },
    ];
    for row in table.iter_mut().filter(|r| r.username == "carol") {
        row.requests.push("{\"t\":2}".to_string());
    }
    assert_eq!(
        carol().get_history(Ok(rows_of(&table, "carol"))),
        Ok(Some(vec!["1".to_string(), "{\"t\":2}".to_string()]))
    );
    for row in table.iter_mut().filter(|r| r.username == "carol") {
        row.requests.clear();
    }
    let once = table.clone();
    for row in table.iter_mut().filter(|r| r.username == "carol") {
        row.requests.clear();
    }
    assert_eq!(table, once);
    assert_eq!(get_history(carol().get_history(Ok(rows_of(&table, "carol")))), Ok(vec![]));
    assert_eq!(
        carol().get_history(Ok(rows_of(&table, "carol"))),
        carol().get_history(Ok(rows_of(&[table[0].clone()], "carol")))
    );
}
