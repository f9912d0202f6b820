//! What each route of the server decides, and the table of routes it
//! mounts. The caller runs the database queries and the model, reads the
//! clock, and hands their results to these functions.
use vstd::prelude::*;

use crate::cors::Method;
use crate::bearer::{bearer_prefix, lemma_bearer_round_trip};
use crate::crypto::{
    bcrypt_hash, bcrypt_verdict, cost_digits, is_default_cost_hash, jwt_hs256_claims, jwt_hs256_token, jwt_sign, spaceless,
};
use crate::error_types::{FetchHistoryError, LoginError, SignUpError};
use crate::jwt_verification::{
    guard_step_holds, header_claims, readable, AuthenticatedUser, GuardStep, SECRET_KEY,
};
use crate::status;
use crate::structs::{DataPrompt, LoginForm, MlRequestResult, User};
use crate::token_response::TokenResponse;

verus! {

/// How long a session token is valid: twenty minutes, in seconds.
pub const TOKEN_LIFETIME_SECS: i64 = 1200;

/// The bcrypt cost passwords are hashed at: bcrypt's `DEFAULT_COST`.
pub const PASSWORD_HASH_COST: u32 = 12;

/// When a token issued at `now` (seconds since the epoch) expires.
pub open spec fn token_expiry(now: i64) -> usize {
    (now + TOKEN_LIFETIME_SECS) as usize
}

/// The greeting of the root route.
pub fn test() -> (s: String)
    ensures
        s@ == "Hello there"@,
{
    String::from_str("Hello there")
}

/// What a login answers, given what looking the name up found (or the
/// database's error), the password sent, and the time.
pub open spec fn login_holds(
    found: Result<Option<User>, String>,
    password: Seq<char>,
    now: i64,
    r: Result<TokenResponse, LoginError>,
) -> bool {
    match found {
        Err(e) => r == Err::<TokenResponse, LoginError>(LoginError::DatabaseError(e)),
        Ok(None) => r == Err::<TokenResponse, LoginError>(LoginError::UserNotFound),
        Ok(Some(u)) => if bcrypt_verdict(password, u.password_hashed@) == Some(true) {
            r matches Ok(t) && t.token@ == jwt_hs256_token(SECRET_KEY@, u.username@, token_expiry(now) as u64)
                && spaceless(t.token@) && jwt_hs256_claims(SECRET_KEY@, t.token@) == Some(
                (Some(u.username@), Some(token_expiry(now) as u64)),
            )
        } else {
            r == Err::<TokenResponse, LoginError>(LoginError::WrongPassword)
        },
    }
}

/// Logs a user in: an account whose stored hash accepts the password gets
/// a token, signed with the server's secret, that names the account and
/// expires twenty minutes after `now`. The stored hash must be one bcrypt
/// can read.
pub fn login(found: Result<Option<User>, String>, password: &str, now: i64) -> (r: Result<TokenResponse, LoginError>)
    requires
        now <= i64::MAX - TOKEN_LIFETIME_SECS,
        found matches Ok(Some(u)) ==> bcrypt_verdict(password@, u.password_hashed@) is Some,
    ensures
        login_holds(found, password@, now, r),
{
    match found {
        Err(e) => Err(LoginError::DatabaseError(e)),
        Ok(None) => Err(LoginError::UserNotFound),
        Ok(Some(user)) => {
            if user.verify_password(password) {
                let exp: usize = (now + TOKEN_LIFETIME_SECS) as usize;
                match jwt_sign(SECRET_KEY, user.username.as_str(), exp as u64) {
                    Ok(token) => Ok(TokenResponse { token }),
                    Err(_) => Err(LoginError::JwtSigningError),
                }
            } else {
                Err(LoginError::WrongPassword)
            }
        },
    }
}

/// Logs a user in whatever the stored hash: `None` where bcrypt cannot
/// read it, otherwise the answer of `login`.
pub fn try_login(found: Result<Option<User>, String>, password: &str, now: i64) -> (r: Option<Result<TokenResponse, LoginError>>)
    requires
        now <= i64::MAX - TOKEN_LIFETIME_SECS,
    ensures
        r is None <==> (found matches Ok(Some(u)) && bcrypt_verdict(password@, u.password_hashed@) is None),
        r matches Some(res) ==> login_holds(found, password@, now, res),
{
    if let Ok(Some(u)) = &found {
        if u.check_password(password).is_none() {
            return None;
        }
    }
    Some(login(found, password, now))
}

/// What a sign-up answers: an empty name, then an empty password, is
/// refused; otherwise the account keeps the name and a bcrypt hash (cost
/// 12) that accepts the password, unless hashing failed.
pub open spec fn sign_up_holds(form: LoginForm, r: Result<User, SignUpError>) -> bool {
    if form.username@.len() == 0 {
        r == Err::<User, SignUpError>(SignUpError::InvalidUsername)
    } else if form.password@.len() == 0 {
        r == Err::<User, SignUpError>(SignUpError::InvalidPassword)
    } else {
        match r {
            Ok(u) => u.username == form.username && bcrypt_verdict(form.password@, u.password_hashed@)
                == Some(true) && is_default_cost_hash(u.password_hashed@),
            Err(e) => e == SignUpError::HashingError,
        }
    }
}

/// Signs a user up: checks the form and hashes the password.
pub fn sign_up(form: LoginForm) -> (r: Result<User, SignUpError>)
    ensures
        sign_up_holds(form, r),
{
    if form.username.as_str().is_empty() {
        return Err(SignUpError::InvalidUsername);
    } else if form.password.as_str().is_empty() {
        return Err(SignUpError::InvalidPassword);
    }
    let hashed = bcrypt_hash(form.password.as_str(), PASSWORD_HASH_COST);
    assert(seq!['$', '2', 'b', '$'] + cost_digits(12) + seq!['$'] =~= seq!['$', '2', 'b', '$', '1', '2', '$']);
    signed_up_user(form.username, hashed)
}

/// The account a sign-up makes of a name and the outcome of hashing its
/// password.
pub fn signed_up_user(username: String, hashed: Result<String, bcrypt::BcryptError>) -> (r: Result<User, SignUpError>)
    ensures
        match hashed {
            Ok(h) => r == Ok::<User, SignUpError>(User { username, password_hashed: h }),
            Err(_) => r == Err::<User, SignUpError>(SignUpError::HashingError),
        },
{
    match hashed {
        Ok(h) => Ok(User { username, password_hashed: h }),
        Err(_) => Err(SignUpError::HashingError),
    }
}

/// A user who signed up with a password logs in with it: the login
/// succeeds, with a token that names the account and expires twenty minutes
/// after the login.
pub proof fn lemma_signed_up_user_logs_in(
    form: LoginForm,
    u: User,
    now: i64,
    r: Result<TokenResponse, LoginError>,
)
    requires
        sign_up_holds(form, Ok(u)),
        login_holds(Ok(Some(u)), form.password@, now, r),
    ensures
        r matches Ok(t) && t.token@ == jwt_hs256_token(SECRET_KEY@, form.username@, token_expiry(now) as u64),
{
}

/// A token that a login issued authenticates its account: sent back as a
/// bearer token, the guard can read it, and looks the account up while the
/// token has not expired, twenty minutes after the login; after that it
/// turns the request away.
pub proof fn lemma_issued_token_authenticates(
    account: User,
    password: Seq<char>,
    issued: i64,
    r: Result<TokenResponse, LoginError>,
    header: &str,
    later: i64,
    step: GuardStep,
)
    requires
        bcrypt_verdict(password, account.password_hashed@) == Some(true),
        login_holds(Ok(Some(account)), password, issued, r),
        r matches Ok(t) && header@ == bearer_prefix() + t.token@,
        guard_step_holds(true, Some(header), later, step),
    ensures
        readable(header_claims(header@)),
        if token_expiry(issued) > later as usize {
            step matches GuardStep::LookUp(u) && u@ == account.username@
        } else {
            step is Reject
        },
{
    let t = r->Ok_0;
    lemma_bearer_round_trip(t.token@);
}

/// What a login answers, in terms of its inputs: a database error is
/// passed on, an unknown name and a refused password are refused, and an
/// accepted password gets a token for the account, which verifies with the
/// server's secret to the account's name and an expiry exactly twenty
/// minutes (1200 seconds) after the login.
pub proof fn lemma_login_answers(
    found: Result<Option<User>, String>,
    password: Seq<char>,
    now: i64,
    r: Result<TokenResponse, LoginError>,
)
    requires
        login_holds(found, password, now, r),
        0 <= now,
        now + 1200 <= usize::MAX,
    ensures
        found matches Err(e) ==> r == Err::<TokenResponse, LoginError>(LoginError::DatabaseError(e)),
        found is Ok && found->Ok_0 is None ==> r == Err::<TokenResponse, LoginError>(LoginError::UserNotFound),
        found matches Ok(Some(u)) && bcrypt_verdict(password, u.password_hashed@) == Some(false) ==> r
            == Err::<TokenResponse, LoginError>(LoginError::WrongPassword),
        found matches Ok(Some(u)) ==> (bcrypt_verdict(password, u.password_hashed@) == Some(true) ==> (
        r matches Ok(t) && jwt_hs256_claims(SECRET_KEY@, t.token@) matches Some((Some(sub), Some(exp)))
            && sub == u.username@ && exp == now + 1200)),
{
}

/// A token a login issued at `issued` authenticates its account at every
/// time before `issued + 1200` seconds, and no later.
pub proof fn lemma_issued_token_valid_for_twenty_minutes(
    account: User,
    password: Seq<char>,
    issued: i64,
    r: Result<TokenResponse, LoginError>,
    header: &str,
    later: i64,
    step: GuardStep,
)
    requires
        bcrypt_verdict(password, account.password_hashed@) == Some(true),
        login_holds(Ok(Some(account)), password, issued, r),
        r matches Ok(t) && header@ == bearer_prefix() + t.token@,
        guard_step_holds(true, Some(header), later, step),
        0 <= issued,
        0 <= later,
        issued + 1200 <= usize::MAX,
        later <= usize::MAX,
    ensures
        later < issued + 1200 ==> (step matches GuardStep::LookUp(u) && u@ == account.username@),
        later >= issued + 1200 ==> step is Reject,
{
    lemma_issued_token_authenticates(account, password, issued, r, header, later, step);
    assert(token_expiry(issued) == issued + 1200);
    assert(later as usize == later);
}

/// What a sign-up answers, in terms of its form: an empty name is refused
/// as such, then an empty password; otherwise the account keeps the name
/// and gets a 60-character `"$2b$12$"` bcrypt hash that accepts the
/// password, or hashing failed.
pub proof fn lemma_sign_up_answers(form: LoginForm, r: Result<User, SignUpError>)
    requires
        sign_up_holds(form, r),
    ensures
        form.username@.len() == 0 ==> r == Err::<User, SignUpError>(SignUpError::InvalidUsername),
        form.username@.len() > 0 && form.password@.len() == 0 ==> r == Err::<User, SignUpError>(
            SignUpError::InvalidPassword,
        ),
        form.username@.len() > 0 && form.password@.len() > 0 ==> match r {
            Ok(u) => u.username == form.username && bcrypt_verdict(form.password@, u.password_hashed@)
                == Some(true) && u.password_hashed@.len() == 60 && u.password_hashed@.subrange(0, 7)
                == seq!['$', '2', 'b', '$', '1', '2', '$'],
            Err(e) => e == SignUpError::HashingError,
        },
{
}

/// The history route answers exactly the history that was fetched, of any
/// length; when fetching gave none or failed, the history is not found.
pub proof fn lemma_history_route_answers_fetched(
    fetched: Result<Option<Vec<String>>, FetchHistoryError>,
    r: Result<Vec<String>, FetchHistoryError>,
)
    requires
        history_response_holds(fetched, r),
    ensures
        fetched matches Ok(Some(h)) ==> (r matches Ok(g) && g@ == h@),
        !(fetched matches Ok(Some(_))) ==> r == Err::<Vec<String>, FetchHistoryError>(FetchHistoryError::NotFound),
{
}

/// Clearing is answered 200 whenever the update ran, and a failed update is
/// a database error with the database's description.
pub proof fn lemma_clear_route_answers(cleared: Result<bool, String>, r: Result<u16, FetchHistoryError>)
    requires
        clear_response_holds(cleared, r),
    ensures
        cleared is Ok ==> r == Ok::<u16, FetchHistoryError>(200),
        cleared matches Err(e) ==> r == Err::<u16, FetchHistoryError>(FetchHistoryError::DatabaseError(e)),
{
}

/// The answer to a prompt sent by an authenticated user: the model is only
/// consulted, the answer is empty.
pub fn feed(user: &AuthenticatedUser, data: DataPrompt) -> (r: MlRequestResult)
    ensures
        r.text@ == Seq::<char>::empty(),
        r.prompt@ == Seq::<char>::empty(),
        r.result@ == Seq::<char>::empty(),
{
    MlRequestResult { text: String::new(), prompt: String::new(), result: String::new() }
}

/// What a history request answers, given what fetching it gave.
pub open spec fn history_response_holds(
    fetched: Result<Option<Vec<String>>, FetchHistoryError>,
    r: Result<Vec<String>, FetchHistoryError>,
) -> bool {
    match fetched {
        Ok(Some(h)) => r == Ok::<Vec<String>, FetchHistoryError>(h),
        _ => r == Err::<Vec<String>, FetchHistoryError>(FetchHistoryError::NotFound),
    }
}

/// What a request to clear the history answers, given how clearing went.
pub open spec fn clear_response_holds(cleared: Result<bool, String>, r: Result<u16, FetchHistoryError>) -> bool {
    match cleared {
        Ok(_) => r == Ok::<u16, FetchHistoryError>(status::OK),
        Err(e) => r == Err::<u16, FetchHistoryError>(FetchHistoryError::DatabaseError(e)),
    }
}

/// The answer to a history request, given what fetching it gave: the
/// history, or not found when there was none or fetching failed.
pub fn get_history(fetched: Result<Option<Vec<String>>, FetchHistoryError>) -> (r: Result<Vec<String>, FetchHistoryError>)
    ensures
        history_response_holds(fetched, r),
{
    match fetched {
        Ok(Some(h)) => Ok(h),
        _ => Err(FetchHistoryError::NotFound),
    }
}

/// The answer to a request to clear the history, given how clearing went.
pub fn clear_history(cleared: Result<bool, String>) -> (r: Result<u16, FetchHistoryError>)
    ensures
        clear_response_holds(cleared, r),
{
    match cleared {
        Ok(_) => Ok(status::OK),
        Err(e) => Err(FetchHistoryError::DatabaseError(e)),
    }
}

/// The handlers the routes lead to.
#[derive(Debug, Clone, Copy, PartialEq, Eq, Structural)]
pub enum Handler {
    Feed,
    Login,
    SignUp,
    Test,
    GetHistory,
    OptionsHistory,
    ClearHistory,
}

/// The fairings the server attaches.
#[derive(Debug, Clone, Copy, PartialEq, Eq, Structural)]
pub enum Fairing {
    Cors,
    Database,
}

/// A route: requests with this method and path go to this handler.
#[derive(Debug, Clone, PartialEq, Eq)]
pub struct Route {
    pub method: Method,
    pub path: String,
    pub handler: Handler,
}

/// How the server is put together: the fairings it attaches, in order, the
/// database it connects to, where it mounts its routes, and the routes.
#[derive(Debug, Clone, PartialEq, Eq)]
pub struct Launch {
    pub fairings: Vec<Fairing>,
    pub database: String,
    pub mount_point: String,
    pub routes: Vec<Route>,
}

pub open spec fn route_views(routes: Seq<Route>) -> Seq<(Method, Seq<char>, Handler)> {
    routes.map_values(|r: Route| (r.method, r.path@, r.handler))
}

/// The server's routes.
pub open spec fn route_table() -> Seq<(Method, Seq<char>, Handler)> {
    seq![
        (Method::Post, "/feed"@, Handler::Feed),
        (Method::Post, "/login"@, Handler::Login),
        (Method::Post, "/sign_up"@, Handler::SignUp),
        (Method::Get, "/"@, Handler::Test),
        (Method::Get, "/history"@, Handler::GetHistory),
        (Method::Options, "/history"@, Handler::OptionsHistory),
        (Method::Delete, "/clear"@, Handler::ClearHistory),
    ]
}

fn route(method: Method, path: &str, handler: Handler) -> (r: Route)
    ensures
        r.method == method,
        r.path@ == path@,
        r.handler == handler,
{
    Route { method, path: String::from_str(path), handler }
}

/// The server: the CORS fairing and the pool of the `postgres_db`
/// database, and the route table mounted at `/`.
pub fn rocket() -> (l: Launch)
    ensures
        l.fairings@ == seq![Fairing::Cors, Fairing::Database],
        l.database@ == "postgres_db"@,
        l.mount_point@ == "/"@,
        route_views(l.routes@) == route_table(),
{
    let mut fairings: Vec<Fairing> = Vec::new();
    fairings.push(Fairing::Cors);
    fairings.push(Fairing::Database);
    let mut routes: Vec<Route> = Vec::new();
    routes.push(route(Method::Post, "/feed", Handler::Feed));
    routes.push(route(Method::Post, "/login", Handler::Login));
    routes.push(route(Method::Post, "/sign_up", Handler::SignUp));
    routes.push(route(Method::Get, "/", Handler::Test));
    routes.push(route(Method::Get, "/history", Handler::GetHistory));
    routes.push(route(Method::Options, "/history", Handler::OptionsHistory));
    routes.push(route(Method::Delete, "/clear", Handler::ClearHistory));
    assert(route_views(routes@) =~= route_table());
    assert(fairings@ =~= seq![Fairing::Cors, Fairing::Database]);
    Launch {
        fairings,
        database: String::from_str("postgres_db"),
        mount_point: String::from_str("/"),
        routes,
    }
}

/// No two routes of the table share a method and a path, so every request
/// has at most one handler.
pub proof fn lemma_routes_are_unambiguous()
    ensures
        forall|i: int, j: int|
            0 <= i < j < route_table().len() ==> !(route_table()[i].0 == route_table()[j].0
                && route_table()[i].1 == route_table()[j].1),
{
    reveal_strlit("/feed");
    reveal_strlit("/login");
    reveal_strlit("/sign_up");
    reveal_strlit("/");
    reveal_strlit("/history");
    reveal_strlit("/clear");
    let t = route_table();
    assert forall|i: int, j: int| 0 <= i < j < t.len() implies !(t[i].0 == t[j].0 && t[i].1 == t[j].1) by {
        if t[i].0 == t[j].0 && t[i].1 == t[j].1 {
            assert(t[i].1.len() == t[j].1.len());
            assert(t[i].1[1] == t[j].1[1]);
        }
    }
}

} // verus!
