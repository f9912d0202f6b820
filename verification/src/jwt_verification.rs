//! The request guard: who sent a request, read from its bearer token, and
//! what an authenticated user may do with their history.
use vstd::prelude::*;

use crate::bearer::{bearer_prefix, lemma_bearer_round_trip, remove_all, strip_bearer};
use crate::crypto::{jwt_hs256_claims, jwt_hs256_token, jwt_verify, spaceless};
use crate::error_types::FetchHistoryError;
use crate::status;
use crate::structs::{Claims, User, UserHistory};

verus! {

/// The secret the session tokens are signed and verified with.
pub const SECRET_KEY: &'static str = "secret_key";

/// A user whose request carried a valid, unexpired token of theirs.
#[derive(Debug, Clone, PartialEq, Eq)]
pub struct AuthenticatedUser(User);

/// What the guard does after reading a request's token: turn it away
/// unauthorized, or look the token's subject up.
#[derive(Debug, Clone, PartialEq, Eq)]
pub enum GuardStep {
    Reject,
    LookUp(String),
}

/// The claims of the token in an `Authorization` header.
pub open spec fn header_claims(header: Seq<char>) -> Option<(Option<Seq<char>>, Option<u64>)> {
    jwt_hs256_claims(SECRET_KEY@, remove_all(header, bearer_prefix()))
}

/// Claims that the guard can read: a subject and an expiration that fits a
/// `usize`.
pub open spec fn readable(c: Option<(Option<Seq<char>>, Option<u64>)>) -> bool {
    c matches Some((Some(_), Some(e))) && e <= usize::MAX
}

/// Whether the guard's request needs readable claims to go on: the
/// database is there and a header was sent.
pub open spec fn reads_token(db_available: bool, authorization: Option<&str>) -> bool {
    db_available && authorization is Some
}

/// The guard's step, for a request whose token (if it reads one) is readable.
pub open spec fn guard_step_holds(db_available: bool, authorization: Option<&str>, now: i64, r: GuardStep) -> bool {
    if reads_token(db_available, authorization) {
        let (sub, exp) = header_claims(authorization.unwrap()@).unwrap();
        if exp.unwrap() as usize > now as usize {
            r matches GuardStep::LookUp(u) && u@ == sub.unwrap()
        } else {
            r is Reject
        }
    } else {
        r is Reject
    }
}

/// What reading a user's history answers, given the rows the history query
/// found (or the database's error).
pub open spec fn get_history_holds(
    rows: Result<Vec<UserHistory>, String>,
    r: Result<Option<Vec<String>>, FetchHistoryError>,
) -> bool {
    match rows {
        Err(e) => r == Err::<Option<Vec<String>>, FetchHistoryError>(FetchHistoryError::DatabaseError(e)),
        Ok(v) => if v@.len() == 0 {
            r matches Ok(Some(h)) && h@.len() == 1 && h@[0]@ == "{}"@
        } else {
            r matches Ok(Some(h)) && h@ == v@[0].requests@
        },
    }
}

/// What the guard's last step answers, given the lookup of the token's
/// subject.
pub open spec fn lookup_holds(found: Result<Option<User>, String>, r: Result<AuthenticatedUser, u16>) -> bool {
    match found {
        Ok(Some(u)) => r matches Ok(a) && a.account() == u,
        _ => r == Err::<AuthenticatedUser, u16>(status::UNAUTHORIZED),
    }
}

/// The guard lets a request through only with a token it can read and that
/// has not expired: without the database or a header it turns the request
/// away; otherwise it looks the token's subject up exactly when the
/// token's expiry lies after `now`.
pub proof fn lemma_guard_answers(db_available: bool, authorization: Option<&str>, now: i64, step: GuardStep)
    requires
        guard_step_holds(db_available, authorization, now, step),
        reads_token(db_available, authorization) ==> readable(header_claims(authorization.unwrap()@)),
        0 <= now <= usize::MAX,
    ensures
        !db_available ==> step is Reject,
        authorization is None ==> step is Reject,
        db_available && authorization is Some ==> (header_claims(authorization.unwrap()@) matches Some(
            (Some(sub), Some(exp)),
        ) && (exp > now ==> (step matches GuardStep::LookUp(u) && u@ == sub)) && (exp <= now ==> step is Reject)),
{
}

/// The guard's last step authenticates exactly the account the lookup
/// found; a missing account or a failed lookup is unauthorized (401).
pub proof fn lemma_lookup_answers(found: Result<Option<User>, String>, r: Result<AuthenticatedUser, u16>)
    requires
        lookup_holds(found, r),
    ensures
        found matches Ok(Some(u)) ==> (r matches Ok(a) && a.account() == u),
        !(found matches Ok(Some(_))) ==> r == Err::<AuthenticatedUser, u16>(401),
{
}

/// Reading a history answers the requests of the first row found, exactly
/// and of any length; with no row, a single empty JSON object; a failed
/// query is a database error with its description.
pub proof fn lemma_history_read_answers(
    rows: Result<Vec<UserHistory>, String>,
    r: Result<Option<Vec<String>>, FetchHistoryError>,
)
    requires
        get_history_holds(rows, r),
    ensures
        rows matches Err(e) ==> r == Err::<Option<Vec<String>>, FetchHistoryError>(FetchHistoryError::DatabaseError(e)),
        rows matches Ok(v) ==> (v@.len() == 0 ==> (r matches Ok(Some(h)) && h@.len() == 1 && h@[0]@ == seq![
            '{',
            '}',
        ])),
        rows matches Ok(v) ==> (v@.len() > 0 ==> (r matches Ok(Some(h)) && h@ == v@[0].requests@)),
{
    reveal_strlit("{}");
}

/// Verifies the token of a header and reads its claims.
fn header_token_claims(header: &str) -> (r: Option<Claims>)
    ensures
        match header_claims(header@) {
            Some((Some(s), Some(e))) => if e <= usize::MAX {
                r matches Some(c) && c.sub@ == s && c.exp == e
            } else {
                r is None
            },
            _ => r is None,
        },
{
    let token = strip_bearer(header);
    match jwt_verify(SECRET_KEY, token.as_str()) {
        Ok(c) => Claims::from_token(c),
        Err(_) => None,
    }
}

impl AuthenticatedUser {
    pub closed spec fn account(&self) -> User {
        self.0
    }

    /// The authenticated account.
    pub fn user(&self) -> (u: &User)
        ensures
            *u == self.account(),
    {
        &self.0
    }

    /// The guard's first step. Without a database connection, or without an
    /// `Authorization` header, the request is unauthorized. Otherwise the
    /// header's token, verified with the server's secret, must carry claims
    /// the guard can read; if they have not expired at `now` (seconds since
    /// the epoch) their subject is looked up, else the request is
    /// unauthorized.
    pub fn from_request(db_available: bool, authorization: Option<&str>, now: i64) -> (r: GuardStep)
        requires
            reads_token(db_available, authorization) ==> readable(header_claims(authorization.unwrap()@)),
        ensures
            guard_step_holds(db_available, authorization, now, r),
    {
        if !db_available {
            return GuardStep::Reject;
        }
        match authorization {
            None => GuardStep::Reject,
            Some(h) => {
                match header_token_claims(h) {
                    Some(claims) => {
                        if claims.exp > now as usize {
                            GuardStep::LookUp(claims.sub)
                        } else {
                            GuardStep::Reject
                        }
                    },
                    None => GuardStep::Reject,
                }
            },
        }
    }

    /// The guard's first step for any request: `None` where the token it
    /// has to read does not verify or lacks a subject or an expiration,
    /// otherwise the step `from_request` takes. A token that the server
    /// issued to `sub` until `exp` is read back as such.
    pub fn try_from_request(db_available: bool, authorization: Option<&str>, now: i64) -> (r: Option<GuardStep>)
        ensures
            r is None <==> (reads_token(db_available, authorization) && !readable(
                header_claims(authorization.unwrap()@),
            )),
            r matches Some(step) ==> guard_step_holds(db_available, authorization, now, step),
            forall|p: (Seq<char>, u64)|
                reads_token(db_available, authorization) && authorization.unwrap()@ == bearer_prefix()
                    + #[trigger] jwt_hs256_token(SECRET_KEY@, p.0, p.1) && spaceless(
                    jwt_hs256_token(SECRET_KEY@, p.0, p.1),
                ) && p.1 <= usize::MAX ==> (r matches Some(step) && if p.1 as usize > now as usize {
                    step matches GuardStep::LookUp(u) && u@ == p.0
                } else {
                    step is Reject
                }),
    {
        if db_available {
            if let Some(h) = authorization {
                let token = strip_bearer(h);
                let verified = jwt_verify(SECRET_KEY, token.as_str());
                proof {
                    assert forall|p: (Seq<char>, u64)|
                        h@ == bearer_prefix() + #[trigger] jwt_hs256_token(SECRET_KEY@, p.0, p.1)
                            && spaceless(jwt_hs256_token(SECRET_KEY@, p.0, p.1))
                            implies header_claims(h@) == Some((Some(p.0), Some(p.1))) by {
                        lemma_bearer_round_trip(jwt_hs256_token(SECRET_KEY@, p.0, p.1));
                    }
                }
                let readable_claims = match verified {
                    Ok(c) => Claims::from_token(c).is_some(),
                    Err(_) => false,
                };
                if !readable_claims {
                    return None;
                }
            }
        }
        Some(Self::from_request(db_available, authorization, now))
    }

    /// The guard's last step, given what looking the subject up found (or
    /// the database's error): the account found is authenticated, anything
    /// else is unauthorized.
    pub fn from_lookup(found: Result<Option<User>, String>) -> (r: Result<AuthenticatedUser, u16>)
        ensures
            lookup_holds(found, r),
    {
        match found {
            Ok(Some(u)) => Ok(AuthenticatedUser(u)),
            _ => Err(status::UNAUTHORIZED),
        }
    }

    /// The query that reads this user's history rows. The name is put into
    /// the statement as it is.
    pub fn history_query(&self) -> (q: String)
        ensures
            q@ == "SELECT username, requests FROM user_histories WHERE username = '"@
                + self.account().username@ + "'"@,
    {
        let mut q = String::from_str("SELECT username, requests FROM user_histories WHERE username = '");
        q.append(self.0.username.as_str());
        q.append("'");
        q
    }

    /// This user's history, given the rows the history query found (or the
    /// database's error): the requests of the first row, or, when there is
    /// no row, a single empty JSON object.
    pub fn get_history(self, rows: Result<Vec<UserHistory>, String>) -> (r: Result<Option<Vec<String>>, FetchHistoryError>)
        ensures
            get_history_holds(rows, r),
    {
        match rows {
            Err(e) => Err(FetchHistoryError::DatabaseError(e)),
            Ok(mut v) => {
                if v.len() == 0 {
                    let mut h: Vec<String> = Vec::new();
                    h.push(String::from_str("{}"));
                    Ok(Some(h))
                } else {
                    let first = v.swap_remove(0);
                    Ok(Some(first.requests))
                }
            },
        }
    }

    /// Appending a request to this user's history, given how the update
    /// went: the user again when it ran, however many rows it changed, or
    /// the database's error.
    pub fn append_history(self, updated: Result<usize, String>) -> (r: Result<Option<Self>, String>)
        ensures
            match updated {
                Ok(_) => r == Ok::<Option<Self>, String>(Some(self)),
                Err(e) => r == Err::<Option<Self>, String>(e),
            },
    {
        match updated {
            Ok(_) => Ok(Some(self)),
            Err(e) => Err(e),
        }
    }

    /// Clearing this user's history, given how the update went: `true` when
    /// it ran, or the database's error.
    pub fn clear_history(self, updated: Result<usize, String>) -> (r: Result<bool, String>)
        ensures
            match updated {
                Ok(_) => r == Ok::<bool, String>(true),
                Err(e) => r == Err::<bool, String>(e),
            },
    {
        match updated {
            Ok(_) => Ok(true),
            Err(e) => Err(e),
        }
    }
}

} // verus!
