//! A model of the two tables the server keeps, `users` and
//! `user_histories`, and of what its queries do to them, with the laws
//! that the library's decisions keep over them. The queries themselves run
//! against the database; the functions here say what each one selects or
//! changes, and the laws combine that with the contracts of the library's
//! functions.
use vstd::prelude::*;

use crate::error_types::{FetchHistoryError, SignUpError};
use crate::handlers::{clear_response_holds, history_response_holds};
use crate::jwt_verification::get_history_holds;
use crate::structs::{NewAccount, User, UserHistory};

verus! {

/// A history row as the model holds it: the user's name and the JSON text
/// of each of their requests.
pub type HistoryRowView = (Seq<char>, Seq<Seq<char>>);

pub open spec fn request_views(requests: Seq<String>) -> Seq<Seq<char>> {
    requests.map_values(|s: String| s@)
}

pub open spec fn history_view(h: UserHistory) -> HistoryRowView {
    (h.username@, request_views(h.requests@))
}

pub open spec fn history_views(rows: Seq<UserHistory>) -> Seq<HistoryRowView> {
    rows.map_values(|h: UserHistory| history_view(h))
}

/// The rows of `histories` that belong to `name`, in table order: what the
/// history query of a user of that name selects.
pub open spec fn rows_of(histories: Seq<HistoryRowView>, name: Seq<char>) -> Seq<HistoryRowView>
    decreases histories.len(),
{
    if histories.len() == 0 {
        Seq::empty()
    } else {
        let rest = rows_of(histories.drop_last(), name);
        if histories.last().0 == name {
            rest.push(histories.last())
        } else {
            rest
        }
    }
}

/// Some account in `users` has this name.
pub open spec fn has_user(users: Seq<User>, name: Seq<char>) -> bool {
    exists|i: int| 0 <= i < users.len() && #[trigger] users[i].username@ == name
}

/// No two accounts share a name.
pub open spec fn names_unique(users: Seq<User>) -> bool {
    forall|i: int, j: int|
        0 <= i < users.len() && 0 <= j < users.len() && i != j ==> #[trigger] users[i].username@
            != #[trigger] users[j].username@
}

/// Every account has exactly one history row, and every history row
/// belongs to an account.
pub open spec fn histories_match(users: Seq<User>, histories: Seq<HistoryRowView>) -> bool {
    &&& forall|i: int| 0 <= i < users.len() ==> #[trigger] rows_of(histories, users[i].username@).len() == 1
    &&& forall|j: int| 0 <= j < histories.len() ==> has_user(users, #[trigger] histories[j].0)
}

/// The tables after a sign-up decided `r`: both rows inserted when it gave
/// them, nothing changed otherwise.
pub open spec fn after_create(
    users: Seq<User>,
    histories: Seq<HistoryRowView>,
    r: Result<NewAccount, SignUpError>,
) -> (Seq<User>, Seq<HistoryRowView>) {
    match r {
        Ok(a) => (users.push(a.user), histories.push(history_view(a.history))),
        Err(_) => (users, histories),
    }
}

/// The history rows of `name` changed by `f`, the others kept.
pub open spec fn update_named(
    histories: Seq<HistoryRowView>,
    name: Seq<char>,
    f: spec_fn(HistoryRowView) -> HistoryRowView,
) -> Seq<HistoryRowView> {
    histories.map_values(|row: HistoryRowView| if row.0 == name { f(row) } else { row })
}

/// The history table after appending the JSON text `entry` to the requests
/// of `name` (`array_append` on that user's rows).
pub open spec fn after_append(histories: Seq<HistoryRowView>, name: Seq<char>, entry: Seq<char>) -> Seq<HistoryRowView> {
    update_named(histories, name, |row: HistoryRowView| (row.0, row.1.push(entry)))
}

/// The history table after clearing the requests of `name`.
pub open spec fn after_clear(histories: Seq<HistoryRowView>, name: Seq<char>) -> Seq<HistoryRowView> {
    update_named(histories, name, |row: HistoryRowView| (row.0, Seq::<Seq<char>>::empty()))
}

pub proof fn lemma_rows_of_push(histories: Seq<HistoryRowView>, row: HistoryRowView, name: Seq<char>)
    ensures
        rows_of(histories.push(row), name) == if row.0 == name {
            rows_of(histories, name).push(row)
        } else {
            rows_of(histories, name)
        },
{
    assert(histories.push(row).drop_last() =~= histories);
}

/// A name that no history row carries has no rows.
pub proof fn lemma_rows_of_absent(histories: Seq<HistoryRowView>, name: Seq<char>)
    requires
        forall|j: int| 0 <= j < histories.len() ==> histories[j].0 != name,
    ensures
        rows_of(histories, name).len() == 0,
    decreases histories.len(),
{
    if histories.len() > 0 {
        lemma_rows_of_absent(histories.drop_last(), name);
    }
}

/// Changing the rows of `name` changes what its query selects in the same
/// way, when the change keeps the name.
pub proof fn lemma_rows_of_update(
    histories: Seq<HistoryRowView>,
    name: Seq<char>,
    f: spec_fn(HistoryRowView) -> HistoryRowView,
)
    requires
        forall|row: HistoryRowView| (#[trigger] f(row)).0 == row.0,
    ensures
        rows_of(update_named(histories, name, f), name) == rows_of(histories, name).map_values(f),
    decreases histories.len(),
{
    if histories.len() == 0 {
        assert(rows_of(histories, name).map_values(f) =~= Seq::<HistoryRowView>::empty());
    } else {
        let u = update_named(histories, name, f);
        lemma_rows_of_update(histories.drop_last(), name, f);
        assert(u.drop_last() =~= update_named(histories.drop_last(), name, f));
        let rest = rows_of(histories.drop_last(), name);
        if histories.last().0 == name {
            assert(rest.push(histories.last()).map_values(f) =~= rest.map_values(f).push(f(histories.last())));
        }
    }
}

/// Signing up keeps the tables consistent: when the lookup the decision was
/// given is what the `users` table holds, and both inserts go through, no
/// two accounts share a name, and every account has exactly one history
/// row, every history row an account.
pub proof fn lemma_create_keeps_tables_consistent(
    users: Seq<User>,
    histories: Seq<HistoryRowView>,
    user: User,
    existing: Result<Option<User>, String>,
    r: Result<NewAccount, SignUpError>,
)
    requires
        names_unique(users),
        histories_match(users, histories),
        existing matches Ok(found) && (found is Some <==> has_user(users, user.username@)),
        user.create_new_holds(existing, r),
    ensures
        names_unique(after_create(users, histories, r).0),
        histories_match(after_create(users, histories, r).0, after_create(users, histories, r).1),
{
    if let Ok(a) = r {
        let name = user.username@;
        let hv = history_view(a.history);
        let nu = users.push(a.user);
        let nh = histories.push(hv);
        assert(!has_user(users, name));
        assert(hv.0 == name);
        assert forall|i: int, j: int|
            0 <= i < nu.len() && 0 <= j < nu.len() && i != j implies #[trigger] nu[i].username@
                != #[trigger] nu[j].username@ by {
            if i == users.len() {
                assert(users[j].username@ != name);
            } else if j == users.len() {
                assert(users[i].username@ != name);
            }
        }
        assert forall|j: int| 0 <= j < histories.len() implies histories[j].0 != name by {
            if histories[j].0 == name {
                assert(has_user(users, histories[j].0));
            }
        }
        lemma_rows_of_absent(histories, name);
        assert forall|i: int| 0 <= i < nu.len() implies #[trigger] rows_of(nh, nu[i].username@).len() == 1 by {
            lemma_rows_of_push(histories, hv, nu[i].username@);
            if i < users.len() {
                assert(users[i].username@ != name);
                assert(rows_of(histories, users[i].username@).len() == 1);
            }
        }
        assert forall|j: int| 0 <= j < nh.len() implies has_user(nu, #[trigger] nh[j].0) by {
            if j < histories.len() {
                assert(has_user(users, histories[j].0));
                let k = choose|k: int| 0 <= k < users.len() && #[trigger] users[k].username@ == histories[j].0;
                assert(nu[k] == users[k]);
            } else {
                assert(nu[users.len() as int].username@ == nh[j].0);
            }
        }
    }
}

/// What deciding on a new account answers: a name the lookup found is
/// taken, a free name gives the user itself and an empty history of the
/// same name, and a failed lookup is a database error.
pub proof fn lemma_create_new_answers(
    user: User,
    existing: Result<Option<User>, String>,
    r: Result<NewAccount, SignUpError>,
)
    requires
        user.create_new_holds(existing, r),
    ensures
        existing matches Ok(Some(_)) ==> r == Err::<NewAccount, SignUpError>(SignUpError::UsernameTakenError),
        existing is Ok && existing->Ok_0 is None ==> (r matches Ok(a) && a.user == user
            && a.history.username@ == user.username@ && a.history.requests@.len() == 0),
        existing matches Err(e) ==> r == Err::<NewAccount, SignUpError>(SignUpError::DatabaseError(e)),
{
}

/// A sign-up with a free name puts the account into the tables, with one
/// empty history row of its name; a sign-up with a taken name changes
/// nothing.
pub proof fn lemma_free_name_is_created(
    users: Seq<User>,
    histories: Seq<HistoryRowView>,
    user: User,
    existing: Result<Option<User>, String>,
    r: Result<NewAccount, SignUpError>,
)
    requires
        existing matches Ok(found) && (found is Some <==> has_user(users, user.username@)),
        user.create_new_holds(existing, r),
    ensures
        !has_user(users, user.username@) ==> (r is Ok && has_user(
            after_create(users, histories, r).0,
            user.username@,
        ) && rows_of(after_create(users, histories, r).1, user.username@) == rows_of(
            histories,
            user.username@,
        ).push((user.username@, Seq::<Seq<char>>::empty()))),
        has_user(users, user.username@) ==> (r is Err && after_create(users, histories, r) == (
            users,
            histories,
        )),
{
    if let Ok(a) = r {
        let nu = users.push(a.user);
        assert(nu[users.len() as int].username@ == user.username@);
        lemma_rows_of_push(histories, history_view(a.history), user.username@);
        assert(request_views(a.history.requests@) =~= Seq::<Seq<char>>::empty());
    }
}

/// The history a user reads depends only on their own rows: two tables
/// that hold the same rows for the name give the same answer.
pub proof fn lemma_history_depends_only_on_own_rows(
    name: Seq<char>,
    histories1: Seq<HistoryRowView>,
    histories2: Seq<HistoryRowView>,
    rows1: Vec<UserHistory>,
    rows2: Vec<UserHistory>,
    r1: Result<Option<Vec<String>>, FetchHistoryError>,
    r2: Result<Option<Vec<String>>, FetchHistoryError>,
)
    requires
        rows_of(histories1, name) == rows_of(histories2, name),
        history_views(rows1@) == rows_of(histories1, name),
        history_views(rows2@) == rows_of(histories2, name),
        get_history_holds(Ok(rows1), r1),
        get_history_holds(Ok(rows2), r2),
    ensures
        r1 matches Ok(Some(h1)) && r2 matches Ok(Some(h2)) && request_views(h1@) == request_views(h2@),
{
    assert(rows1@.len() == history_views(rows1@).len());
    assert(rows2@.len() == history_views(rows2@).len());
    if rows1@.len() > 0 {
        assert(history_views(rows1@)[0] == history_view(rows1@[0]));
        assert(history_views(rows2@)[0] == history_view(rows2@[0]));
    } else {
        let h1 = r1->Ok_0->Some_0;
        let h2 = r2->Ok_0->Some_0;
        assert(request_views(h1@) =~= request_views(h2@));
    }
}

/// Reading a history after appending a request to it gives the requests it
/// had, then the new one.
pub proof fn lemma_read_after_append(
    histories: Seq<HistoryRowView>,
    name: Seq<char>,
    requests: Seq<Seq<char>>,
    entry: Seq<char>,
    rows: Vec<UserHistory>,
    r: Result<Option<Vec<String>>, FetchHistoryError>,
)
    requires
        rows_of(histories, name) == seq![(name, requests)],
        history_views(rows@) == rows_of(after_append(histories, name, entry), name),
        get_history_holds(Ok(rows), r),
    ensures
        r matches Ok(Some(h)) && request_views(h@) == requests.push(entry),
{
    let f = |row: HistoryRowView| (row.0, row.1.push(entry));
    lemma_rows_of_update(histories, name, f);
    assert(rows_of(after_append(histories, name, entry), name) =~= seq![(name, requests.push(entry))]);
    assert(history_views(rows@)[0] == history_view(rows@[0]));
}

/// Reading a history after clearing it gives no requests, and the history
/// route answers an empty list.
pub proof fn lemma_read_after_clear(
    histories: Seq<HistoryRowView>,
    name: Seq<char>,
    rows: Vec<UserHistory>,
    r: Result<Option<Vec<String>>, FetchHistoryError>,
    answer: Result<Vec<String>, FetchHistoryError>,
)
    requires
        rows_of(histories, name).len() == 1,
        history_views(rows@) == rows_of(after_clear(histories, name), name),
        get_history_holds(Ok(rows), r),
        history_response_holds(r, answer),
    ensures
        answer matches Ok(h) && h@.len() == 0,
{
    let f = |row: HistoryRowView| (row.0, Seq::<Seq<char>>::empty());
    lemma_rows_of_update(histories, name, f);
    assert(history_views(rows@).len() == 1);
    assert(history_views(rows@)[0] == history_view(rows@[0]));
    let h = r->Ok_0->Some_0;
    assert(request_views(h@).len() == 0);
}

/// Clearing twice is clearing once: the second clear leaves the table as
/// the first left it, and both are answered with 200.
pub proof fn lemma_clear_twice(
    histories: Seq<HistoryRowView>,
    name: Seq<char>,
    first: bool,
    second: bool,
    r1: Result<u16, FetchHistoryError>,
    r2: Result<u16, FetchHistoryError>,
)
    requires
        clear_response_holds(Ok(first), r1),
        clear_response_holds(Ok(second), r2),
    ensures
        after_clear(after_clear(histories, name), name) == after_clear(histories, name),
        r1 == r2,
        r1 == Ok::<u16, FetchHistoryError>(200),
{
    assert(after_clear(after_clear(histories, name), name) =~= after_clear(histories, name));
}

} // verus!
