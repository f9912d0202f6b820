//! Reading the token out of an `Authorization` header: every occurrence of
//! `"Bearer "` is taken out of the header, left to right, as `str::replace`
//! with an empty replacement does.
use vstd::prelude::*;

verus! {

/// The scheme prefix of a bearer token, `"Bearer "`.
pub open spec fn bearer_prefix() -> Seq<char> {
    seq!['B', 'e', 'a', 'r', 'e', 'r', ' ']
}

/// `pat` occurs in `s` at position `i`.
pub open spec fn occurs_at(s: Seq<char>, pat: Seq<char>, i: int) -> bool {
    0 <= i && i + pat.len() <= s.len() && s.subrange(i, i + pat.len()) == pat
}

/// `s` from position `i` on, with each occurrence of `pat` removed: the
/// leftmost one first, then the leftmost one after it, and so on.
pub open spec fn remove_from(s: Seq<char>, pat: Seq<char>, i: int) -> Seq<char>
    decreases s.len() - i,
{
    if i < 0 || i >= s.len() {
        Seq::empty()
    } else if pat.len() > 0 && occurs_at(s, pat, i) {
        remove_from(s, pat, i + pat.len())
    } else {
        seq![s[i]] + remove_from(s, pat, i + 1)
    }
}

/// `s` with every occurrence of `pat` removed.
pub open spec fn remove_all(s: Seq<char>, pat: Seq<char>) -> Seq<char> {
    remove_from(s, pat, 0)
}

/// Where `pat` occurs nowhere in `s` from `i` on, removing it leaves the
/// rest of `s` as it is.
pub proof fn lemma_remove_from_without_occurrence(s: Seq<char>, pat: Seq<char>, i: int)
    requires
        0 <= i <= s.len(),
        forall|j: int| i <= j < s.len() ==> !occurs_at(s, pat, j),
    ensures
        remove_from(s, pat, i) == s.subrange(i, s.len() as int),
    decreases s.len() - i,
{
    if i < s.len() {
        lemma_remove_from_without_occurrence(s, pat, i + 1);
        assert(!occurs_at(s, pat, i));
        assert(seq![s[i]] + s.subrange(i + 1, s.len() as int) =~= s.subrange(i, s.len() as int));
    } else {
        assert(s.subrange(i, s.len() as int) =~= Seq::<char>::empty());
    }
}

/// A header without `"Bearer "` in it is its own token.
pub proof fn lemma_remove_all_without_occurrence(s: Seq<char>, pat: Seq<char>)
    requires
        forall|j: int| 0 <= j < s.len() ==> !occurs_at(s, pat, j),
    ensures
        remove_all(s, pat) == s,
{
    lemma_remove_from_without_occurrence(s, pat, 0);
    assert(s.subrange(0, s.len() as int) =~= s);
}

/// A token without a space, sent after the `"Bearer "` scheme, is read back
/// as it was sent.
pub proof fn lemma_bearer_round_trip(token: Seq<char>)
    requires
        forall|i: int| 0 <= i < token.len() ==> token[i] != ' ',
    ensures
        remove_all(bearer_prefix() + token, bearer_prefix()) == token,
{
    let p = bearer_prefix();
    let s = p + token;
    assert(s.subrange(0, 7) =~= p);
    assert(occurs_at(s, p, 0));
    assert forall|j: int| 7 <= j < s.len() implies !occurs_at(s, p, j) by {
        if occurs_at(s, p, j) {
            assert(s.subrange(j, j + 7)[6] == ' ');
            assert(s[j + 6] == token[j + 6 - 7]);
        }
    }
    lemma_remove_from_without_occurrence(s, p, 7);
    assert(s.subrange(7, s.len() as int) =~= token);
}

/// Whether `"Bearer "` occurs in `s` at character position `i`.
fn bearer_at(s: &str, len: usize, i: usize) -> (b: bool)
    requires
        len == s@.len(),
        i <= len,
    ensures
        b == occurs_at(s@, bearer_prefix(), i as int),
{
    if len - i < 7 {
        return false;
    }
    let b = s.get_char(i) == 'B' && s.get_char(i + 1) == 'e' && s.get_char(i + 2) == 'a'
        && s.get_char(i + 3) == 'r' && s.get_char(i + 4) == 'e' && s.get_char(i + 5) == 'r'
        && s.get_char(i + 6) == ' ';
    proof {
        let w = s@.subrange(i as int, i + 7);
        if b {
            assert(w =~= bearer_prefix());
        } else if w == bearer_prefix() {
            assert(w[0] == 'B' && w[1] == 'e' && w[2] == 'a' && w[3] == 'r' && w[4] == 'e'
                && w[5] == 'r' && w[6] == ' ');
        }
    }
    b
}

/// The token of an `Authorization` header: the header with every
/// `"Bearer "` in it removed.
pub fn strip_bearer(header: &str) -> (token: String)
    ensures
        token@ == remove_all(header@, bearer_prefix()),
{
    let n = header.unicode_len();
    let ghost s = header@;
    let ghost p = bearer_prefix();
    let mut out = String::new();
    let mut seg: usize = 0;
    let mut i: usize = 0;
    while i < n
        invariant
            n == s.len(),
            s == header@,
            p == bearer_prefix(),
            seg <= i <= n,
            remove_all(s, p) == out@ + s.subrange(seg as int, i as int) + remove_from(s, p, i as int),
        decreases n - i,
    {
        if bearer_at(header, n, i) {
            let piece = header.substring_char(seg, i);
            let ghost before = out@;
            out.append(piece);
            assert(remove_from(s, p, i as int) == remove_from(s, p, i + 7));
            i = i + 7;
            seg = i;
            assert(s.subrange(seg as int, i as int) =~= Seq::<char>::empty());
            assert(out@ + s.subrange(seg as int, i as int) =~= before + piece@);
        } else {
            let ghost old_i = i;
            assert(remove_from(s, p, i as int) == seq![s[i as int]] + remove_from(s, p, i + 1));
            i = i + 1;
            assert(s.subrange(seg as int, old_i as int) + seq![s[old_i as int]] =~= s.subrange(
                seg as int,
                i as int,
            ));
            assert(out@ + s.subrange(seg as int, old_i as int) + (seq![s[old_i as int]]
                + remove_from(s, p, i as int)) =~= out@ + s.subrange(seg as int, i as int)
                + remove_from(s, p, i as int));
        }
    }
    let rest = header.substring_char(seg, n);
    out.append(rest);
    assert(remove_from(s, p, n as int) =~= Seq::<char>::empty());
    assert(out@ =~= remove_all(s, p));
    out
}

/// The token of a request: `None` when it has no `Authorization` header.
pub fn bearer_token(authorization: Option<&str>) -> (r: Option<String>)
    ensures
        match authorization {
            Some(h) => r matches Some(t) && t@ == remove_all(h@, bearer_prefix()),
            None => r is None,
        },
{
    match authorization {
        Some(h) => Some(strip_bearer(h)),
        None => None,
    }
}

} // verus!
