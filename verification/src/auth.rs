//! Who may use the web server's API: a bearer token in the `Authorization` header.
use vstd::prelude::*;

use crate::text::str_chars;

verus! {

/// The credentials the API expects.
#[derive(Debug, Clone)]
pub struct ApiCredentials(pub String);

/// The position of the first `c` in `s` at or after `from`.
pub open spec fn char_index_from(s: Seq<char>, c: char, from: int) -> Option<int>
    decreases s.len() - from,
{
    if from < 0 || from >= s.len() {
        None
    } else if s[from] == c {
        Some(from)
    } else {
        char_index_from(s, c, from + 1)
    }
}

/// The header value `v` authorizes with `credentials`: split at its first space, the part
/// before is `Bearer` and the part after is the credentials.
pub open spec fn spec_authorized(v: Seq<char>, credentials: Seq<char>) -> bool {
    match char_index_from(v, ' ', 0) {
        None => false,
        Some(i) => v.take(i) == "Bearer"@ && v.skip(i + 1) == credentials,
    }
}

proof fn lemma_char_index_from(s: Seq<char>, c: char, from: int)
    requires
        0 <= from,
    ensures
        char_index_from(s, c, from) matches Some(i) ==> from <= i < s.len(),
    decreases s.len() - from,
{
    if from < s.len() && s[from] != c {
        lemma_char_index_from(s, c, from + 1);
    }
}

fn first_space(v: &Vec<char>) -> (res: Option<usize>)
    ensures
        match char_index_from(v@, ' ', 0) {
            None => res is None,
            Some(i) => res matches Some(r) && r == i && r < v@.len(),
        },
{
    proof { lemma_char_index_from(v@, ' ', 0); }
    let mut i: usize = 0;
    while i < v.len()
        invariant
            i <= v@.len(),
            char_index_from(v@, ' ', 0) == char_index_from(v@, ' ', i as int),
        decreases v@.len() - i,
    {
        if v[i] == ' ' {
            return Some(i);
        }
        i = i + 1;
    }
    None
}

fn chars_equal_at(v: &Vec<char>, start: usize, end: usize, w: &Vec<char>) -> (res: bool)
    requires
        start <= end <= v@.len(),
    ensures
        res == (v@.subrange(start as int, end as int) == w@),
{
    if end - start != w.len() {
        return false;
    }
    let mut k: usize = 0;
    while k < w.len()
        invariant
            end - start == w@.len(),
            start <= end <= v@.len(),
            k <= w@.len(),
            forall|j: int| 0 <= j < k ==> v@[start + j] == w@[j],
        decreases w@.len() - k,
    {
        if v[start + k] != w[k] {
            assert(v@.subrange(start as int, end as int)[k as int] != w@[k as int]);
            return false;
        }
        k = k + 1;
    }
    assert(v@.subrange(start as int, end as int) =~= w@);
    true
}

/// Whether the header value authorizes with `credentials`. A value without a space is not
/// handled.
pub fn authenticate(authorization: Option<&str>, credentials: &str) -> (res: bool)
    requires
        authorization matches Some(v) ==> char_index_from(v@, ' ', 0) is Some,
    ensures
        res == (match authorization {
            None => false,
            Some(v) => spec_authorized(v@, credentials@),
        }),
{
    let value = match authorization {
        None => return false,
        Some(v) => v,
    };
    let v = str_chars(value);
    let bearer = str_chars("Bearer");
    let creds = str_chars(credentials);
    let i = match first_space(&v) {
        Some(i) => i,
        None => return false,
    };
    let kind_ok = chars_equal_at(&v, 0, i, &bearer);
    let creds_ok = chars_equal_at(&v, i + 1, v.len(), &creds);
    assert(v@.take(i as int) == v@.subrange(0, i as int));
    assert(v@.skip(i + 1) == v@.subrange(i + 1, v@.len() as int));
    kind_ok && creds_ok
}

/// The stream's web socket cannot carry the header and is let through; it authenticates
/// itself.
pub fn needs_authentication(path: &str) -> (res: bool)
    ensures
        res == (path@ != "/api/stream"@),
{
    let p = str_chars(path);
    let s = str_chars("/api/stream");
    assert(p@.subrange(0, p@.len() as int) =~= p@);
    !chars_equal_at(&p, 0, p.len(), &s)
}

} // verus!
