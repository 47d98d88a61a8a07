//! Unwrapping a payload that a response embeds between two literal markers,
//! as in a JSONP body `callback( {...} );`.
use vstd::prelude::*;

verus! {

/// Whether `pat` occurs in `s` at index `i`.
pub open spec fn occurs_at(s: Seq<char>, pat: Seq<char>, i: int) -> bool {
    0 <= i && i + pat.len() <= s.len() && s.subrange(i, i + pat.len()) == pat
}

/// The first index at or after `from` where `pat` occurs in `s`.
pub open spec fn find_from(s: Seq<char>, pat: Seq<char>, from: nat) -> Option<nat>
    decreases s.len() + 1 - from,
{
    if from + pat.len() > s.len() {
        None
    } else if occurs_at(s, pat, from as int) {
        Some(from)
    } else {
        find_from(s, pat, from + 1)
    }
}

proof fn lemma_find_from_occurs(s: Seq<char>, pat: Seq<char>, from: nat)
    ensures
        find_from(s, pat, from) matches Some(i) ==> from <= i && occurs_at(s, pat, i as int),
    decreases s.len() + 1 - from,
{
    if from + pat.len() <= s.len() && !occurs_at(s, pat, from as int) {
        lemma_find_from_occurs(s, pat, from + 1);
    }
}

/// The text strictly between the first `start` marker and the first `end`
/// marker after it; nothing when either marker is missing.
pub open spec fn between(s: Seq<char>, start: Seq<char>, end: Seq<char>) -> Option<Seq<char>> {
    match find_from(s, start, 0) {
        None => None,
        Some(i) => match find_from(s, end, i + start.len()) {
            None => None,
            Some(j) => Some(s.subrange((i + start.len()) as int, j as int)),
        },
    }
}

/// Whether `pat` occurs in `s` at index `i`.
fn matches_at(s: &str, s_len: usize, pat: &str, pat_len: usize, i: usize) -> (r: bool)
    requires
        s_len == s@.len(),
        pat_len == pat@.len(),
    ensures
        r == occurs_at(s@, pat@, i as int),
{
    if i > s_len || pat_len > s_len - i {
        return false;
    }
    let mut k: usize = 0;
    while k < pat_len
        invariant
            k <= pat_len,
            i + pat_len <= s_len,
            s_len == s@.len(),
            pat_len == pat@.len(),
            forall|m: int| 0 <= m < k ==> s@[i + m] == pat@[m],
        decreases pat_len - k,
    {
        if s.get_char(i + k) != pat.get_char(k) {
            assert(s@.subrange(i as int, i + pat_len)[k as int] != pat@[k as int]);
            return false;
        }
        k = k + 1;
    }
    assert(s@.subrange(i as int, i + pat_len) =~= pat@);
    true
}

/// The first index at or after `from` where `pat` occurs in `s`.
fn find(s: &str, s_len: usize, pat: &str, pat_len: usize, from: usize) -> (r: Option<usize>)
    requires
        s_len == s@.len(),
        pat_len == pat@.len(),
    ensures
        match r {
            Some(i) => find_from(s@, pat@, from as nat) == Some(i as nat),
            None => find_from(s@, pat@, from as nat) is None,
        },
{
    if from > s_len {
        return None;
    }
    let mut i = from;
    while i <= s_len
        invariant
            from <= i,
            s_len == s@.len(),
            pat_len == pat@.len(),
            find_from(s@, pat@, from as nat) == find_from(s@, pat@, i as nat),
        decreases s_len + 1 - i,
    {
        if pat_len > s_len - i {
            return None;
        }
        if matches_at(s, s_len, pat, pat_len, i) {
            return Some(i);
        }
        if i == s_len {
            assert(find_from(s@, pat@, (i + 1) as nat) is None);
            return None;
        }
        i = i + 1;
    }
    None
}

/// The text strictly between the first `start` marker of `s` and the first
/// `end` marker after it.
pub fn substr_between(s: &str, start: &str, end: &str) -> (r: Option<String>)
    ensures
        match r {
            Some(t) => between(s@, start@, end@) == Some(t@),
            None => between(s@, start@, end@) is None,
        },
{
    let s_len = s.unicode_len();
    let start_len = start.unicode_len();
    let end_len = end.unicode_len();
    match find(s, s_len, start, start_len, 0) {
        None => None,
        Some(i) => {
            proof {
                lemma_find_from_occurs(s@, start@, 0);
            }
            match find(s, s_len, end, end_len, i + start_len) {
                None => None,
                Some(j) => {
                    proof {
                        lemma_find_from_occurs(s@, end@, (i + start_len) as nat);
                    }
                    Some(s.substring_char(i + start_len, j).to_string())
                },
            }
        },
    }
}

} // verus!
