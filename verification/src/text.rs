//! Character-level searching shared by the template and comparison code.
//!
//! Strings are modelled by their sequence of characters. Positions are
//! character positions, counted from zero.

use vstd::prelude::*;

verus! {

/// Whether `pat` occurs in `s` starting exactly at position `at`.
pub open spec fn occurs_at(s: Seq<char>, pat: Seq<char>, at: int) -> bool {
    &&& 0 <= at
    &&& at + pat.len() <= s.len()
    &&& s.subrange(at, at + pat.len()) == pat
}

/// The position of the leftmost occurrence of `pat` in `s` that starts at
/// `from` or later, if there is one.
pub open spec fn first_match(s: Seq<char>, pat: Seq<char>, from: int) -> Option<int>
    decreases s.len() - from,
{
    if from < 0 || from + pat.len() > s.len() {
        None
    } else if occurs_at(s, pat, from) {
        Some(from)
    } else {
        proof {
            // An empty pattern occurs wherever it fits, so the search only
            // moves on while there is room left.
            assert(pat.len() == 0 ==> s.subrange(from, from + pat.len()) =~= pat);
        }
        first_match(s, pat, from + 1)
    }
}

/// Whether `pat` occurs anywhere in `s`.
pub open spec fn contains(s: Seq<char>, pat: Seq<char>) -> bool {
    first_match(s, pat, 0) is Some
}

/// A reported match is an occurrence at or after the starting position, and
/// no occurrence starts between the two.
pub proof fn lemma_first_match_some(s: Seq<char>, pat: Seq<char>, from: int)
    requires
        first_match(s, pat, from) is Some,
    ensures
        from <= first_match(s, pat, from)->0,
        occurs_at(s, pat, first_match(s, pat, from)->0),
        forall|k: int| from <= k < first_match(s, pat, from)->0 ==> !occurs_at(s, pat, k),
    decreases s.len() - from,
{
    if !occurs_at(s, pat, from) {
        assert(pat.len() == 0 ==> s.subrange(from, from + pat.len()) =~= pat);
        lemma_first_match_some(s, pat, from + 1);
    }
}

/// When no match is reported, `pat` occurs nowhere at or after the starting
/// position.
pub proof fn lemma_first_match_none(s: Seq<char>, pat: Seq<char>, from: int)
    requires
        0 <= from,
        first_match(s, pat, from) is None,
    ensures
        forall|k: int| from <= k ==> !occurs_at(s, pat, k),
    decreases s.len() - from,
{
    if from + pat.len() <= s.len() {
        assert(pat.len() == 0 ==> s.subrange(from, from + pat.len()) =~= pat);
        lemma_first_match_none(s, pat, from + 1);
    }
}

/// An occurrence with nothing before it is the reported match.
pub proof fn lemma_first_match_at(s: Seq<char>, pat: Seq<char>, from: int, at: int)
    requires
        0 <= from <= at,
        occurs_at(s, pat, at),
        forall|k: int| from <= k < at ==> !occurs_at(s, pat, k),
    ensures
        first_match(s, pat, from) == Some(at),
    decreases at - from,
{
    if from < at {
        lemma_first_match_at(s, pat, from + 1, at);
    }
}

/// The characters of `s`, in order.
pub fn to_chars(s: &str) -> (out: Vec<char>)
    ensures
        out@ == s@,
{
    let mut out: Vec<char> = Vec::new();
    for c in it: s.chars()
        invariant
            it.seq() == s@,
            out@ == s@.subrange(0, it.index() as int),
    {
        out.push(c);
    }
    out
}

/// Whether `pat` occurs in `hay` at position `at`.
pub fn matches_at(hay: &Vec<char>, pat: &Vec<char>, at: usize) -> (found: bool)
    requires
        at + pat.len() <= hay.len(),
    ensures
        found == occurs_at(hay@, pat@, at as int),
{
    let mut j: usize = 0;
    while j < pat.len()
        invariant
            at + pat.len() <= hay.len(),
            j <= pat.len(),
            hay@.subrange(at as int, at + j) == pat@.subrange(0, j as int),
        decreases pat.len() - j,
    {
        if hay[at + j] != pat[j] {
            proof {
                let window = hay@.subrange(at as int, at + pat.len());
                assert(window[j as int] != pat@[j as int]);
            }
            return false;
        }
        proof {
            assert(hay@.subrange(at as int, at + j + 1) == hay@.subrange(at as int, at + j).push(
                hay@[at + j],
            ));
            assert(pat@.subrange(0, j + 1) == pat@.subrange(0, j as int).push(pat@[j as int]));
        }
        j += 1;
    }
    proof {
        assert(pat@.subrange(0, pat.len() as int) == pat@);
    }
    true
}

/// Searches `hay` for the leftmost occurrence of `pat` that starts at
/// `from` or later.
pub fn find_from(hay: &Vec<char>, pat: &Vec<char>, from: usize) -> (found: Option<usize>)
    ensures
        match found {
            Some(at) => first_match(hay@, pat@, from as int) == Some(at as int),
            None => first_match(hay@, pat@, from as int) is None,
        },
{
    if pat.len() > hay.len() {
        return None;
    }
    let last: usize = hay.len() - pat.len();
    let mut i: usize = from;
    while i <= last
        invariant
            last == hay.len() - pat.len(),
            from <= i,
            first_match(hay@, pat@, from as int) == first_match(hay@, pat@, i as int),
        decreases last + 1 - i,
    {
        if matches_at(hay, pat, i) {
            return Some(i);
        }
        if i == last {
            return None;
        }
        i += 1;
    }
    None
}

/// Whether the stretch of `a` between `a_lo` and `a_hi` holds the same
/// characters as the stretch of `b` between `b_lo` and `b_hi`.
pub fn same_stretch(
    a: &Vec<char>,
    a_lo: usize,
    a_hi: usize,
    b: &Vec<char>,
    b_lo: usize,
    b_hi: usize,
) -> (same: bool)
    requires
        a_lo <= a_hi <= a.len(),
        b_lo <= b_hi <= b.len(),
    ensures
        same == (a@.subrange(a_lo as int, a_hi as int) == b@.subrange(b_lo as int, b_hi as int)),
{
    let len: usize = a_hi - a_lo;
    if b_hi - b_lo != len {
        assert(a@.subrange(a_lo as int, a_hi as int).len() != b@.subrange(
            b_lo as int,
            b_hi as int,
        ).len());
        return false;
    }
    let mut i: usize = 0;
    while i < len
        invariant
            a_lo + len == a_hi,
            b_lo + len == b_hi,
            a_hi <= a.len(),
            b_hi <= b.len(),
            i <= len,
            a@.subrange(a_lo as int, a_lo + i) == b@.subrange(b_lo as int, b_lo + i),
        decreases len - i,
    {
        if a[a_lo + i] != b[b_lo + i] {
            assert(a@.subrange(a_lo as int, a_hi as int)[i as int] != b@.subrange(
                b_lo as int,
                b_hi as int,
            )[i as int]);
            return false;
        }
        assert(a@.subrange(a_lo as int, a_lo + i + 1) == a@.subrange(a_lo as int, a_lo + i).push(
            a@[a_lo + i],
        ));
        assert(b@.subrange(b_lo as int, b_lo + i + 1) == b@.subrange(b_lo as int, b_lo + i).push(
            b@[b_lo + i],
        ));
        i += 1;
    }
    true
}

/// Whether `a` and `b` hold the same text.
pub fn same_text(a: &str, b: &str) -> (same: bool)
    ensures
        same == (a@ == b@),
{
    let x = to_chars(a);
    let y = to_chars(b);
    assert(x@.subrange(0, x.len() as int) == x@);
    assert(y@.subrange(0, y.len() as int) == y@);
    same_stretch(&x, 0, x.len(), &y, 0, y.len())
}

} // verus!
