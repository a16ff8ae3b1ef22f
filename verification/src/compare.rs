//! Comparison of actual with expected output.
//!
//! Two outputs agree when they are equal once the whitespace at both ends
//! of each is set aside. Whitespace inside the text counts.

use vstd::prelude::*;
use crate::text::{same_stretch, to_chars};

verus! {

/// Whether `c` is a whitespace character: whether it has the `White_Space`
/// property, as Unicode's `PropList.txt` lists it. These are the control
/// characters from the tab to the carriage return, the space, the next-line
/// control, the no-break space, the Ogham space mark, the spaces from the en
/// quad to the hair space, the line and the paragraph separator, the narrow
/// no-break space, the medium mathematical space and the ideographic space.
pub open spec fn white_space(c: char) -> bool {
    let n = c as u32;
    ||| 0x9 <= n <= 0xd
    ||| n == 0x20
    ||| n == 0x85
    ||| n == 0xa0
    ||| n == 0x1680
    ||| 0x2000 <= n <= 0x200a
    ||| n == 0x2028
    ||| n == 0x2029
    ||| n == 0x202f
    ||| n == 0x205f
    ||| n == 0x3000
}

/// `char::is_whitespace` of the standard library, which is documented to
/// tell whether a character has the `White_Space` property of Unicode's
/// `PropList.txt`. The contract says that its answer is `white_space`.
pub assume_specification[ char::is_whitespace ](c: char) -> (answer: bool)
    ensures
        answer == white_space(c),
;

/// `s` without the whitespace characters at its start.
pub open spec fn trim_start(s: Seq<char>) -> Seq<char>
    decreases s.len(),
{
    if s.len() > 0 && white_space(s[0]) {
        trim_start(s.drop_first())
    } else {
        s
    }
}

/// `s` without the whitespace characters at its end.
pub open spec fn trim_end(s: Seq<char>) -> Seq<char>
    decreases s.len(),
{
    if s.len() > 0 && white_space(s.last()) {
        trim_end(s.drop_last())
    } else {
        s
    }
}

/// `s` without the whitespace characters at either end.
pub open spec fn trimmed(s: Seq<char>) -> Seq<char> {
    trim_end(trim_start(s))
}

/// Whether two outputs agree.
pub open spec fn same_output(actual: Seq<char>, expected: Seq<char>) -> bool {
    trimmed(actual) == trimmed(expected)
}

/// Whether every character of `s` is whitespace.
pub open spec fn all_white_space(s: Seq<char>) -> bool {
    forall|i: int| 0 <= i < s.len() ==> white_space(#[trigger] s[i])
}

proof fn lemma_trim_start_push(s: Seq<char>, c: char)
    requires
        white_space(c),
    ensures
        all_white_space(s) ==> trim_start(s) == Seq::<char>::empty() && trim_start(s.push(c))
            == Seq::<char>::empty(),
        !all_white_space(s) ==> trim_start(s).len() > 0 && trim_start(s.push(c)) == trim_start(
            s,
        ).push(c),
    decreases s.len(),
{
    if s.len() == 0 {
        assert(s.push(c).drop_first() =~= s);
        assert(trim_start(s.push(c)) == trim_start(s));
        assert(s =~= Seq::<char>::empty());
    } else if white_space(s[0]) {
        lemma_trim_start_push(s.drop_first(), c);
        assert(s.push(c).drop_first() =~= s.drop_first().push(c));
        if all_white_space(s) {
            assert forall|i: int| 0 <= i < s.drop_first().len() implies white_space(
                #[trigger] s.drop_first()[i],
            ) by {
                assert(s.drop_first()[i] == s[i + 1]);
            }
        } else {
            if all_white_space(s.drop_first()) {
                assert forall|i: int| 0 <= i < s.len() implies white_space(#[trigger] s[i]) by {
                    if i > 0 {
                        assert(s[i] == s.drop_first()[i - 1]);
                    }
                }
            }
        }
    } else {
        assert(s.push(c)[0] == s[0]);
    }
}

/// Whitespace at the end of an output does not count: an output with one
/// more whitespace character at its end agrees with whatever the output
/// without it agrees with.
pub proof fn lemma_trailing_white_space_ignored(s: Seq<char>, c: char, other: Seq<char>)
    requires
        white_space(c),
    ensures
        trimmed(s.push(c)) == trimmed(s),
        same_output(s.push(c), other) == same_output(s, other),
        same_output(other, s.push(c)) == same_output(other, s),
{
    lemma_trim_start_push(s, c);
    if !all_white_space(s) {
        let kept = trim_start(s);
        assert(kept.push(c).drop_last() =~= kept);
    }
}

/// Whitespace at the start of an output does not count either.
pub proof fn lemma_leading_white_space_ignored(c: char, s: Seq<char>, other: Seq<char>)
    requires
        white_space(c),
    ensures
        trimmed(seq![c] + s) == trimmed(s),
        same_output(seq![c] + s, other) == same_output(s, other),
        same_output(other, seq![c] + s) == same_output(other, s),
{
    assert((seq![c] + s).drop_first() =~= s);
}

/// Text that neither starts nor ends with whitespace is its own trimmed
/// text. So two such outputs agree only if they are equal: what lies
/// between the ends counts, whitespace too.
pub proof fn lemma_trimmed_text_is_kept(s: Seq<char>)
    requires
        s.len() > 0 ==> !white_space(s[0]) && !white_space(s.last()),
    ensures
        trimmed(s) == s,
{
}

/// Whitespace at the end of an output does not count, however much there
/// is of it.
pub proof fn lemma_white_space_tail_ignored(s: Seq<char>, tail: Seq<char>)
    requires
        all_white_space(tail),
    ensures
        trimmed(s + tail) == trimmed(s),
        same_output(s + tail, s),
    decreases tail.len(),
{
    if tail.len() == 0 {
        assert(s + tail =~= s);
    } else {
        let front = tail.drop_last();
        assert(all_white_space(front)) by {
            assert forall|i: int| 0 <= i < front.len() implies white_space(
                #[trigger] front[i],
            ) by {
                assert(front[i] == tail[i]);
            }
        }
        lemma_white_space_tail_ignored(s, front);
        lemma_trailing_white_space_ignored(s + front, tail.last(), s);
        assert((s + front).push(tail.last()) =~= s + tail);
    }
}

/// Two outputs that neither start nor end with whitespace agree exactly
/// when they are equal.
pub proof fn lemma_bare_outputs_agree_when_equal(actual: Seq<char>, expected: Seq<char>)
    requires
        actual.len() > 0 ==> !white_space(actual[0]) && !white_space(actual.last()),
        expected.len() > 0 ==> !white_space(expected[0]) && !white_space(expected.last()),
    ensures
        same_output(actual, expected) == (actual == expected),
{
    lemma_trimmed_text_is_kept(actual);
    lemma_trimmed_text_is_kept(expected);
}

/// The positions between which the trimmed text of `chars` lies.
pub fn trim_bounds(chars: &Vec<char>) -> (bounds: (usize, usize))
    ensures
        bounds.0 <= bounds.1 <= chars.len(),
        chars@.subrange(bounds.0 as int, bounds.1 as int) == trimmed(chars@),
{
    let n: usize = chars.len();
    let mut lo: usize = 0;
    assert(chars@.subrange(0, n as int) == chars@);
    while lo < n && chars[lo].is_whitespace()
        invariant
            n == chars.len(),
            lo <= n,
            trim_start(chars@) == trim_start(chars@.subrange(lo as int, n as int)),
        decreases n - lo,
    {
        assert(chars@.subrange(lo as int, n as int).drop_first() == chars@.subrange(
            lo + 1,
            n as int,
        ));
        lo += 1;
    }
    let mut hi: usize = n;
    while hi > lo && chars[hi - 1].is_whitespace()
        invariant
            n == chars.len(),
            lo <= hi <= n,
            trimmed(chars@) == trim_end(chars@.subrange(lo as int, hi as int)),
        decreases hi - lo,
    {
        assert(chars@.subrange(lo as int, hi as int).drop_last() == chars@.subrange(
            lo as int,
            hi - 1,
        ));
        hi -= 1;
    }
    (lo, hi)
}

/// Whether `actual` agrees with `expected`: whether the two are equal once
/// the whitespace at both ends of each is set aside.
pub fn compare(actual: &str, expected: &str) -> (agree: bool)
    ensures
        agree == same_output(actual@, expected@),
{
    let a = to_chars(actual);
    let e = to_chars(expected);
    let (a_lo, a_hi) = trim_bounds(&a);
    let (e_lo, e_hi) = trim_bounds(&e);
    same_stretch(&a, a_lo, a_hi, &e, e_lo, e_hi)
}

} // verus!
