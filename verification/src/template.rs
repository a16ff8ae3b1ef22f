//! Conditional markup in command and argument strings.
//!
//! Two forms are recognised. The single-branch form
//! `{{#if release}}text{{/if}}` keeps `text` in release mode and drops it
//! otherwise. The two-branch form
//! `{{#if build.release}}yes{{else}}no{{/if}}` keeps `yes` in release mode
//! and `no` otherwise. A string is resolved for one form only: the
//! single-branch form if its opening marker occurs anywhere, else the
//! two-branch form. A region that is never closed is left as it stands.

use vstd::prelude::*;
use vstd::string::*;
use crate::text::{contains, find_from, first_match, lemma_first_match_some, to_chars};

verus! {

/// The marker that opens a single-branch region.
pub open spec fn release_open() -> Seq<char> {
    "{{#if release}}"@
}

/// The marker that opens a two-branch region.
pub open spec fn build_open() -> Seq<char> {
    "{{#if build.release}}"@
}

/// The marker that parts the two branches of a two-branch region.
pub open spec fn branch_else() -> Seq<char> {
    "{{else}}"@
}

/// The marker that closes a region of either form.
pub open spec fn region_close() -> Seq<char> {
    "{{/if}}"@
}

/// The lengths of the four markers.
pub proof fn lemma_marker_lengths()
    ensures
        release_open().len() == 15,
        build_open().len() == 21,
        branch_else().len() == 8,
        region_close().len() == 7,
{
    reveal_strlit("{{#if release}}");
    reveal_strlit("{{#if build.release}}");
    reveal_strlit("{{else}}");
    reveal_strlit("{{/if}}");
}

/// `s` from position `from` on, with every closed single-branch region
/// replaced by its content (release mode) or by nothing.
pub open spec fn expand_release(s: Seq<char>, from: int, is_release: bool) -> Seq<char>
    decreases s.len() - from,
{
    match first_match(s, release_open(), from) {
        None => s.subrange(from, s.len() as int),
        Some(start) => {
            let body = start + release_open().len();
            match first_match(s, region_close(), body) {
                None => s.subrange(from, s.len() as int),
                Some(end) => {
                    proof {
                        lemma_marker_lengths();
                        lemma_first_match_some(s, release_open(), from);
                        lemma_first_match_some(s, region_close(), body);
                    }
                    let kept = if is_release {
                        s.subrange(body, end)
                    } else {
                        Seq::empty()
                    };
                    s.subrange(from, start) + kept + expand_release(
                        s,
                        end + region_close().len(),
                        is_release,
                    )
                },
            }
        },
    }
}

/// `s` from position `from` on, with every closed two-branch region
/// replaced by its first branch (release mode) or its second.
pub open spec fn expand_build(s: Seq<char>, from: int, is_release: bool) -> Seq<char>
    decreases s.len() - from,
{
    match first_match(s, build_open(), from) {
        None => s.subrange(from, s.len() as int),
        Some(start) => {
            let first = start + build_open().len();
            match first_match(s, branch_else(), first) {
                None => s.subrange(from, s.len() as int),
                Some(middle) => {
                    let second = middle + branch_else().len();
                    match first_match(s, region_close(), second) {
                        None => s.subrange(from, s.len() as int),
                        Some(end) => {
                            proof {
                                lemma_marker_lengths();
                                lemma_first_match_some(s, build_open(), from);
                                lemma_first_match_some(s, branch_else(), first);
                                lemma_first_match_some(s, region_close(), second);
                            }
                            let kept = if is_release {
                                s.subrange(first, middle)
                            } else {
                                s.subrange(second, end)
                            };
                            s.subrange(from, start) + kept + expand_build(
                                s,
                                end + region_close().len(),
                                is_release,
                            )
                        },
                    }
                },
            }
        },
    }
}

/// The text that a template resolves to.
pub open spec fn substitute(s: Seq<char>, is_release: bool) -> Seq<char> {
    if contains(s, release_open()) {
        expand_release(s, 0, is_release)
    } else if contains(s, build_open()) {
        expand_build(s, 0, is_release)
    } else {
        s
    }
}

/// Whether `t` is `pre`, one single-branch region around `body`, and
/// `post`, where the region's markers are the first of their kind and no
/// further single-branch region is opened in `post`.
pub open spec fn single_branch(
    t: Seq<char>,
    pre: Seq<char>,
    body: Seq<char>,
    post: Seq<char>,
) -> bool {
    let start = pre.len() as int;
    let inner = start + release_open().len();
    let end = inner + body.len();
    let after = end + region_close().len();
    &&& t == pre + release_open() + body + region_close() + post
    &&& first_match(t, release_open(), 0) == Some(start)
    &&& first_match(t, region_close(), inner) == Some(end)
    &&& first_match(t, release_open(), after) is None
}

/// A single-branch template resolves to its surrounding text with the
/// region's content in release mode, and to the surrounding text alone
/// otherwise.
pub proof fn lemma_single_branch_resolution(
    t: Seq<char>,
    pre: Seq<char>,
    body: Seq<char>,
    post: Seq<char>,
)
    requires
        single_branch(t, pre, body, post),
    ensures
        substitute(t, true) == pre + body + post,
        substitute(t, false) == pre + post,
{
    lemma_marker_lengths();
    let start = pre.len() as int;
    let inner = start + release_open().len();
    let end = inner + body.len();
    let after = end + region_close().len();
    assert(t.subrange(0, start) == pre);
    assert(t.subrange(inner, end) == body);
    assert(t.subrange(after, t.len() as int) == post);
    assert(expand_release(t, after, true) == post);
    assert(expand_release(t, after, false) == post);
    assert(pre + Seq::<char>::empty() + post == pre + post);
}

/// Whether `t` is `pre`, one two-branch region with the branches `yes` and
/// `no`, and `post`, where the region's markers are the first of their kind,
/// no further two-branch region is opened in `post`, and no single-branch
/// opening marker occurs at all.
pub open spec fn two_branch(
    t: Seq<char>,
    pre: Seq<char>,
    yes: Seq<char>,
    no: Seq<char>,
    post: Seq<char>,
) -> bool {
    let start = pre.len() as int;
    let first = start + build_open().len();
    let middle = first + yes.len();
    let second = middle + branch_else().len();
    let end = second + no.len();
    let after = end + region_close().len();
    &&& t == pre + build_open() + yes + branch_else() + no + region_close() + post
    &&& !contains(t, release_open())
    &&& first_match(t, build_open(), 0) == Some(start)
    &&& first_match(t, branch_else(), first) == Some(middle)
    &&& first_match(t, region_close(), second) == Some(end)
    &&& first_match(t, build_open(), after) is None
}

/// A two-branch template resolves to its surrounding text with exactly one
/// of the two branches: the first in release mode, the second otherwise.
pub proof fn lemma_two_branch_resolution(
    t: Seq<char>,
    pre: Seq<char>,
    yes: Seq<char>,
    no: Seq<char>,
    post: Seq<char>,
)
    requires
        two_branch(t, pre, yes, no, post),
    ensures
        substitute(t, true) == pre + yes + post,
        substitute(t, false) == pre + no + post,
{
    lemma_marker_lengths();
    let start = pre.len() as int;
    let first = start + build_open().len();
    let middle = first + yes.len();
    let second = middle + branch_else().len();
    let end = second + no.len();
    let after = end + region_close().len();
    assert(t.subrange(0, start) == pre);
    assert(t.subrange(first, middle) == yes);
    assert(t.subrange(second, end) == no);
    assert(t.subrange(after, t.len() as int) == post);
    assert(expand_build(t, after, true) == post);
    assert(expand_build(t, after, false) == post);
}

/// Whether resolving `s` would rewrite anything: the first opening marker of
/// the form that `s` is resolved for is followed by the markers that
/// complete its region.
pub open spec fn has_closed_region(s: Seq<char>) -> bool {
    match first_match(s, release_open(), 0) {
        Some(start) => first_match(s, region_close(), start + release_open().len()) is Some,
        None => match first_match(s, build_open(), 0) {
            Some(start) => match first_match(s, branch_else(), start + build_open().len()) {
                Some(middle) => first_match(s, region_close(), middle + branch_else().len())
                    is Some,
                None => false,
            },
            None => false,
        },
    }
}

/// Text without a closed region resolves to itself, in either mode.
pub proof fn lemma_settled_text_unchanged(s: Seq<char>, is_release: bool)
    requires
        !has_closed_region(s),
    ensures
        substitute(s, is_release) == s,
{
    assert(s.subrange(0, s.len() as int) == s);
}

/// Resolving a template twice gives what resolving it once gives, provided
/// that the first pass leaves no closed region behind, as it does when no
/// markup was nested in the template.
pub proof fn lemma_substitute_idempotent(t: Seq<char>, is_release: bool)
    requires
        !has_closed_region(substitute(t, is_release)),
    ensures
        substitute(substitute(t, is_release), is_release) == substitute(t, is_release),
{
    lemma_settled_text_unchanged(substitute(t, is_release), is_release);
}

proof fn lemma_expand_release_len(s: Seq<char>, from: int, is_release: bool)
    requires
        0 <= from <= s.len(),
    ensures
        expand_release(s, from, is_release).len() <= s.len() - from,
    decreases s.len() - from,
{
    lemma_marker_lengths();
    if let Some(start) = first_match(s, release_open(), from) {
        lemma_first_match_some(s, release_open(), from);
        let body = start + release_open().len();
        if let Some(end) = first_match(s, region_close(), body) {
            lemma_first_match_some(s, region_close(), body);
            lemma_expand_release_len(s, end + region_close().len(), is_release);
        }
    }
}

proof fn lemma_expand_build_len(s: Seq<char>, from: int, is_release: bool)
    requires
        0 <= from <= s.len(),
    ensures
        expand_build(s, from, is_release).len() <= s.len() - from,
    decreases s.len() - from,
{
    lemma_marker_lengths();
    if let Some(start) = first_match(s, build_open(), from) {
        lemma_first_match_some(s, build_open(), from);
        let first = start + build_open().len();
        if let Some(middle) = first_match(s, branch_else(), first) {
            lemma_first_match_some(s, branch_else(), first);
            let second = middle + branch_else().len();
            if let Some(end) = first_match(s, region_close(), second) {
                lemma_first_match_some(s, region_close(), second);
                lemma_expand_build_len(s, end + region_close().len(), is_release);
            }
        }
    }
}

/// Resolving never lengthens a text, and text with a closed region gets
/// strictly shorter: its markers are taken out. So a text resolves to
/// itself exactly when it has no closed region.
pub proof fn lemma_closed_region_shrinks(s: Seq<char>, is_release: bool)
    ensures
        substitute(s, is_release).len() <= s.len(),
        has_closed_region(s) ==> substitute(s, is_release).len() < s.len(),
{
    lemma_marker_lengths();
    lemma_expand_release_len(s, 0, is_release);
    lemma_expand_build_len(s, 0, is_release);
    if let Some(start) = first_match(s, release_open(), 0) {
        lemma_first_match_some(s, release_open(), 0);
        let body = start + release_open().len();
        if let Some(end) = first_match(s, region_close(), body) {
            lemma_first_match_some(s, region_close(), body);
            lemma_expand_release_len(s, end + region_close().len(), is_release);
        }
    } else if let Some(start) = first_match(s, build_open(), 0) {
        lemma_first_match_some(s, build_open(), 0);
        let first = start + build_open().len();
        if let Some(middle) = first_match(s, branch_else(), first) {
            lemma_first_match_some(s, branch_else(), first);
            let second = middle + branch_else().len();
            if let Some(end) = first_match(s, region_close(), second) {
                lemma_first_match_some(s, region_close(), second);
                lemma_expand_build_len(s, end + region_close().len(), is_release);
            }
        }
    }
}

fn resolve_release(template: &str, chars: &Vec<char>, is_release: bool) -> (out: String)
    requires
        chars@ == template@,
    ensures
        out@ == expand_release(template@, 0, is_release),
{
    let open = to_chars("{{#if release}}");
    let close = to_chars("{{/if}}");
    let mut out = String::new();
    let mut pos: usize = 0;
    loop
        invariant
            chars@ == template@,
            open@ == release_open(),
            close@ == region_close(),
            pos <= chars.len(),
            out@ + expand_release(chars@, pos as int, is_release) == expand_release(
                chars@,
                0,
                is_release,
            ),
        ensures
            pos <= chars.len(),
            out@ + chars@.subrange(pos as int, chars.len() as int) == expand_release(
                chars@,
                0,
                is_release,
            ),
        decreases chars.len() - pos,
    {
        let start = match find_from(chars, &open, pos) {
            Some(start) => start,
            None => break,
        };
        proof {
            lemma_marker_lengths();
            lemma_first_match_some(chars@, open@, pos as int);
        }
        let body: usize = start + open.len();
        let end = match find_from(chars, &close, body) {
            Some(end) => end,
            None => break,
        };
        proof {
            lemma_first_match_some(chars@, close@, body as int);
        }
        let ghost before = out@;
        out.append(template.substring_char(pos, start));
        if is_release {
            out.append(template.substring_char(body, end));
        }
        proof {
            let kept = if is_release {
                chars@.subrange(body as int, end as int)
            } else {
                Seq::empty()
            };
            let rest = expand_release(chars@, end + close.len(), is_release);
            assert(out@ == before + chars@.subrange(pos as int, start as int) + kept);
            assert(out@ + rest == before + (chars@.subrange(pos as int, start as int) + kept
                + rest));
        }
        pos = end + close.len();
    }
    out.append(template.substring_char(pos, chars.len()));
    out
}

fn resolve_build(template: &str, chars: &Vec<char>, is_release: bool) -> (out: String)
    requires
        chars@ == template@,
    ensures
        out@ == expand_build(template@, 0, is_release),
{
    let open = to_chars("{{#if build.release}}");
    let middle_mark = to_chars("{{else}}");
    let close = to_chars("{{/if}}");
    let mut out = String::new();
    let mut pos: usize = 0;
    loop
        invariant
            chars@ == template@,
            open@ == build_open(),
            middle_mark@ == branch_else(),
            close@ == region_close(),
            pos <= chars.len(),
            out@ + expand_build(chars@, pos as int, is_release) == expand_build(
                chars@,
                0,
                is_release,
            ),
        ensures
            pos <= chars.len(),
            out@ + chars@.subrange(pos as int, chars.len() as int) == expand_build(
                chars@,
                0,
                is_release,
            ),
        decreases chars.len() - pos,
    {
        let start = match find_from(chars, &open, pos) {
            Some(start) => start,
            None => break,
        };
        proof {
            lemma_marker_lengths();
            lemma_first_match_some(chars@, open@, pos as int);
        }
        let first: usize = start + open.len();
        let middle = match find_from(chars, &middle_mark, first) {
            Some(middle) => middle,
            None => break,
        };
        proof {
            lemma_first_match_some(chars@, middle_mark@, first as int);
        }
        let second: usize = middle + middle_mark.len();
        let end = match find_from(chars, &close, second) {
            Some(end) => end,
            None => break,
        };
        proof {
            lemma_first_match_some(chars@, close@, second as int);
        }
        let ghost before = out@;
        out.append(template.substring_char(pos, start));
        if is_release {
            out.append(template.substring_char(first, middle));
        } else {
            out.append(template.substring_char(second, end));
        }
        proof {
            let kept = if is_release {
                chars@.subrange(first as int, middle as int)
            } else {
                chars@.subrange(second as int, end as int)
            };
            let rest = expand_build(chars@, end + close.len(), is_release);
            assert(out@ == before + chars@.subrange(pos as int, start as int) + kept);
            assert(out@ + rest == before + (chars@.subrange(pos as int, start as int) + kept
                + rest));
        }
        pos = end + close.len();
    }
    out.append(template.substring_char(pos, chars.len()));
    out
}

/// Resolves the conditional markup of `template` for the given build mode.
pub fn process_template(template: &str, is_release: bool) -> (out: String)
    ensures
        out@ == substitute(template@, is_release),
{
    let chars = to_chars(template);
    let release = to_chars("{{#if release}}");
    let build = to_chars("{{#if build.release}}");
    if find_from(&chars, &release, 0).is_some() {
        resolve_release(template, &chars, is_release)
    } else if find_from(&chars, &build, 0).is_some() {
        resolve_build(template, &chars, is_release)
    } else {
        template.to_owned()
    }
}

} // verus!
