//! Line-by-line comparison of two texts.

use vstd::prelude::*;
use crate::outcome::{DiffLine, DiffLineView, DiffTag};

verus! {

/// The lines of `expected` and `actual`, each with its line ending, tagged
/// by the side it stands on and in the order in which the comparison gives
/// them out.
pub uninterp spec fn line_changes(expected: Seq<char>, actual: Seq<char>) -> Seq<DiffLineView>;

/// Compares two texts line by line with `similar::TextDiff::from_lines` and
/// lists what `iter_all_changes` yields: for each change its tag and its
/// text. The comparison runs without a deadline, so what it yields depends
/// on the two texts alone; the contract gives that list its name and says
/// nothing more of it.
#[verifier::external_body]
pub(crate) fn diff_lines(expected: &str, actual: &str) -> (lines: Vec<DiffLine>)
    ensures
        lines.deep_view() == line_changes(expected@, actual@),
{
    let diff = similar::TextDiff::from_lines(expected, actual);
    let mut lines = Vec::new();
    for change in diff.iter_all_changes() {
        let tag = match change.tag() {
            similar::ChangeTag::Delete => DiffTag::Delete,
            similar::ChangeTag::Insert => DiffTag::Insert,
            similar::ChangeTag::Equal => DiffTag::Equal,
        };
        lines.push(DiffLine { tag, content: change.value().to_string() });
    }
    lines
}

} // verus!
