//! How results are put into words for display.

use vstd::prelude::*;
use vstd::string::*;
use crate::outcome::{DiffLine, DiffLineView, DiffTag, TestResult, TestResultView};

verus! {

/// `parts` strung together with `separator` between each two of them.
pub open spec fn joined(parts: Seq<Seq<char>>, separator: Seq<char>) -> Seq<char>
    decreases parts.len(),
{
    if parts.len() == 0 {
        Seq::empty()
    } else if parts.len() == 1 {
        parts[0]
    } else {
        joined(parts.drop_last(), separator) + separator + parts.last()
    }
}

/// Strings `parts` together with `separator` between each two of them.
pub fn join(parts: &[String], separator: &str) -> (out: String)
    ensures
        out@ == joined(parts.deep_view(), separator@),
{
    let mut out = String::new();
    let mut i: usize = 0;
    while i < parts.len()
        invariant
            i <= parts.len(),
            out@ == joined(parts.deep_view().subrange(0, i as int), separator@),
        decreases parts.len() - i,
    {
        let ghost upto = parts.deep_view().subrange(0, i + 1);
        assert(upto.drop_last() == parts.deep_view().subrange(0, i as int));
        assert(upto.last() == parts[i as int]@);
        if i > 0 {
            out.append(separator);
        } else {
            assert(Seq::<char>::empty() + parts[0]@ == parts[0]@);
        }
        out.append(parts[i].as_str());
        i += 1;
    }
    assert(parts.deep_view().subrange(0, i as int) == parts.deep_view());
    out
}

/// The command of a result with its arguments, as one would type it: the
/// command, a space, and the arguments with a space between each two.
pub open spec fn command_line_of(result: TestResultView) -> Seq<char> {
    result.command + " "@ + joined(result.args, " "@)
}

/// The command of a result with its arguments, as one would type it.
pub fn command_line(result: &TestResult) -> (line: String)
    ensures
        line@ == command_line_of(result@),
{
    let mut line = result.command.clone();
    line.append(" ");
    line.append(join(result.args.as_slice(), " ").as_str());
    line
}

/// The sign that marks a line of a comparison: `-` for a line of the
/// expected output only, `+` for a line of the actual output only, a space
/// for a line of both.
pub open spec fn marker_of(tag: DiffTag) -> char {
    match tag {
        DiffTag::Delete => '-',
        DiffTag::Insert => '+',
        DiffTag::Equal => ' ',
    }
}

/// The sign that marks a line of a comparison.
pub fn marker(tag: DiffTag) -> (sign: char)
    ensures
        sign == marker_of(tag),
{
    match tag {
        DiffTag::Delete => '-',
        DiffTag::Insert => '+',
        DiffTag::Equal => ' ',
    }
}

/// Whether a line with this tag belongs to the expected output.
pub fn in_expected(tag: DiffTag) -> (belongs: bool)
    ensures
        belongs == (tag != DiffTag::Insert),
{
    match tag {
        DiffTag::Insert => false,
        _ => true,
    }
}

/// Whether a line with this tag belongs to the actual output.
pub fn in_actual(tag: DiffTag) -> (belongs: bool)
    ensures
        belongs == (tag != DiffTag::Delete),
{
    match tag {
        DiffTag::Delete => false,
        _ => true,
    }
}

/// A line of a comparison as it is listed: its sign, a space and its text.
pub open spec fn listed_line(line: DiffLineView) -> Seq<char> {
    seq![marker_of(line.tag), ' '] + line.content
}

/// The lines of a comparison that stand on one side only, each as it is
/// listed, in their order.
pub open spec fn changes_listed(lines: Seq<DiffLineView>) -> Seq<Seq<char>>
    decreases lines.len(),
{
    if lines.len() == 0 {
        Seq::empty()
    } else if lines.last().tag == DiffTag::Equal {
        changes_listed(lines.drop_last())
    } else {
        changes_listed(lines.drop_last()).push(listed_line(lines.last()))
    }
}

/// Lists a line of a comparison: its sign, a space and its text.
pub fn list_line(line: &DiffLine) -> (text: String)
    ensures
        text@ == listed_line(line@),
{
    let mut text = match line.tag {
        DiffTag::Delete => "- ".to_owned(),
        DiffTag::Insert => "+ ".to_owned(),
        DiffTag::Equal => "  ".to_owned(),
    };
    proof {
        reveal_strlit("- ");
        reveal_strlit("+ ");
        reveal_strlit("  ");
        assert(text@ =~= seq![marker_of(line.tag), ' ']);
    }
    text.append(line.content.as_str());
    text
}

/// Lists the lines of a comparison that stand on one side only. Lines that
/// stand on both sides are left out.
pub fn list_changes(lines: &Vec<DiffLine>) -> (listed: Vec<String>)
    ensures
        listed.deep_view() == changes_listed(lines.deep_view()),
{
    let mut listed: Vec<String> = Vec::new();
    let mut i: usize = 0;
    assert(listed.deep_view() =~= Seq::<Seq<char>>::empty());
    assert(lines.deep_view().subrange(0, 0) =~= Seq::<DiffLineView>::empty());
    while i < lines.len()
        invariant
            i <= lines.len(),
            listed.deep_view() == changes_listed(lines.deep_view().subrange(0, i as int)),
        decreases lines.len() - i,
    {
        let ghost upto = lines.deep_view().subrange(0, i + 1);
        let ghost before = listed.deep_view();
        assert(upto.drop_last() == lines.deep_view().subrange(0, i as int));
        assert(upto.last() == lines[i as int]@);
        match lines[i].tag {
            DiffTag::Equal => {},
            _ => {
                let text = list_line(&lines[i]);
                listed.push(text);
                assert(listed.deep_view() =~= before.push(text@));
            },
        }
        i += 1;
    }
    assert(lines.deep_view().subrange(0, i as int) == lines.deep_view());
    listed
}

} // verus!
