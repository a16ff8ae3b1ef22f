//! What a run records about each test case.

use vstd::prelude::*;
use std::time::Duration;
use crate::config::{clone_optional_string, clone_strings};

verus! {

/// On which side of a comparison a line stands.
#[derive(Debug, Clone, Copy, PartialEq, Eq, Structural)]
pub enum DiffTag {
    /// The line stands in the expected output only.
    Delete,
    /// The line stands in the actual output only.
    Insert,
    /// The line stands in both.
    Equal,
}

/// One line of a line-by-line comparison.
#[derive(Debug)]
pub struct DiffLine {
    pub tag: DiffTag,
    /// The line's text, with its line ending if it has one.
    pub content: String,
}

/// The mathematical content of a [`DiffLine`].
pub struct DiffLineView {
    pub tag: DiffTag,
    pub content: Seq<char>,
}

impl View for DiffLine {
    type V = DiffLineView;

    open spec fn view(&self) -> DiffLineView {
        DiffLineView { tag: self.tag, content: self.content@ }
    }
}

impl DeepView for DiffLine {
    type V = DiffLineView;

    open spec fn deep_view(&self) -> DiffLineView {
        self@
    }
}

impl Clone for DiffLine {
    fn clone(&self) -> (out: Self)
        ensures
            out@ == self@,
    {
        DiffLine { tag: self.tag, content: self.content.clone() }
    }
}

/// A copy of a list of compared lines.
pub fn clone_lines(lines: &Vec<DiffLine>) -> (out: Vec<DiffLine>)
    ensures
        out.deep_view() == lines.deep_view(),
{
    let mut out: Vec<DiffLine> = Vec::new();
    let mut i: usize = 0;
    while i < lines.len()
        invariant
            i <= lines.len(),
            out.len() == i,
            out.deep_view() == lines.deep_view().subrange(0, i as int),
        decreases lines.len() - i,
    {
        out.push(lines[i].clone());
        assert(out.deep_view() =~= lines.deep_view().subrange(0, i + 1));
        i += 1;
    }
    assert(lines.deep_view().subrange(0, i as int) =~= lines.deep_view());
    out
}

/// The record of one executed test case. It holds the values that the
/// command was run with, not the templates they were resolved from.
#[derive(Debug)]
pub struct TestResult {
    pub name: String,
    /// Whether the actual output agreed with the expected output.
    pub success: bool,
    pub actual_output: String,
    /// The line-by-line comparison of expected with actual output. It is
    /// there exactly when the two disagreed.
    pub diff: Option<Vec<DiffLine>>,
    pub command: String,
    pub args: Vec<String>,
    pub input: Option<String>,
    pub execution_time: Duration,
    pub is_release: bool,
    /// The build commands of the case's own build configuration.
    pub build_commands: Option<Vec<String>>,
}

/// The mathematical content of a [`TestResult`].
pub struct TestResultView {
    pub name: Seq<char>,
    pub success: bool,
    pub actual_output: Seq<char>,
    pub diff: Option<Seq<DiffLineView>>,
    pub command: Seq<char>,
    pub args: Seq<Seq<char>>,
    pub input: Option<Seq<char>>,
    pub execution_time: Duration,
    pub is_release: bool,
    pub build_commands: Option<Seq<Seq<char>>>,
}

impl TestResultView {
    /// Whether the comparison is there exactly when the outputs disagreed.
    pub open spec fn consistent(self) -> bool {
        (self.diff is None) == self.success
    }
}

impl View for TestResult {
    type V = TestResultView;

    open spec fn view(&self) -> TestResultView {
        TestResultView {
            name: self.name@,
            success: self.success,
            actual_output: self.actual_output@,
            diff: self.diff.deep_view(),
            command: self.command@,
            args: self.args.deep_view(),
            input: self.input.deep_view(),
            execution_time: self.execution_time,
            is_release: self.is_release,
            build_commands: self.build_commands.deep_view(),
        }
    }
}

impl DeepView for TestResult {
    type V = TestResultView;

    open spec fn deep_view(&self) -> TestResultView {
        self@
    }
}

impl Clone for TestResult {
    fn clone(&self) -> (out: Self)
        ensures
            out@ == self@,
    {
        let diff = match &self.diff {
            Some(lines) => Some(clone_lines(lines)),
            None => None,
        };
        let build_commands = match &self.build_commands {
            Some(commands) => Some(clone_strings(commands)),
            None => None,
        };
        TestResult {
            name: self.name.clone(),
            success: self.success,
            actual_output: self.actual_output.clone(),
            diff,
            command: self.command.clone(),
            args: clone_strings(&self.args),
            input: clone_optional_string(&self.input),
            execution_time: self.execution_time,
            is_release: self.is_release,
            build_commands,
        }
    }
}

/// A copy of a list of results.
pub fn clone_results(results: &Vec<TestResult>) -> (out: Vec<TestResult>)
    ensures
        out.deep_view() == results.deep_view(),
{
    let mut out: Vec<TestResult> = Vec::new();
    let mut i: usize = 0;
    while i < results.len()
        invariant
            i <= results.len(),
            out.len() == i,
            out.deep_view() == results.deep_view().subrange(0, i as int),
        decreases results.len() - i,
    {
        out.push(results[i].clone());
        assert(out.deep_view() =~= results.deep_view().subrange(0, i + 1));
        i += 1;
    }
    assert(results.deep_view().subrange(0, i as int) =~= results.deep_view());
    out
}

/// How many of `results` succeeded.
pub open spec fn passed(results: Seq<TestResultView>) -> nat
    decreases results.len(),
{
    if results.len() == 0 {
        0
    } else {
        passed(results.drop_last()) + if results.last().success {
            1nat
        } else {
            0nat
        }
    }
}

/// No more results succeed than there are.
pub proof fn lemma_passed_bounded(results: Seq<TestResultView>)
    ensures
        passed(results) <= results.len(),
    decreases results.len(),
{
    if results.len() > 0 {
        lemma_passed_bounded(results.drop_last());
    }
}

/// Every result succeeded exactly when as many succeeded as there are.
pub proof fn lemma_all_passed(results: Seq<TestResultView>)
    ensures
        (forall|i: int| 0 <= i < results.len() ==> results[i].success) <==> passed(results)
            == results.len(),
    decreases results.len(),
{
    if results.len() > 0 {
        let front = results.drop_last();
        lemma_all_passed(front);
        lemma_passed_bounded(front);
        if passed(results) == results.len() {
            assert forall|i: int| 0 <= i < results.len() implies results[i].success by {
                if i < front.len() {
                    assert(front[i].success);
                }
            }
        }
        if forall|i: int| 0 <= i < results.len() ==> results[i].success {
            assert forall|i: int| 0 <= i < front.len() implies front[i].success by {
                assert(results[i].success);
            }
        }
    }
}

/// Counts the results that succeeded.
pub fn count_passed(results: &Vec<TestResult>) -> (count: usize)
    ensures
        count == passed(results.deep_view()),
        count <= results.len(),
{
    let mut count: usize = 0;
    let mut i: usize = 0;
    while i < results.len()
        invariant
            i <= results.len(),
            count <= i,
            count == passed(results.deep_view().subrange(0, i as int)),
        decreases results.len() - i,
    {
        assert(results.deep_view().subrange(0, i + 1).drop_last() == results.deep_view().subrange(
            0,
            i as int,
        ));
        if results[i].success {
            count += 1;
        }
        i += 1;
    }
    assert(results.deep_view().subrange(0, i as int) == results.deep_view());
    count
}

/// Whether every result succeeded.
pub fn all_passed(results: &Vec<TestResult>) -> (all: bool)
    ensures
        all == forall|i: int| 0 <= i < results.len() ==> results[i].success,
{
    proof {
        lemma_all_passed(results.deep_view());
        assert(forall|i: int| 0 <= i < results.len() ==> results.deep_view()[i].success
            == results[i].success);
    }
    count_passed(results) == results.len()
}

} // verus!
