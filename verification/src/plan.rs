//! What a run does, in order, and what it records.
//!
//! A run first executes the suite's build commands, then takes the cases in
//! their order: for each, the build commands of the case's own build
//! configuration, then the case's command. Commands and arguments are
//! resolved for the build mode that applies to them before they are used.

use vstd::prelude::*;
use std::time::Duration;
use crate::compare::{
    all_white_space, compare, lemma_white_space_tail_ignored, same_output,
};
use crate::config::{
    clone_optional_string, BuildConfig, BuildConfigView, TestConfig, TestConfigView,
};
use crate::diff::{diff_lines, line_changes};
use crate::outcome::{DiffLine, DiffLineView, TestResult, TestResultView};
use crate::template::{process_template, substitute};

verus! {

/// Each of `templates`, resolved for the given build mode.
pub open spec fn rendered(templates: Seq<Seq<char>>, is_release: bool) -> Seq<Seq<char>> {
    Seq::new(templates.len(), |i: int| substitute(templates[i], is_release))
}

/// The build commands of `build`, resolved for its own build mode.
pub open spec fn build_commands(build: Option<BuildConfigView>) -> Option<Seq<Seq<char>>> {
    match build {
        Some(build) => match build.pre_build_commands {
            Some(commands) => Some(rendered(commands, build.release)),
            None => None,
        },
        None => None,
    }
}

/// Resolves each of `templates` for the given build mode.
pub fn render_all(templates: &Vec<String>, is_release: bool) -> (out: Vec<String>)
    ensures
        out.deep_view() == rendered(templates.deep_view(), is_release),
{
    let mut out: Vec<String> = Vec::new();
    let mut i: usize = 0;
    while i < templates.len()
        invariant
            i <= templates.len(),
            out.len() == i,
            out.deep_view() == rendered(templates.deep_view(), is_release).subrange(0, i as int),
        decreases templates.len() - i,
    {
        out.push(process_template(templates[i].as_str(), is_release));
        assert(out.deep_view() =~= rendered(templates.deep_view(), is_release).subrange(
            0,
            i + 1,
        ));
        i += 1;
    }
    assert(rendered(templates.deep_view(), is_release).subrange(0, i as int) =~= rendered(
        templates.deep_view(),
        is_release,
    ));
    out
}

/// The build commands of `build`, resolved for its own build mode.
pub fn resolved_build_commands(build: &Option<BuildConfig>) -> (out: Option<Vec<String>>)
    ensures
        out.deep_view() == build_commands(build.deep_view()),
{
    match build {
        Some(build) => match &build.pre_build_commands {
            Some(commands) => Some(render_all(commands, build.release)),
            None => None,
        },
        None => None,
    }
}

/// One thing that a run does.
#[derive(Debug)]
pub enum Step {
    /// Run a build command through the shell. `case` is the index of the
    /// case whose own build configuration the command comes from; the
    /// suite's commands have none.
    Build { command: String, case: Option<usize> },
    /// Run the command of the case at `index`.
    Test { index: usize },
}

/// The mathematical content of a [`Step`].
pub enum StepView {
    Build { command: Seq<char>, case: Option<int> },
    Test { index: int },
}

/// The index of a case as a mathematical integer, where there is one.
pub open spec fn case_view(case: Option<usize>) -> Option<int> {
    match case {
        Some(index) => Some(index as int),
        None => None,
    }
}

impl View for Step {
    type V = StepView;

    open spec fn view(&self) -> StepView {
        match self {
            Step::Build { command, case } => StepView::Build {
                command: command@,
                case: case_view(*case),
            },
            Step::Test { index } => StepView::Test { index: *index as int },
        }
    }
}

impl DeepView for Step {
    type V = StepView;

    open spec fn deep_view(&self) -> StepView {
        self@
    }
}

/// The build steps that `build` asks for, on behalf of `case`.
pub open spec fn build_steps(build: Option<BuildConfigView>, case: Option<int>) -> Seq<StepView> {
    match build_commands(build) {
        Some(commands) => Seq::new(
            commands.len(),
            |i: int| StepView::Build { command: commands[i], case },
        ),
        None => Seq::empty(),
    }
}

/// The steps of the case at `index`: its own build steps, then its command.
pub open spec fn case_steps(config: TestConfigView, index: int) -> Seq<StepView> {
    build_steps(config.tests[index].build, Some(index)).push(StepView::Test { index })
}

/// The steps of a run up to and including the first `count` cases.
pub open spec fn steps_through(config: TestConfigView, count: nat) -> Seq<StepView>
    decreases count,
{
    if count == 0 {
        build_steps(config.build, None)
    } else {
        steps_through(config, (count - 1) as nat) + case_steps(config, count - 1)
    }
}

/// The steps of a whole run, in the order in which they are taken.
pub open spec fn plan(config: TestConfigView) -> Seq<StepView> {
    steps_through(config, config.tests.len())
}

/// How many of `steps` run the command of a case.
pub open spec fn cases_in(steps: Seq<StepView>) -> nat
    decreases steps.len(),
{
    if steps.len() == 0 {
        0
    } else {
        cases_in(steps.drop_last()) + if steps.last() is Test {
            1nat
        } else {
            0nat
        }
    }
}

/// The cases run in two stretches of steps add up.
pub proof fn lemma_cases_in_concat(a: Seq<StepView>, b: Seq<StepView>)
    ensures
        cases_in(a + b) == cases_in(a) + cases_in(b),
    decreases b.len(),
{
    if b.len() == 0 {
        assert(a + b == a);
    } else {
        assert((a + b).drop_last() == a + b.drop_last());
        lemma_cases_in_concat(a, b.drop_last());
    }
}

proof fn lemma_no_cases_in_builds(steps: Seq<StepView>)
    requires
        forall|i: int| 0 <= i < steps.len() ==> steps[i] is Build,
    ensures
        cases_in(steps) == 0,
    decreases steps.len(),
{
    if steps.len() > 0 {
        lemma_no_cases_in_builds(steps.drop_last());
    }
}

/// The steps through the first `count` cases run the commands of exactly
/// those cases.
pub proof fn lemma_cases_through(config: TestConfigView, count: nat)
    ensures
        cases_in(steps_through(config, count)) == count,
    decreases count,
{
    if count == 0 {
        lemma_no_cases_in_builds(build_steps(config.build, None));
    } else {
        let before = steps_through(config, (count - 1) as nat);
        let builds = build_steps(config.tests[count - 1].build, Some(count - 1));
        lemma_cases_through(config, (count - 1) as nat);
        lemma_no_cases_in_builds(builds);
        lemma_cases_in_concat(before, case_steps(config, count - 1));
        assert(case_steps(config, count - 1).drop_last() == builds);
    }
}

/// Where a step stands in a run. Before the step at `position`, the
/// commands of exactly `cases_in(..)` cases have run, and the step belongs
/// to the next case: it is that case's command or one of its own build
/// commands. Steps that belong to no case come before any case's command.
pub proof fn lemma_step_order(config: TestConfigView, count: nat, position: int)
    requires
        count <= config.tests.len(),
        0 <= position < steps_through(config, count).len(),
    ensures
        ({
            let steps = steps_through(config, count);
            let done = cases_in(steps.subrange(0, position)) as int;
            match steps[position] {
                StepView::Test { index } => index == done && index < count,
                StepView::Build { command, case: Some(index) } => {
                    &&& index == done
                    &&& index < count
                    &&& build_commands(config.tests[index].build) is Some
                    &&& build_commands(config.tests[index].build)->0.contains(command)
                },
                StepView::Build { command, case: None } => {
                    &&& done == 0
                    &&& build_commands(config.build) is Some
                    &&& build_commands(config.build)->0.contains(command)
                },
            }
        }),
    decreases count,
{
    let steps = steps_through(config, count);
    if count == 0 {
        lemma_no_cases_in_builds(steps.subrange(0, position));
        let commands = build_commands(config.build)->0;
        assert(commands[position] == steps[position]->Build_command);
    } else {
        let before = steps_through(config, (count - 1) as nat);
        let own = case_steps(config, count - 1);
        let builds = build_steps(config.tests[count - 1].build, Some(count - 1));
        if position < before.len() {
            lemma_step_order(config, (count - 1) as nat, position);
            assert(steps.subrange(0, position) == before.subrange(0, position));
        } else {
            let offset = position - before.len();
            lemma_cases_through(config, (count - 1) as nat);
            lemma_cases_in_concat(before, own.subrange(0, offset));
            lemma_no_cases_in_builds(own.subrange(0, offset));
            assert(steps.subrange(0, position) == before + own.subrange(0, offset));
            if offset < builds.len() {
                let commands = build_commands(config.tests[count - 1].build)->0;
                assert(commands[offset] == steps[position]->Build_command);
            }
        }
    }
}

/// What it takes to run the command of a case.
#[derive(Debug)]
pub struct Invocation {
    /// The executable's name or path. It is run directly, not through a
    /// shell.
    pub command: String,
    pub args: Vec<String>,
    /// Text to write to the command's standard input, which is then closed.
    pub input: Option<String>,
    /// Seconds to wait for the command to end.
    pub timeout_secs: u64,
}

/// The mathematical content of an [`Invocation`].
pub struct InvocationView {
    pub command: Seq<char>,
    pub args: Seq<Seq<char>>,
    pub input: Option<Seq<char>>,
    pub timeout_secs: u64,
}

impl View for Invocation {
    type V = InvocationView;

    open spec fn view(&self) -> InvocationView {
        InvocationView {
            command: self.command@,
            args: self.args.deep_view(),
            input: self.input.deep_view(),
            timeout_secs: self.timeout_secs,
        }
    }
}

/// The arguments of the case at `index`, resolved for its build mode.
pub open spec fn arguments_of(config: TestConfigView, index: int) -> Seq<Seq<char>> {
    match config.tests[index].args {
        Some(args) => rendered(args, config.release_for(index)),
        None => Seq::empty(),
    }
}

/// How the command of the case at `index` is run.
pub open spec fn invocation_of(config: TestConfigView, index: int) -> InvocationView {
    let case = config.tests[index];
    InvocationView {
        command: substitute(case.command, config.release_for(index)),
        args: arguments_of(config, index),
        input: case.input,
        timeout_secs: case.timeout(),
    }
}

fn arguments(config: &TestConfig, index: usize) -> (args: Vec<String>)
    requires
        index < config.tests.len(),
    ensures
        args.deep_view() == arguments_of(config@, index as int),
{
    match &config.tests[index].args {
        Some(args) => render_all(args, config.release_for(index)),
        None => {
            let args: Vec<String> = Vec::new();
            assert(args.deep_view() =~= Seq::<Seq<char>>::empty());
            args
        },
    }
}

/// Prepares the command of the case at `index` for running.
pub fn invocation(config: &TestConfig, index: usize) -> (prepared: Invocation)
    requires
        index < config.tests.len(),
    ensures
        prepared@ == invocation_of(config@, index as int),
{
    let case = &config.tests[index];
    Invocation {
        command: process_template(case.command.as_str(), config.release_for(index)),
        args: arguments(config, index),
        input: clone_optional_string(&case.input),
        timeout_secs: case.timeout(),
    }
}

/// The record of the case at `index`, given the output that its command
/// wrote, the time it took, and the line-by-line comparison of the expected
/// output with that output.
pub open spec fn result_of(
    config: TestConfigView,
    index: int,
    actual_output: Seq<char>,
    execution_time: Duration,
    changes: Seq<DiffLineView>,
) -> TestResultView {
    let case = config.tests[index];
    let success = same_output(actual_output, case.expected_output);
    TestResultView {
        name: case.name,
        success,
        actual_output,
        diff: if success {
            None
        } else {
            Some(changes)
        },
        command: substitute(case.command, config.release_for(index)),
        args: arguments_of(config, index),
        input: case.input,
        execution_time,
        is_release: config.release_for(index),
        build_commands: build_commands(case.build),
    }
}

/// The record of the case at `index`, given the output that its command
/// wrote and the time it took.
pub open spec fn record_of(
    config: TestConfigView,
    index: int,
    actual_output: Seq<char>,
    execution_time: Duration,
) -> TestResultView {
    result_of(
        config,
        index,
        actual_output,
        execution_time,
        line_changes(config.tests[index].expected_output, actual_output),
    )
}

/// A case whose command writes what is expected of it, with any whitespace
/// after it, succeeds, and its record holds no comparison.
pub proof fn lemma_expected_output_succeeds(
    config: TestConfigView,
    index: int,
    tail: Seq<char>,
    execution_time: Duration,
)
    requires
        all_white_space(tail),
    ensures
        record_of(config, index, config.tests[index].expected_output + tail, execution_time)
            .success,
        record_of(config, index, config.tests[index].expected_output + tail, execution_time).diff
            is None,
{
    lemma_white_space_tail_ignored(config.tests[index].expected_output, tail);
}

fn assemble(
    config: &TestConfig,
    index: usize,
    actual_output: String,
    execution_time: Duration,
    diff: Option<Vec<DiffLine>>,
) -> (result: TestResult)
    requires
        index < config.tests.len(),
    ensures
        result@ == (TestResultView {
            success: diff is None,
            diff: diff.deep_view(),
            ..result_of(config@, index as int, actual_output@, execution_time, Seq::empty())
        }),
{
    let case = &config.tests[index];
    let is_release = config.release_for(index);
    TestResult {
        name: case.name.clone(),
        success: diff.is_none(),
        actual_output,
        diff,
        command: process_template(case.command.as_str(), is_release),
        args: arguments(config, index),
        input: clone_optional_string(&case.input),
        execution_time,
        is_release,
        build_commands: resolved_build_commands(&case.build),
    }
}

impl TestResult {
    /// Records the run of the case at `index` from the output that its
    /// command wrote, the time it took and the line-by-line comparison of
    /// the expected output with that output. The comparison is kept only
    /// where the two outputs disagree.
    pub fn from_run(
        config: &TestConfig,
        index: usize,
        actual_output: String,
        execution_time: Duration,
        changes: Vec<DiffLine>,
    ) -> (result: TestResult)
        requires
            index < config.tests.len(),
        ensures
            result@ == result_of(
                config@,
                index as int,
                actual_output@,
                execution_time,
                changes.deep_view(),
            ),
            result@.consistent(),
    {
        let agree = compare(actual_output.as_str(), config.tests[index].expected_output.as_str());
        let diff = if agree {
            None
        } else {
            Some(changes)
        };
        assemble(config, index, actual_output, execution_time, diff)
    }
}

/// Records the run of the case at `index` from the output that its command
/// wrote and the time it took. Where the output disagrees with the expected
/// output, the two are compared line by line.
pub fn evaluate(
    config: &TestConfig,
    index: usize,
    actual_output: String,
    execution_time: Duration,
) -> (result: TestResult)
    requires
        index < config.tests.len(),
    ensures
        result@ == record_of(config@, index as int, actual_output@, execution_time),
        result@.consistent(),
{
    let expected = config.tests[index].expected_output.as_str();
    let diff = if compare(actual_output.as_str(), expected) {
        None
    } else {
        Some(diff_lines(expected, actual_output.as_str()))
    };
    assemble(config, index, actual_output, execution_time, diff)
}

} // verus!
