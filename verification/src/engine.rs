//! The decisions of a run.
//!
//! A [`Run`] walks the plan of a suite step by step. It says what is to be
//! done next; whoever drives it does that, with the processes and the
//! waiting that it takes, and reports how it went. The run then moves on, or
//! stops at the first failure: a build command that fails, a process that
//! cannot be started, fed or waited for, or a command that does not end in
//! time. Output that disagrees with what was expected is no failure of the
//! run; it is recorded in the case's result.

use vstd::prelude::*;
use std::time::Duration;
use crate::config::{BuildConfig, TestConfig, TestConfigView};
use crate::error::{HarnessError, HarnessErrorView};
use crate::outcome::{TestResult, TestResultView};
use crate::plan::{
    build_steps, case_steps, case_view, cases_in, evaluate, invocation, invocation_of,
    lemma_cases_in_concat, lemma_cases_through, lemma_step_order, plan, record_of, render_all,
    steps_through, Invocation, InvocationView, Step, StepView,
};

verus! {

fn push_build_steps(steps: &mut Vec<Step>, build: &Option<BuildConfig>, case: Option<usize>)
    ensures
        final(steps).deep_view() == old(steps).deep_view() + build_steps(
            build.deep_view(),
            case_view(case),
        ),
{
    let ghost before = steps.deep_view();
    let ghost wanted = build_steps(build.deep_view(), case_view(case));
    match build {
        Some(build) => match &build.pre_build_commands {
            Some(templates) => {
                let commands = render_all(templates, build.release);
                let mut i: usize = 0;
                while i < commands.len()
                    invariant
                        i <= commands.len(),
                        wanted.len() == commands.len(),
                        forall|k: int|
                            0 <= k < wanted.len() ==> wanted[k] == (StepView::Build {
                                command: #[trigger] commands.deep_view()[k],
                                case: case_view(case),
                            }),
                        steps.deep_view() == before + wanted.subrange(0, i as int),
                    decreases commands.len() - i,
                {
                    let ghost so_far = steps.deep_view();
                    steps.push(Step::Build { command: commands[i].clone(), case });
                    proof {
                        assert(commands.deep_view()[i as int] == commands@[i as int]@);
                        assert(steps.deep_view() =~= so_far.push(wanted[i as int]));
                        assert(so_far.push(wanted[i as int]) =~= before + wanted.subrange(
                            0,
                            i + 1,
                        ));
                    }
                    i += 1;
                }
                assert(wanted.subrange(0, i as int) =~= wanted);
            },
            None => {
                assert(before + wanted =~= before);
            },
        },
        None => {
            assert(before + wanted =~= before);
        },
    }
}

/// Lays out the steps of a whole run, in the order in which they are taken.
pub fn plan_steps(config: &TestConfig) -> (steps: Vec<Step>)
    ensures
        steps.deep_view() == plan(config@),
{
    let mut steps: Vec<Step> = Vec::new();
    assert(steps.deep_view() =~= Seq::<StepView>::empty());
    push_build_steps(&mut steps, &config.build, None);
    assert(steps.deep_view() =~= steps_through(config@, 0));
    let mut i: usize = 0;
    while i < config.tests.len()
        invariant
            i <= config.tests.len(),
            steps.deep_view() == steps_through(config@, i as nat),
        decreases config.tests.len() - i,
    {
        let ghost before = steps.deep_view();
        push_build_steps(&mut steps, &config.tests[i].build, Some(i));
        let ghost built = steps.deep_view();
        steps.push(Step::Test { index: i });
        proof {
            assert(config@.tests[i as int].build == config.tests[i as int].build.deep_view());
            assert(steps.deep_view() =~= built.push(StepView::Test { index: i as int }));
            assert(steps.deep_view() =~= before + case_steps(config@, i as int));
        }
        i += 1;
    }
    steps
}

/// What a run asks its driver to do next.
#[derive(Debug)]
pub enum Action {
    /// Run `command` through the shell and report with
    /// [`Run::build_finished`].
    Shell { command: String },
    /// Run the prepared command and report with [`Run::test_finished`].
    Launch(Invocation),
    /// Every step is done. The results are ready.
    Finish,
    /// The run met a failure. Nothing more is to be done, and it has no
    /// results.
    Halt,
}

/// The mathematical content of an [`Action`].
pub enum ActionView {
    Shell { command: Seq<char> },
    Launch(InvocationView),
    Finish,
    Halt,
}

impl View for Action {
    type V = ActionView;

    open spec fn view(&self) -> ActionView {
        match self {
            Action::Shell { command } => ActionView::Shell { command: command@ },
            Action::Launch(prepared) => ActionView::Launch(prepared@),
            Action::Finish => ActionView::Finish,
            Action::Halt => ActionView::Halt,
        }
    }
}

/// How a build command went.
#[derive(Debug, Clone, Copy, PartialEq, Eq, Structural)]
pub enum BuildOutcome {
    /// The command ran and reported success.
    Succeeded,
    /// The command ran and reported failure.
    Failed,
    /// The shell could not be started.
    NotStarted,
}

/// How the command of a case went.
#[derive(Debug)]
pub enum TestOutcome {
    /// The command ended within its timeout. `stdout` is what it wrote to
    /// its standard output, `elapsed` the time from its start to its end.
    Completed { stdout: String, elapsed: Duration },
    /// The command could not be started.
    NotStarted,
    /// The input could not be written to the command.
    InputRejected,
    /// Waiting for the command failed.
    WaitFailed,
    /// The command did not end within its timeout and was terminated.
    TimedOut,
}

/// The mathematical content of a [`TestOutcome`].
pub enum TestOutcomeView {
    Completed { stdout: Seq<char>, elapsed: Duration },
    NotStarted,
    InputRejected,
    WaitFailed,
    TimedOut,
}

impl View for TestOutcome {
    type V = TestOutcomeView;

    open spec fn view(&self) -> TestOutcomeView {
        match self {
            TestOutcome::Completed { stdout, elapsed } => TestOutcomeView::Completed {
                stdout: stdout@,
                elapsed: *elapsed,
            },
            TestOutcome::NotStarted => TestOutcomeView::NotStarted,
            TestOutcome::InputRejected => TestOutcomeView::InputRejected,
            TestOutcome::WaitFailed => TestOutcomeView::WaitFailed,
            TestOutcome::TimedOut => TestOutcomeView::TimedOut,
        }
    }
}

/// A run of a suite, somewhere between its first step and its end.
pub struct Run {
    config: TestConfig,
    steps: Vec<Step>,
    next: usize,
    results: Vec<TestResult>,
    aborted: bool,
}

impl Run {
    /// The suite that is run.
    pub closed spec fn config(&self) -> TestConfigView {
        self.config@
    }

    /// How many steps of the plan are done.
    pub closed spec fn position(&self) -> nat {
        self.next as nat
    }

    /// The results recorded so far, in the order of their cases.
    pub closed spec fn results(&self) -> Seq<TestResultView> {
        self.results.deep_view()
    }

    /// Whether the run has met a failure.
    pub closed spec fn aborted(&self) -> bool {
        self.aborted
    }

    /// Whether the run holds the plan of its suite.
    pub closed spec fn holds_plan(&self) -> bool {
        self.steps.deep_view() == plan(self.config@)
    }

    /// What holds of every run: it stands within its plan, it has one result
    /// for each case whose command was run, and the result at each index is
    /// the record of the case at that index.
    pub open spec fn wf(&self) -> bool {
        &&& self.holds_plan()
        &&& self.position() <= plan(self.config()).len()
        &&& self.results().len() == cases_in(
            plan(self.config()).subrange(0, self.position() as int),
        )
        &&& forall|i: int|
            0 <= i < self.results().len() ==> #[trigger] self.results()[i] == record_of(
                self.config(),
                i,
                self.results()[i].actual_output,
                self.results()[i].execution_time,
            )
    }

    /// What is to be done next.
    pub open spec fn pending(&self) -> ActionView {
        if self.aborted() {
            ActionView::Halt
        } else if self.position() >= plan(self.config()).len() {
            ActionView::Finish
        } else {
            match plan(self.config())[self.position() as int] {
                StepView::Build { command, case } => ActionView::Shell { command },
                StepView::Test { index } => ActionView::Launch(
                    invocation_of(self.config(), index),
                ),
            }
        }
    }

    /// The failure that a build command of this run's pending step ends in,
    /// if it ends in one.
    pub open spec fn build_failure(&self, outcome: BuildOutcome) -> Option<HarnessErrorView> {
        match plan(self.config())[self.position() as int] {
            StepView::Build { command, case } => match outcome {
                BuildOutcome::Succeeded => None,
                BuildOutcome::Failed => Some(
                    HarnessErrorView::PreBuildCommandFailed {
                        command,
                        for_test: match case {
                            Some(index) => Some(self.config().tests[index].name),
                            None => None,
                        },
                    },
                ),
                BuildOutcome::NotStarted => Some(HarnessErrorView::ProcessSpawnFailed { command }),
            },
            StepView::Test { index } => None,
        }
    }

    /// The index of the case whose command is pending.
    pub open spec fn pending_case(&self) -> int {
        plan(self.config())[self.position() as int]->index
    }

    /// At every point of a run, there is a result for each of the first
    /// cases and for no other, each result carries the name of its case, and
    /// each holds a comparison exactly when its outputs disagreed.
    pub proof fn lemma_results_follow_cases(&self)
        requires
            self.wf(),
        ensures
            self.results().len() <= self.config().tests.len(),
            forall|i: int|
                0 <= i < self.results().len() ==> {
                    &&& (#[trigger] self.results()[i]).name == self.config().tests[i].name
                    &&& self.results()[i].consistent()
                },
    {
        let steps = plan(self.config());
        let position = self.position() as int;
        lemma_cases_through(self.config(), self.config().tests.len());
        let done = steps.subrange(0, position);
        let ahead = steps.subrange(position, steps.len() as int);
        lemma_cases_in_concat(done, ahead);
        assert(done + ahead == steps);
    }

    /// Begins a run of `config`, with nothing done yet.
    pub fn new(config: TestConfig) -> (run: Run)
        ensures
            run.wf(),
            run.config() == config@,
            run.position() == 0,
            run.results() == Seq::<TestResultView>::empty(),
            !run.aborted(),
    {
        let steps = plan_steps(&config);
        let results: Vec<TestResult> = Vec::new();
        let run = Run { config, steps, next: 0, results, aborted: false };
        proof {
            assert(run.results() =~= Seq::<TestResultView>::empty());
            assert(plan(run.config()).subrange(0, 0) =~= Seq::<StepView>::empty());
        }
        run
    }

    /// Says what is to be done next.
    pub fn next_action(&self) -> (action: Action)
        requires
            self.wf(),
        ensures
            action@ == self.pending(),
    {
        if self.aborted {
            Action::Halt
        } else if self.next >= self.steps.len() {
            Action::Finish
        } else {
            proof {
                lemma_step_order(self.config@, self.config@.tests.len(), self.next as int);
            }
            match &self.steps[self.next] {
                Step::Build { command, case } => Action::Shell { command: command.clone() },
                Step::Test { index } => Action::Launch(invocation(&self.config, *index)),
            }
        }
    }

    /// Takes note of how the pending build command went. On success the run
    /// moves on to its next step. Otherwise it is over: the failure is
    /// returned and the run halts.
    pub fn build_finished(&mut self, outcome: BuildOutcome) -> (noted: Result<(), HarnessError>)
        requires
            old(self).wf(),
            old(self).pending() is Shell,
        ensures
            final(self).wf(),
            final(self).config() == old(self).config(),
            final(self).results() == old(self).results(),
            match noted {
                Ok(_) => {
                    &&& outcome == BuildOutcome::Succeeded
                    &&& final(self).position() == old(self).position() + 1
                    &&& !final(self).aborted()
                },
                Err(failure) => {
                    &&& old(self).build_failure(outcome) == Some(failure@)
                    &&& final(self).position() == old(self).position()
                    &&& final(self).aborted()
                },
            },
    {
        proof {
            lemma_step_order(self.config@, self.config@.tests.len(), self.next as int);
        }
        let ghost steps = plan(self.config@);
        let ghost position = self.next as int;
        match &self.steps[self.next] {
            Step::Build { command, case } => match outcome {
                BuildOutcome::Succeeded => {
                    proof {
                        assert(steps.subrange(0, position + 1).drop_last() == steps.subrange(
                            0,
                            position,
                        ));
                    }
                    assert(self.next < self.steps.len());
                    self.next = self.next + 1;
                    Ok(())
                },
                BuildOutcome::Failed => {
                    let for_test = match case {
                        Some(index) => Some(self.config.tests[*index].name.clone()),
                        None => None,
                    };
                    let failure = HarnessError::PreBuildCommandFailed {
                        command: command.clone(),
                        for_test,
                    };
                    self.aborted = true;
                    Err(failure)
                },
                BuildOutcome::NotStarted => {
                    let failure = HarnessError::ProcessSpawnFailed { command: command.clone() };
                    self.aborted = true;
                    Err(failure)
                },
            },
            Step::Test { index } => Ok(()),
        }
    }

    /// Takes note of how the pending command of a case went. If it ended in
    /// time, its result is recorded and the run moves on to its next step.
    /// Otherwise the run is over: the failure is returned and the run halts.
    pub fn test_finished(&mut self, outcome: TestOutcome) -> (noted: Result<(), HarnessError>)
        requires
            old(self).wf(),
            old(self).pending() is Launch,
        ensures
            final(self).wf(),
            final(self).config() == old(self).config(),
            match outcome {
                TestOutcome::Completed { stdout, elapsed } => {
                    &&& noted is Ok
                    &&& final(self).position() == old(self).position() + 1
                    &&& !final(self).aborted()
                    &&& old(self).pending_case() == old(self).results().len()
                    &&& final(self).results() == old(self).results().push(
                        record_of(old(self).config(), old(self).pending_case(), stdout@, elapsed),
                    )
                },
                TestOutcome::NotStarted => noted matches Err(failure) && failure@
                    == (HarnessErrorView::ProcessSpawnFailed {
                    command: old(self).pending()->Launch_0.command,
                }),
                TestOutcome::InputRejected => noted matches Err(failure) && failure@
                    == HarnessErrorView::StdinWriteFailed,
                TestOutcome::WaitFailed => noted matches Err(failure) && failure@
                    == HarnessErrorView::ProcessWaitFailed,
                TestOutcome::TimedOut => noted matches Err(failure) && failure@
                    == (HarnessErrorView::ProcessTimedOut {
                    test: old(self).config().tests[old(self).pending_case()].name,
                }),
            },
            noted is Err ==> {
                &&& final(self).aborted()
                &&& final(self).position() == old(self).position()
                &&& final(self).results() == old(self).results()
            },
    {
        proof {
            lemma_step_order(self.config@, self.config@.tests.len(), self.next as int);
        }
        let ghost steps = plan(self.config@);
        let ghost position = self.next as int;
        let index = match &self.steps[self.next] {
            Step::Test { index } => *index,
            Step::Build { command, case } => 0,
        };
        match outcome {
            TestOutcome::Completed { stdout, elapsed } => {
                let ghost before = self.results.deep_view();
                let result = evaluate(&self.config, index, stdout, elapsed);
                self.results.push(result);
                assert(self.next < self.steps.len());
                self.next = self.next + 1;
                proof {
                    assert(steps.subrange(0, position + 1).drop_last() == steps.subrange(
                        0,
                        position,
                    ));
                    assert(self.results.deep_view() =~= before.push(result@));
                }
                Ok(())
            },
            TestOutcome::NotStarted => {
                let prepared = invocation(&self.config, index);
                self.aborted = true;
                Err(HarnessError::ProcessSpawnFailed { command: prepared.command })
            },
            TestOutcome::InputRejected => {
                self.aborted = true;
                Err(HarnessError::StdinWriteFailed)
            },
            TestOutcome::WaitFailed => {
                self.aborted = true;
                Err(HarnessError::ProcessWaitFailed)
            },
            TestOutcome::TimedOut => {
                self.aborted = true;
                Err(HarnessError::ProcessTimedOut { test: self.config.tests[index].name.clone() })
            },
        }
    }

    /// Hands out the results of a run that has finished: one for each case,
    /// in the order of the cases. A run that is not at its end, or that has
    /// met a failure, has none to hand out.
    pub fn into_results(self) -> (results: Option<Vec<TestResult>>)
        requires
            self.wf(),
        ensures
            match results {
                Some(results) => {
                    &&& self.pending() is Finish
                    &&& results.deep_view() == self.results()
                    &&& results.len() == self.config().tests.len()
                    &&& forall|i: int|
                        0 <= i < results.len() ==> {
                            &&& (#[trigger] results[i])@.name == self.config().tests[i].name
                            &&& results[i]@.consistent()
                        }
                },
                None => !(self.pending() is Finish),
            },
    {
        if self.aborted || self.next < self.steps.len() {
            None
        } else {
            proof {
                let steps = plan(self.config@);
                lemma_cases_through(self.config@, self.config@.tests.len());
                assert(steps.subrange(0, self.next as int) == steps);
                assert forall|i: int| 0 <= i < self.results.len() implies {
                    &&& (#[trigger] self.results[i])@.name == self.config@.tests[i].name
                    &&& self.results[i]@.consistent()
                } by {
                    assert(self.results.deep_view()[i] == self.results[i]@);
                }
            }
            Some(self.results)
        }
    }
}

} // verus!
