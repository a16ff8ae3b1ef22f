//! The supervision of one command, from its start to its outcome.
//!
//! The command is started. If there is input for it, the input is written
//! to it and its input is closed. Then the command is looked at until it has
//! ended or its timeout has passed: a command that has ended is collected, a
//! command that has not ended in time is terminated. Whichever step fails
//! decides the outcome; nothing is tried twice.
//!
//! The supervision decides. Its driver carries out each action on the
//! operating system and answers with what came of it.

use vstd::prelude::*;
use std::time::Duration;
use crate::engine::{TestOutcome, TestOutcomeView};
use crate::wait::{
    after_look, after_pause, step_after_look, step_after_pause, WaitPhase, WaitStep,
};

verus! {

/// How far the supervision of a command has got.
#[derive(Debug, Clone, Copy, PartialEq, Eq, Structural)]
pub enum Stage {
    /// Nothing has been done yet.
    Idle,
    /// The command is being started.
    Spawning,
    /// The input is being written.
    Feeding,
    /// The command is being looked at for the first time.
    FirstLook,
    /// The command is being looked at again.
    Looking,
    /// The driver sleeps between two looks.
    Pausing,
    /// The command is being terminated.
    Killing,
    /// The output of the command is being collected.
    Collecting,
    /// The outcome has been reported.
    Done,
}

/// What came of the action that the driver was asked for.
#[derive(Debug)]
pub enum ProcessEvent {
    /// The supervision is to begin.
    Begin,
    /// The action was carried out.
    Succeeded,
    /// The action could not be carried out.
    Failed,
    /// The look found that the command has ended.
    Exited,
    /// The look found the command running. With the first such look the
    /// driver starts its clock.
    Running,
    /// The pause is over, and so many whole seconds have passed on the
    /// clock.
    Paused { elapsed_secs: u64 },
    /// The command's output was collected. `elapsed` is the time from the
    /// command's start to the moment at which collecting was asked for.
    Collected { stdout: String, elapsed: Duration },
}

/// The mathematical content of a [`ProcessEvent`].
pub enum ProcessEventView {
    Begin,
    Succeeded,
    Failed,
    Exited,
    Running,
    Paused { elapsed_secs: u64 },
    Collected { stdout: Seq<char>, elapsed: Duration },
}

impl View for ProcessEvent {
    type V = ProcessEventView;

    open spec fn view(&self) -> ProcessEventView {
        match self {
            ProcessEvent::Begin => ProcessEventView::Begin,
            ProcessEvent::Succeeded => ProcessEventView::Succeeded,
            ProcessEvent::Failed => ProcessEventView::Failed,
            ProcessEvent::Exited => ProcessEventView::Exited,
            ProcessEvent::Running => ProcessEventView::Running,
            ProcessEvent::Paused { elapsed_secs } => ProcessEventView::Paused {
                elapsed_secs: *elapsed_secs,
            },
            ProcessEvent::Collected { stdout, elapsed } => ProcessEventView::Collected {
                stdout: stdout@,
                elapsed: *elapsed,
            },
        }
    }
}

/// What the driver is asked to do.
#[derive(Debug)]
pub enum ProcessAction {
    /// Start the command with its output captured, and with a pipe to its
    /// input if `pipe_input` says so.
    Spawn { pipe_input: bool },
    /// Write the whole input to the command and close its input.
    Feed,
    /// Look whether the command has ended, without blocking.
    Look,
    /// Sleep for so many milliseconds, then read the clock.
    Pause { millis: u64 },
    /// Terminate the command.
    Kill,
    /// Collect what the command wrote to its output.
    Collect,
    /// The supervision is over, with this outcome.
    Report(TestOutcome),
}

/// The mathematical content of a [`ProcessAction`].
pub enum ProcessActionView {
    Spawn { pipe_input: bool },
    Feed,
    Look,
    Pause { millis: u64 },
    Kill,
    Collect,
    Report(TestOutcomeView),
}

impl View for ProcessAction {
    type V = ProcessActionView;

    open spec fn view(&self) -> ProcessActionView {
        match self {
            ProcessAction::Spawn { pipe_input } => ProcessActionView::Spawn {
                pipe_input: *pipe_input,
            },
            ProcessAction::Feed => ProcessActionView::Feed,
            ProcessAction::Look => ProcessActionView::Look,
            ProcessAction::Pause { millis } => ProcessActionView::Pause { millis: *millis },
            ProcessAction::Kill => ProcessActionView::Kill,
            ProcessAction::Collect => ProcessActionView::Collect,
            ProcessAction::Report(outcome) => ProcessActionView::Report(outcome@),
        }
    }
}

/// The outcome of a command whose supervision fails at the given stage.
pub open spec fn failure_at(stage: Stage) -> TestOutcomeView {
    match stage {
        Stage::Idle => TestOutcomeView::NotStarted,
        Stage::Spawning => TestOutcomeView::NotStarted,
        Stage::Feeding => TestOutcomeView::InputRejected,
        _ => TestOutcomeView::WaitFailed,
    }
}

/// The stage and the action that carry out a step of the wait.
pub open spec fn wait_move(step: WaitStep) -> (Stage, ProcessActionView) {
    match step {
        WaitStep::Look => (Stage::Looking, ProcessActionView::Look),
        WaitStep::Pause { millis } => (Stage::Pausing, ProcessActionView::Pause { millis }),
        WaitStep::Collect => (Stage::Collecting, ProcessActionView::Collect),
        WaitStep::Expire => (Stage::Killing, ProcessActionView::Kill),
    }
}

/// The stage that follows `stage` on `event`, and the action asked for, in
/// the supervision of a command with or without input and with the given
/// timeout. An event that does not answer the action of the stage counts as
/// that action's failure.
pub open spec fn transition(
    stage: Stage,
    has_input: bool,
    timeout_secs: u64,
    event: ProcessEventView,
) -> (Stage, ProcessActionView) {
    let failed = (Stage::Done, ProcessActionView::Report(failure_at(stage)));
    match stage {
        Stage::Idle => match event {
            ProcessEventView::Begin => (
                Stage::Spawning,
                ProcessActionView::Spawn { pipe_input: has_input },
            ),
            _ => failed,
        },
        Stage::Spawning => match event {
            ProcessEventView::Succeeded => if has_input {
                (Stage::Feeding, ProcessActionView::Feed)
            } else {
                (Stage::FirstLook, ProcessActionView::Look)
            },
            _ => failed,
        },
        Stage::Feeding => match event {
            ProcessEventView::Succeeded => (Stage::FirstLook, ProcessActionView::Look),
            _ => failed,
        },
        Stage::FirstLook => match event {
            ProcessEventView::Exited => wait_move(
                step_after_look(WaitPhase::First, true, timeout_secs),
            ),
            ProcessEventView::Running => wait_move(
                step_after_look(WaitPhase::First, false, timeout_secs),
            ),
            _ => failed,
        },
        Stage::Looking => match event {
            ProcessEventView::Exited => wait_move(
                step_after_look(WaitPhase::Polling, true, timeout_secs),
            ),
            ProcessEventView::Running => wait_move(
                step_after_look(WaitPhase::Polling, false, timeout_secs),
            ),
            _ => failed,
        },
        Stage::Pausing => match event {
            ProcessEventView::Paused { elapsed_secs } => wait_move(
                step_after_pause(elapsed_secs, timeout_secs),
            ),
            _ => failed,
        },
        Stage::Killing => match event {
            ProcessEventView::Succeeded => (
                Stage::Done,
                ProcessActionView::Report(TestOutcomeView::TimedOut),
            ),
            _ => failed,
        },
        Stage::Collecting => match event {
            ProcessEventView::Collected { stdout, elapsed } => (
                Stage::Done,
                ProcessActionView::Report(TestOutcomeView::Completed { stdout, elapsed }),
            ),
            _ => failed,
        },
        Stage::Done => failed,
    }
}

/// The supervision of one command.
#[derive(Debug)]
pub struct Supervision {
    stage: Stage,
    has_input: bool,
    timeout_secs: u64,
}

impl Supervision {
    /// How far the supervision has got.
    pub closed spec fn stage(&self) -> Stage {
        self.stage
    }

    /// Whether there is input for the command.
    pub closed spec fn has_input(&self) -> bool {
        self.has_input
    }

    /// The seconds to wait for the command.
    pub closed spec fn timeout_secs(&self) -> u64 {
        self.timeout_secs
    }

    /// Sets out to supervise a command with or without input and with the
    /// given timeout.
    pub fn new(has_input: bool, timeout_secs: u64) -> (watch: Supervision)
        ensures
            watch.stage() == Stage::Idle,
            watch.has_input() == has_input,
            watch.timeout_secs() == timeout_secs,
    {
        Supervision { stage: Stage::Idle, has_input, timeout_secs }
    }

    /// Whether the outcome has been reported.
    pub fn is_done(&self) -> (done: bool)
        ensures
            done == (self.stage() == Stage::Done),
    {
        self.stage == Stage::Done
    }

    fn wait_move(&mut self, step: WaitStep) -> (action: ProcessAction)
        ensures
            (final(self).stage(), action@) == wait_move(step),
            final(self).has_input() == old(self).has_input(),
            final(self).timeout_secs() == old(self).timeout_secs(),
    {
        match step {
            WaitStep::Look => {
                self.stage = Stage::Looking;
                ProcessAction::Look
            },
            WaitStep::Pause { millis } => {
                self.stage = Stage::Pausing;
                ProcessAction::Pause { millis }
            },
            WaitStep::Collect => {
                self.stage = Stage::Collecting;
                ProcessAction::Collect
            },
            WaitStep::Expire => {
                self.stage = Stage::Killing;
                ProcessAction::Kill
            },
        }
    }

    fn fail(&mut self) -> (action: ProcessAction)
        ensures
            final(self).stage() == Stage::Done,
            action@ == ProcessActionView::Report(failure_at(old(self).stage())),
            final(self).has_input() == old(self).has_input(),
            final(self).timeout_secs() == old(self).timeout_secs(),
    {
        let outcome = match self.stage {
            Stage::Idle => TestOutcome::NotStarted,
            Stage::Spawning => TestOutcome::NotStarted,
            Stage::Feeding => TestOutcome::InputRejected,
            _ => TestOutcome::WaitFailed,
        };
        self.stage = Stage::Done;
        ProcessAction::Report(outcome)
    }

    /// Takes in what came of the last action and says what to do next.
    pub fn step(&mut self, event: ProcessEvent) -> (action: ProcessAction)
        ensures
            (final(self).stage(), action@) == transition(
                old(self).stage(),
                old(self).has_input(),
                old(self).timeout_secs(),
                event@,
            ),
            final(self).has_input() == old(self).has_input(),
            final(self).timeout_secs() == old(self).timeout_secs(),
    {
        match self.stage {
            Stage::Idle => match event {
                ProcessEvent::Begin => {
                    self.stage = Stage::Spawning;
                    ProcessAction::Spawn { pipe_input: self.has_input }
                },
                _ => self.fail(),
            },
            Stage::Spawning => match event {
                ProcessEvent::Succeeded => if self.has_input {
                    self.stage = Stage::Feeding;
                    ProcessAction::Feed
                } else {
                    self.stage = Stage::FirstLook;
                    ProcessAction::Look
                },
                _ => self.fail(),
            },
            Stage::Feeding => match event {
                ProcessEvent::Succeeded => {
                    self.stage = Stage::FirstLook;
                    ProcessAction::Look
                },
                _ => self.fail(),
            },
            Stage::FirstLook => match event {
                ProcessEvent::Exited => {
                    self.wait_move(after_look(WaitPhase::First, true, self.timeout_secs))
                },
                ProcessEvent::Running => {
                    self.wait_move(after_look(WaitPhase::First, false, self.timeout_secs))
                },
                _ => self.fail(),
            },
            Stage::Looking => match event {
                ProcessEvent::Exited => {
                    self.wait_move(after_look(WaitPhase::Polling, true, self.timeout_secs))
                },
                ProcessEvent::Running => {
                    self.wait_move(after_look(WaitPhase::Polling, false, self.timeout_secs))
                },
                _ => self.fail(),
            },
            Stage::Pausing => match event {
                ProcessEvent::Paused { elapsed_secs } => {
                    self.wait_move(after_pause(elapsed_secs, self.timeout_secs))
                },
                _ => self.fail(),
            },
            Stage::Killing => match event {
                ProcessEvent::Succeeded => {
                    self.stage = Stage::Done;
                    ProcessAction::Report(TestOutcome::TimedOut)
                },
                _ => self.fail(),
            },
            Stage::Collecting => match event {
                ProcessEvent::Collected { stdout, elapsed } => {
                    self.stage = Stage::Done;
                    ProcessAction::Report(TestOutcome::Completed { stdout, elapsed })
                },
                _ => self.fail(),
            },
            Stage::Done => self.fail(),
        }
    }
}

/// What the supervision never does. Input is written only to a command that
/// has input, and only right after its start. A command is terminated only
/// once its timeout has passed, and is reported as timed out only after it
/// was terminated. An outcome with output is reported only for output that
/// was collected, which is asked for only of a command that has ended.
pub proof fn lemma_supervision_is_orderly(
    stage: Stage,
    has_input: bool,
    timeout_secs: u64,
    event: ProcessEventView,
)
    ensures
        ({
            let (next, action) = transition(stage, has_input, timeout_secs, event);
            &&& action is Feed ==> has_input && stage == Stage::Spawning
            &&& action is Kill ==> {
                ||| event matches ProcessEventView::Paused { elapsed_secs } && elapsed_secs
                    >= timeout_secs
                ||| event is Running && stage == Stage::FirstLook && timeout_secs == 0
            }
            &&& action is Collect ==> event is Exited
            &&& action == ProcessActionView::Report(TestOutcomeView::TimedOut) ==> stage
                == Stage::Killing
            &&& action matches ProcessActionView::Report(TestOutcomeView::Completed { .. })
                ==> stage == Stage::Collecting
            &&& action is Report <==> next == Stage::Done
        }),
{
}

} // verus!
