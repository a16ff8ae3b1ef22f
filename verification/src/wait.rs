//! Waiting for a command with a timeout.
//!
//! The wait is a polling loop. The driver looks whether the command has
//! ended. If it has not, the driver starts its clock and from then on, as
//! long as fewer whole seconds than the timeout have passed, looks again and
//! pauses after each look that finds the command still running. Once the
//! timeout has passed the driver stops looking and the command is given up.

use vstd::prelude::*;

verus! {

/// The pause between two looks at a running command, in milliseconds.
pub const POLL_INTERVAL_MILLIS: u64 = 100;

/// How far a wait has got.
#[derive(Debug, Clone, Copy, PartialEq, Eq, Structural)]
pub enum WaitPhase {
    /// The command has been started and not been looked at. The clock is
    /// not running yet.
    First,
    /// The first look found the command running, and the clock runs.
    Polling,
}

/// What the driver of a wait does next.
#[derive(Debug, Clone, Copy, PartialEq, Eq, Structural)]
pub enum WaitStep {
    /// Look whether the command has ended, without blocking.
    Look,
    /// Sleep for so many milliseconds, then read the clock.
    Pause { millis: u64 },
    /// The command has ended: collect its output and status.
    Collect,
    /// The timeout has passed: terminate the command.
    Expire,
}

/// What follows once `elapsed_secs` whole seconds have passed on the clock
/// of a wait with the given timeout.
pub open spec fn step_after_pause(elapsed_secs: u64, timeout_secs: u64) -> WaitStep {
    if elapsed_secs < timeout_secs {
        WaitStep::Look
    } else {
        WaitStep::Expire
    }
}

/// What follows a look at the command. The first look that finds the command
/// running starts the clock, at zero.
pub open spec fn step_after_look(phase: WaitPhase, exited: bool, timeout_secs: u64) -> WaitStep {
    if exited {
        WaitStep::Collect
    } else {
        match phase {
            WaitPhase::First => step_after_pause(0, timeout_secs),
            WaitPhase::Polling => WaitStep::Pause { millis: POLL_INTERVAL_MILLIS },
        }
    }
}

/// Decides what follows a look at the command.
pub fn after_look(phase: WaitPhase, exited: bool, timeout_secs: u64) -> (step: WaitStep)
    ensures
        step == step_after_look(phase, exited, timeout_secs),
{
    if exited {
        WaitStep::Collect
    } else {
        match phase {
            WaitPhase::First => after_pause(0, timeout_secs),
            WaitPhase::Polling => WaitStep::Pause { millis: POLL_INTERVAL_MILLIS },
        }
    }
}

/// Decides what follows a pause, from the whole seconds that have passed on
/// the clock.
pub fn after_pause(elapsed_secs: u64, timeout_secs: u64) -> (step: WaitStep)
    ensures
        step == step_after_pause(elapsed_secs, timeout_secs),
{
    if elapsed_secs < timeout_secs {
        WaitStep::Look
    } else {
        WaitStep::Expire
    }
}

/// A command that has ended is collected whenever it is looked at, and a
/// command is never looked at again once the timeout has passed.
pub proof fn lemma_wait_bounds(
    phase: WaitPhase,
    exited: bool,
    elapsed_secs: u64,
    timeout_secs: u64,
)
    ensures
        exited ==> step_after_look(phase, exited, timeout_secs) == WaitStep::Collect,
        !exited ==> step_after_look(phase, exited, timeout_secs) != WaitStep::Collect,
        elapsed_secs >= timeout_secs ==> step_after_pause(elapsed_secs, timeout_secs)
            == WaitStep::Expire,
        timeout_secs == 0 && !exited ==> step_after_look(WaitPhase::First, exited, timeout_secs)
            == WaitStep::Expire,
{
}

} // verus!
