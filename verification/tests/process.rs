use std::time::Duration;
use yamori::engine::TestOutcome;
use yamori::process::{ProcessAction, ProcessEvent, Supervision};
use yamori::wait::POLL_INTERVAL_MILLIS;

fn collected(stdout: &str) -> ProcessEvent {
    ProcessEvent::Collected { stdout: stdout.to_string(), elapsed: Duration::from_millis(7) }
}

#[test]
fn command_without_input_is_started_and_looked_at() {
    let mut watch = Supervision::new(false, 30);
    assert!(matches!(watch.step(ProcessEvent::Begin), ProcessAction::Spawn { pipe_input: false }));
    assert!(matches!(watch.step(ProcessEvent::Succeeded), ProcessAction::Look));
    assert!(matches!(watch.step(ProcessEvent::Exited), ProcessAction::Collect));
    assert!(!watch.is_done());
    match watch.step(collected("out")) {
        ProcessAction::Report(TestOutcome::Completed { stdout, elapsed }) => {
            assert_eq!(stdout, "out");
            assert_eq!(elapsed, Duration::from_millis(7));
        }
        other => panic!("unexpected {:?}", other),
    }
    assert!(watch.is_done());
}

#[test]
fn input_is_fed_before_the_first_look() {
    let mut watch = Supervision::new(true, 30);
    assert!(matches!(watch.step(ProcessEvent::Begin), ProcessAction::Spawn { pipe_input: true }));
    assert!(matches!(watch.step(ProcessEvent::Succeeded), ProcessAction::Feed));
    assert!(matches!(watch.step(ProcessEvent::Succeeded), ProcessAction::Look));
}

#[test]
fn running_command_is_polled_with_pauses() {
    let mut watch = Supervision::new(false, 2);
    watch.step(ProcessEvent::Begin);
    watch.step(ProcessEvent::Succeeded);
    assert!(matches!(watch.step(ProcessEvent::Running), ProcessAction::Look));
    assert!(matches!(
        watch.step(ProcessEvent::Running),
        ProcessAction::Pause { millis: POLL_INTERVAL_MILLIS }
    ));
    assert!(matches!(watch.step(ProcessEvent::Paused { elapsed_secs: 0 }), ProcessAction::Look));
    assert!(matches!(watch.step(ProcessEvent::Running), ProcessAction::Pause { .. }));
    assert!(matches!(watch.step(ProcessEvent::Paused { elapsed_secs: 1 }), ProcessAction::Look));
    assert!(matches!(watch.step(ProcessEvent::Exited), ProcessAction::Collect));
    assert!(matches!(
        watch.step(collected("")),
        ProcessAction::Report(TestOutcome::Completed { .. })
    ));
}

#[test]
fn command_is_terminated_when_its_time_is_up() {
    let mut watch = Supervision::new(false, 1);
    watch.step(ProcessEvent::Begin);
    watch.step(ProcessEvent::Succeeded);
    watch.step(ProcessEvent::Running);
    watch.step(ProcessEvent::Running);
    assert!(matches!(watch.step(ProcessEvent::Paused { elapsed_secs: 1 }), ProcessAction::Kill));
    assert!(matches!(
        watch.step(ProcessEvent::Succeeded),
        ProcessAction::Report(TestOutcome::TimedOut)
    ));
    assert!(watch.is_done());
}

#[test]
fn zero_timeout_allows_one_look() {
    let mut watch = Supervision::new(false, 0);
    watch.step(ProcessEvent::Begin);
    watch.step(ProcessEvent::Succeeded);
    assert!(matches!(watch.step(ProcessEvent::Running), ProcessAction::Kill));
    let mut quick = Supervision::new(false, 0);
    quick.step(ProcessEvent::Begin);
    quick.step(ProcessEvent::Succeeded);
    assert!(matches!(quick.step(ProcessEvent::Exited), ProcessAction::Collect));
}

#[test]
fn each_failing_step_decides_the_outcome() {
    let mut watch = Supervision::new(true, 30);
    watch.step(ProcessEvent::Begin);
    assert!(matches!(
        watch.step(ProcessEvent::Failed),
        ProcessAction::Report(TestOutcome::NotStarted)
    ));

    let mut watch = Supervision::new(true, 30);
    watch.step(ProcessEvent::Begin);
    watch.step(ProcessEvent::Succeeded);
    assert!(matches!(
        watch.step(ProcessEvent::Failed),
        ProcessAction::Report(TestOutcome::InputRejected)
    ));

    let mut watch = Supervision::new(false, 30);
    watch.step(ProcessEvent::Begin);
    watch.step(ProcessEvent::Succeeded);
    assert!(matches!(
        watch.step(ProcessEvent::Failed),
        ProcessAction::Report(TestOutcome::WaitFailed)
    ));

    let mut watch = Supervision::new(false, 0);
    watch.step(ProcessEvent::Begin);
    watch.step(ProcessEvent::Succeeded);
    watch.step(ProcessEvent::Running);
    assert!(matches!(
        watch.step(ProcessEvent::Failed),
        ProcessAction::Report(TestOutcome::WaitFailed)
    ));

    let mut watch = Supervision::new(false, 30);
    watch.step(ProcessEvent::Begin);
    watch.step(ProcessEvent::Succeeded);
    watch.step(ProcessEvent::Exited);
    assert!(matches!(
        watch.step(ProcessEvent::Failed),
        ProcessAction::Report(TestOutcome::WaitFailed)
    ));
}

#[test]
fn events_out_of_turn_count_as_failures() {
    let mut watch = Supervision::new(false, 30);
    assert!(matches!(
        watch.step(ProcessEvent::Exited),
        ProcessAction::Report(TestOutcome::NotStarted)
    ));
    assert!(watch.is_done());
    assert!(matches!(
        watch.step(ProcessEvent::Begin),
        ProcessAction::Report(TestOutcome::WaitFailed)
    ));
    let mut watch = Supervision::new(false, 30);
    watch.step(ProcessEvent::Begin);
    watch.step(ProcessEvent::Succeeded);
    assert!(matches!(
        watch.step(collected("early")),
        ProcessAction::Report(TestOutcome::WaitFailed)
    ));
}
