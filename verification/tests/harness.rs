use jax_os::exit::EXIT_PORT;
use jax_os::harness::{Action, Event, Harness, Report, RunState, Step};
use jax_os::{QemuExitCode, Testable};
use std::cell::Cell;

struct Counting<'a> {
    runs: &'a Cell<usize>,
}

impl<'a> Testable for Counting<'a> {
    fn run(&self) {
        self.runs.set(self.runs.get() + 1);
    }
}

/// Drives a run: performs each action and tells the harness how it ended.
/// `panics_at` is the index of the test that panics, if one does. Returns the
/// reports, the indices of the tests that were run, and the verdict.
fn drive(
    tests: &[&dyn Testable],
    panics_at: Option<usize>,
) -> (Vec<Report>, Vec<usize>, Option<QemuExitCode>) {
    let mut harness = Harness::new(tests.len());
    let mut reports = Vec::new();
    let mut ran = Vec::new();
    let mut step = harness.step(Event::Advance);
    loop {
        reports.push(step.report);
        match step.action {
            Action::Run(index) => {
                ran.push(index);
                if panics_at == Some(index) {
                    step = harness.step(Event::Panic);
                } else {
                    tests[index].run();
                    step = harness.step(Event::Advance);
                }
            }
            Action::Exit(code) => return (reports, ran, Some(code)),
            Action::Halt => return (reports, ran, None),
        }
    }
}

#[test]
fn exit_codes_are_the_wire_values() {
    assert_eq!(QemuExitCode::Success.code(), 0x10);
    assert_eq!(QemuExitCode::Failed.code(), 0x11);
    assert_eq!(EXIT_PORT, 0xf4);
}

#[test]
fn host_status_is_code_shifted_with_low_bit_set() {
    assert_eq!(QemuExitCode::Success.host_status(), 33);
    assert_eq!(QemuExitCode::Failed.host_status(), 35);
    for code in [QemuExitCode::Success, QemuExitCode::Failed] {
        assert_eq!(code.host_status(), (code.code() << 1) | 1);
    }
}

#[test]
fn new_harness_is_idle() {
    let harness = Harness::new(3);
    assert_eq!(harness.state(), RunState::Idle);
    assert_eq!(harness.total(), 3);
}

#[test]
fn run_of_three_passes() {
    let mut harness = Harness::new(3);
    assert_eq!(
        harness.step(Event::Advance),
        Step { report: Report::Count(3), action: Action::Run(0) }
    );
    assert_eq!(harness.state(), RunState::Running(0));
    assert_eq!(
        harness.step(Event::Advance),
        Step { report: Report::Passed(0), action: Action::Run(1) }
    );
    assert_eq!(harness.state(), RunState::Running(1));
    assert_eq!(
        harness.step(Event::Advance),
        Step { report: Report::Passed(1), action: Action::Run(2) }
    );
    assert_eq!(harness.state(), RunState::Running(2));
    assert_eq!(
        harness.step(Event::Advance),
        Step { report: Report::Passed(2), action: Action::Exit(QemuExitCode::Success) }
    );
    assert_eq!(harness.state(), RunState::Completed);
    assert_eq!(harness.total(), 3);
}

#[test]
fn first_test_panics() {
    let mut harness = Harness::new(3);
    assert_eq!(
        harness.step(Event::Advance),
        Step { report: Report::Count(3), action: Action::Run(0) }
    );
    assert_eq!(
        harness.step(Event::Panic),
        Step { report: Report::Failed, action: Action::Exit(QemuExitCode::Failed) }
    );
    assert_eq!(harness.state(), RunState::Aborted);
    for event in [Event::Advance, Event::Advance, Event::Panic, Event::Advance] {
        assert_eq!(
            harness.step(event),
            Step { report: Report::Nothing, action: Action::Halt }
        );
        assert_eq!(harness.state(), RunState::Aborted);
    }
}

#[test]
fn second_test_panics() {
    let mut harness = Harness::new(3);
    harness.step(Event::Advance);
    assert_eq!(
        harness.step(Event::Advance),
        Step { report: Report::Passed(0), action: Action::Run(1) }
    );
    assert_eq!(
        harness.step(Event::Panic),
        Step { report: Report::Failed, action: Action::Exit(QemuExitCode::Failed) }
    );
    assert_eq!(harness.state(), RunState::Aborted);
    assert_eq!(harness.step(Event::Advance).action, Action::Halt);
}

#[test]
fn empty_run_completes_at_once() {
    let mut harness = Harness::new(0);
    assert_eq!(
        harness.step(Event::Advance),
        Step { report: Report::Count(0), action: Action::Exit(QemuExitCode::Success) }
    );
    assert_eq!(harness.state(), RunState::Completed);
}

#[test]
fn panic_before_the_first_test_aborts() {
    let mut harness = Harness::new(2);
    assert_eq!(
        harness.step(Event::Panic),
        Step { report: Report::Failed, action: Action::Exit(QemuExitCode::Failed) }
    );
    assert_eq!(harness.state(), RunState::Aborted);
    assert_eq!(harness.step(Event::Advance).action, Action::Halt);
}

#[test]
fn completed_run_stays_completed() {
    let mut harness = Harness::new(1);
    harness.step(Event::Advance);
    assert_eq!(
        harness.step(Event::Advance),
        Step { report: Report::Passed(0), action: Action::Exit(QemuExitCode::Success) }
    );
    for event in [Event::Advance, Event::Panic] {
        assert_eq!(
            harness.step(event),
            Step { report: Report::Nothing, action: Action::Halt }
        );
        assert_eq!(harness.state(), RunState::Completed);
    }
}

#[test]
fn driver_runs_every_test_once_in_order() {
    let runs = Cell::new(0);
    let a = Counting { runs: &runs };
    let b = Counting { runs: &runs };
    let c = Counting { runs: &runs };
    let (reports, ran, verdict) = drive(&[&a, &b, &c], None);
    assert_eq!(runs.get(), 3);
    assert_eq!(ran, vec![0, 1, 2]);
    assert_eq!(
        reports,
        vec![Report::Count(3), Report::Passed(0), Report::Passed(1), Report::Passed(2)]
    );
    assert_eq!(verdict, Some(QemuExitCode::Success));
}

#[test]
fn driver_stops_at_the_first_panic() {
    let runs = Cell::new(0);
    let a = Counting { runs: &runs };
    let b = Counting { runs: &runs };
    let c = Counting { runs: &runs };
    let (reports, ran, verdict) = drive(&[&a, &b, &c], Some(0));
    assert_eq!(runs.get(), 0);
    assert_eq!(ran, vec![0]);
    assert_eq!(reports, vec![Report::Count(3), Report::Failed]);
    assert_eq!(verdict, Some(QemuExitCode::Failed));
}

#[test]
fn driver_keeps_the_passes_before_a_panic() {
    let runs = Cell::new(0);
    let a = Counting { runs: &runs };
    let b = Counting { runs: &runs };
    let c = Counting { runs: &runs };
    let (reports, ran, verdict) = drive(&[&a, &b, &c], Some(1));
    assert_eq!(runs.get(), 1);
    assert_eq!(ran, vec![0, 1]);
    assert_eq!(reports, vec![Report::Count(3), Report::Passed(0), Report::Failed]);
    assert_eq!(verdict, Some(QemuExitCode::Failed));
}
