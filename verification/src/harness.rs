//! The test run as a state machine. The machine decides what is reported and
//! what happens next; whoever drives it runs the tests, writes the reports
//! and signals the verdict, and tells the machine how each test ended.

use crate::exit::QemuExitCode;
use vstd::prelude::*;

verus! {

/// A test case: something that can be run and that either returns or panics.
pub trait Testable {
    fn run(&self);
}

/// Where a run stands.
#[derive(Debug, Clone, Copy, PartialEq, Eq, Structural)]
pub enum RunState {
    /// Nothing has run yet.
    Idle,
    /// The test with this index is running.
    Running(usize),
    /// A test panicked; the run is over.
    Aborted,
    /// Every test returned; the run is over.
    Completed,
}

/// What the driver tells the machine.
#[derive(Debug, Clone, Copy, PartialEq, Eq, Structural)]
pub enum Event {
    /// The run begins, or the running test returned.
    Advance,
    /// The running code panicked.
    Panic,
}

/// What the driver writes to the diagnostic channel.
#[derive(Debug, Clone, Copy, PartialEq, Eq, Structural)]
pub enum Report {
    /// The number of tests of the run.
    Count(usize),
    /// The test with this index passed.
    Passed(usize),
    /// The run failed.
    Failed,
    /// Nothing is written.
    Nothing,
}

/// What the driver does once the report is written.
#[derive(Debug, Clone, Copy, PartialEq, Eq, Structural)]
pub enum Action {
    /// Names the test with this index on the diagnostic channel and runs it.
    Run(usize),
    /// Signals this verdict to the host.
    Exit(QemuExitCode),
    /// Nothing is left to do.
    Halt,
}

/// The machine's answer to an event.
#[derive(Debug, Clone, Copy, PartialEq, Eq, Structural)]
pub struct Step {
    pub report: Report,
    pub action: Action,
}

impl RunState {
    /// Whether the run is over.
    pub open spec fn is_terminal(self) -> bool {
        self is Aborted || self is Completed
    }

    /// Whether the state can occur in a run of `total` tests.
    pub open spec fn valid(self, total: usize) -> bool {
        self matches RunState::Running(index) ==> index < total
    }

    /// The state that follows on `event` in a run of `total` tests. A panic
    /// ends the run at once; a run that is over stays as it is.
    pub open spec fn next(self, total: usize, event: Event) -> RunState {
        match (self, event) {
            (RunState::Idle, Event::Advance) => if total == 0 {
                RunState::Completed
            } else {
                RunState::Running(0)
            },
            (RunState::Running(index), Event::Advance) => if index + 1 < total {
                RunState::Running((index + 1) as usize)
            } else {
                RunState::Completed
            },
            (RunState::Idle, Event::Panic) => RunState::Aborted,
            (RunState::Running(_), Event::Panic) => RunState::Aborted,
            (RunState::Aborted, _) => RunState::Aborted,
            (RunState::Completed, _) => RunState::Completed,
        }
    }

    /// What is reported on `event`.
    pub open spec fn report(self, total: usize, event: Event) -> Report {
        match (self, event) {
            (RunState::Idle, Event::Advance) => Report::Count(total),
            (RunState::Running(index), Event::Advance) => Report::Passed(index),
            (RunState::Idle, Event::Panic) => Report::Failed,
            (RunState::Running(_), Event::Panic) => Report::Failed,
            (RunState::Aborted, _) => Report::Nothing,
            (RunState::Completed, _) => Report::Nothing,
        }
    }

    /// What is done on `event`, after the report: the next test is run, or
    /// the verdict is signalled in the step that ends the run, or nothing.
    pub open spec fn action(self, total: usize, event: Event) -> Action {
        if self.is_terminal() {
            Action::Halt
        } else {
            match self.next(total, event) {
                RunState::Running(index) => Action::Run(index),
                RunState::Completed => Action::Exit(QemuExitCode::Success),
                _ => Action::Exit(QemuExitCode::Failed),
            }
        }
    }

    /// The machine's answer to `event`.
    pub open spec fn step(self, total: usize, event: Event) -> Step {
        Step { report: self.report(total, event), action: self.action(total, event) }
    }

    /// The state after the events `events`, taken in order.
    pub open spec fn run(self, total: usize, events: Seq<Event>) -> RunState
        decreases events.len(),
    {
        if events.len() == 0 {
            self
        } else {
            self.run(total, events.drop_last()).next(total, events.last())
        }
    }

    /// The answer to the event at `index` of `events`.
    pub open spec fn answer(self, total: usize, events: Seq<Event>, index: int) -> Step {
        self.run(total, events.take(index)).step(total, events[index])
    }
}

/// A run of a fixed number of tests.
pub struct Harness {
    total: usize,
    state: RunState,
}

impl Harness {
    /// The test that is running is one of the tests of the run.
    #[verifier::type_invariant]
    spec fn running_test_exists(self) -> bool {
        self.state.valid(self.total)
    }

    /// The number of tests of the run.
    pub closed spec fn spec_total(&self) -> usize {
        self.total
    }

    /// Where the run stands.
    pub closed spec fn spec_state(&self) -> RunState {
        self.state
    }

    /// A run of `total` tests, of which none has run yet.
    pub fn new(total: usize) -> (harness: Harness)
        ensures
            harness.total() == total,
            harness.state() == RunState::Idle,
    {
        Harness { total, state: RunState::Idle }
    }

    /// Returns the number of tests of the run.
    #[verifier::when_used_as_spec(spec_total)]
    pub fn total(&self) -> (total: usize)
        ensures
            total == self.spec_total(),
    {
        self.total
    }

    /// Returns where the run stands.
    #[verifier::when_used_as_spec(spec_state)]
    pub fn state(&self) -> (state: RunState)
        ensures
            state == self.spec_state(),
            state.valid(self.spec_total()),
    {
        proof {
            use_type_invariant(self);
        }
        self.state
    }

    /// Takes `event` and says what to report and what to do next. The number
    /// of tests stays as it is.
    pub fn step(&mut self, event: Event) -> (step: Step)
        ensures
            step == old(self).state().step(old(self).total(), event),
            final(self).state() == old(self).state().next(old(self).total(), event),
            final(self).total() == old(self).total(),
    {
        proof {
            use_type_invariant(&*self);
        }
        let total = self.total;
        let (next, report) = match (self.state, event) {
            (RunState::Idle, Event::Advance) => {
                let next = if total == 0 {
                    RunState::Completed
                } else {
                    RunState::Running(0)
                };
                (next, Report::Count(total))
            },
            (RunState::Running(index), Event::Advance) => {
                let next = if index + 1 < total {
                    RunState::Running(index + 1)
                } else {
                    RunState::Completed
                };
                (next, Report::Passed(index))
            },
            (RunState::Idle, Event::Panic) => (RunState::Aborted, Report::Failed),
            (RunState::Running(_), Event::Panic) => (RunState::Aborted, Report::Failed),
            (RunState::Aborted, _) => (RunState::Aborted, Report::Nothing),
            (RunState::Completed, _) => (RunState::Completed, Report::Nothing),
        };
        let action = match (self.state, next) {
            (RunState::Aborted, _) => Action::Halt,
            (RunState::Completed, _) => Action::Halt,
            (_, RunState::Running(index)) => Action::Run(index),
            (_, RunState::Completed) => Action::Exit(QemuExitCode::Success),
            (_, _) => Action::Exit(QemuExitCode::Failed),
        };
        self.state = next;
        Step { report, action }
    }
}

/// Whether the first `count` events of `events` are all `Advance`.
pub open spec fn all_advance(events: Seq<Event>, count: int) -> bool {
    forall|index: int| 0 <= index < count ==> events[index] == Event::Advance
}

/// Every state that a run reaches names a test that exists.
pub proof fn lemma_run_stays_valid(state: RunState, total: usize, events: Seq<Event>)
    requires
        state.valid(total),
    ensures
        state.run(total, events).valid(total),
    decreases events.len(),
{
    if events.len() > 0 {
        lemma_run_stays_valid(state, total, events.drop_last());
    }
}

/// A run that is over stays over: whatever events follow, the state is the
/// same, nothing is reported and nothing is done.
pub proof fn lemma_over_stays_over(state: RunState, total: usize, events: Seq<Event>)
    requires
        state.is_terminal(),
    ensures
        state.run(total, events) == state,
        forall|index: int|
            0 <= index < events.len() ==> #[trigger] state.answer(total, events, index) == (Step {
                report: Report::Nothing,
                action: Action::Halt,
            }),
    decreases events.len(),
{
    if events.len() > 0 {
        lemma_over_stays_over(state, total, events.drop_last());
    }
    assert forall|index: int| 0 <= index < events.len() implies #[trigger] state.answer(
        total,
        events,
        index,
    ) == (Step { report: Report::Nothing, action: Action::Halt }) by {
        lemma_over_stays_over(state, total, events.take(index));
    }
}

/// The state after two runs of events, one after the other, is the state
/// after their concatenation.
pub proof fn lemma_run_concat(state: RunState, total: usize, first: Seq<Event>, second: Seq<Event>)
    ensures
        state.run(total, first + second) == state.run(total, first).run(total, second),
    decreases second.len(),
{
    if second.len() == 0 {
        assert(first + second =~= first);
    } else {
        assert((first + second).drop_last() =~= first + second.drop_last());
        lemma_run_concat(state, total, first, second.drop_last());
    }
}

/// A panic ends the run. If the event at `at` is a panic and the run was not
/// over before it, the failure is reported and the failure verdict is
/// signalled in answer to it, the run is aborted from then on, and no later
/// event gets a test run, a report or a verdict.
pub proof fn lemma_panic_ends_the_run(state: RunState, total: usize, events: Seq<Event>, at: int)
    requires
        0 <= at < events.len(),
        events[at] == Event::Panic,
        !state.run(total, events.take(at)).is_terminal(),
    ensures
        state.answer(total, events, at) == (Step {
            report: Report::Failed,
            action: Action::Exit(QemuExitCode::Failed),
        }),
        state.run(total, events) == RunState::Aborted,
        forall|later: int|
            at < later < events.len() ==> #[trigger] state.answer(total, events, later) == (Step {
                report: Report::Nothing,
                action: Action::Halt,
            }),
{
    let before = state.run(total, events.take(at));
    let through = events.take(at + 1);
    assert(through.drop_last() =~= events.take(at));
    assert(state.run(total, through) == RunState::Aborted);
    assert forall|later: int| at < later <= events.len() implies state.run(
        total,
        events.take(later),
    ) == RunState::Aborted by {
        let rest = events.subrange(at + 1, later);
        assert(events.take(later) =~= through + rest);
        lemma_run_concat(state, total, through, rest);
        lemma_over_stays_over(RunState::Aborted, total, rest);
    }
    assert(events.take(events.len() as int) =~= events);
}

/// The state of a run in which nothing has panicked yet: after `count`
/// events, test `count - 1` is running, or, once the last test has returned,
/// the run is completed.
pub proof fn lemma_state_while_advancing(total: usize, events: Seq<Event>, count: int)
    requires
        0 <= count <= events.len(),
        count <= total + 1,
        all_advance(events, count),
    ensures
        RunState::Idle.run(total, events.take(count)) == if count == 0 {
            RunState::Idle
        } else if count <= total {
            RunState::Running((count - 1) as usize)
        } else {
            RunState::Completed
        },
    decreases count,
{
    if count > 0 {
        lemma_state_while_advancing(total, events, count - 1);
        assert(events.take(count).drop_last() =~= events.take(count - 1));
        assert(events.take(count).last() == events[count - 1]);
    }
}

/// If the first test panics, no other test is run and the failure verdict is
/// signalled: the run is announced and the first test run, the panic is
/// answered with the failure report and the failure verdict, and whatever
/// follows is answered with nothing.
pub proof fn lemma_first_test_panics(total: usize, events: Seq<Event>)
    requires
        total >= 1,
        events.len() >= 2,
        events[0] == Event::Advance,
        events[1] == Event::Panic,
    ensures
        RunState::Idle.answer(total, events, 0) == (Step {
            report: Report::Count(total),
            action: Action::Run(0),
        }),
        RunState::Idle.answer(total, events, 1) == (Step {
            report: Report::Failed,
            action: Action::Exit(QemuExitCode::Failed),
        }),
        forall|later: int|
            2 <= later < events.len() ==> #[trigger] RunState::Idle.answer(total, events, later) == (Step {
                report: Report::Nothing,
                action: Action::Halt,
            }),
        RunState::Idle.run(total, events) == RunState::Aborted,
{
    lemma_state_while_advancing(total, events, 0);
    lemma_state_while_advancing(total, events, 1);
    lemma_panic_ends_the_run(RunState::Idle, total, events, 1);
}

/// Tests run in order and only while all before them have passed, and
/// success is signalled only when every test has passed. In a run from the
/// start: where the answer to the event at `at` is to run a test, that test
/// is test `at`; where it is the success verdict, `at` is the number of
/// tests; and in both cases no event up to `at` was a panic.
pub proof fn lemma_tests_run_in_order(total: usize, events: Seq<Event>, at: int)
    requires
        0 <= at < events.len(),
    ensures
        RunState::Idle.answer(total, events, at).action matches Action::Run(index) ==> index == at
            && at < total && all_advance(events, at + 1),
        RunState::Idle.answer(total, events, at).action == Action::Exit(QemuExitCode::Success)
            ==> at == total && all_advance(events, at + 1),
    decreases at,
{
    let before = RunState::Idle.run(total, events.take(at));
    if at == 0 {
        assert(events.take(0) =~= Seq::<Event>::empty());
    } else {
        lemma_tests_run_in_order(total, events, at - 1);
        assert(events.take(at).drop_last() =~= events.take(at - 1));
        assert(events.take(at).last() == events[at - 1]);
        let earlier = RunState::Idle.run(total, events.take(at - 1));
        assert(before == earlier.next(total, events[at - 1]));
        if before is Running {
            assert(RunState::Idle.answer(total, events, at - 1).action is Run);
        }
    }
    lemma_run_stays_valid(RunState::Idle, total, events.take(at));
}

} // verus!
