//! The session: from the start of the program to its exit.
//!
//! A session goes through its stages once and never back: it scans for the
//! device, finds it among the known peripherals, connects, runs the suite
//! test by test, reports, and ends. The program performs each [`Action`] and
//! hands back what came of it as an [`Event`]; [`Session::step`] decides what
//! follows. One device, one connection, one run.

use vstd::prelude::*;

use crate::error::HarnessError;
use crate::cases::TestCase;
use crate::runner::{failed_count, passed_count, recorded, Outcome, TestRunner, TestSuiteReport};
use crate::search::{first_at, first_position, lemma_first_position};

verus! {

/// How the program ends.
#[derive(Clone, Copy, Debug, PartialEq, Eq, Structural)]
pub enum ExitStatus {
    Success,
    Failure(HarnessError),
}

/// The stages of a session, in the order in which it goes through them.
#[derive(Clone, Copy, Debug, PartialEq, Eq, Structural)]
pub enum Stage {
    /// Nothing has happened yet.
    Idle,
    /// The scan runs; discovery events are awaited.
    Scanning,
    /// The device was seen; it is looked for among the known peripherals.
    DeviceFound,
    /// The connection is being made.
    Connecting,
    /// Connected; the services are being discovered.
    Connected,
    /// The tests run, one at a time.
    RunningTests,
    /// All tests have run; the report is being given.
    Reported,
    /// The session is over.
    Terminal(ExitStatus),
}

impl Stage {
    /// The place of the stage in the order of the stages.
    pub open spec fn rank(self) -> nat {
        match self {
            Stage::Idle => 0,
            Stage::Scanning => 1,
            Stage::DeviceFound => 2,
            Stage::Connecting => 3,
            Stage::Connected => 4,
            Stage::RunningTests => 5,
            Stage::Reported => 6,
            Stage::Terminal(_) => 7,
        }
    }
}

/// What the program hands to the session.
#[derive(Clone, Debug, PartialEq, Eq)]
pub enum Event {
    /// The program has started and, if asked to, flashed the firmware.
    Launch,
    /// An event of the scan: the discovery of a device, with its
    /// identifier, or any other, which is of no interest.
    Discovery(Option<String>),
    /// The stream of scan events has ended.
    StreamEnded,
    /// The identifiers of the peripherals that are known now, in the order listed.
    Peripherals(Vec<String>),
    /// The action that was asked for is done.
    Completed,
    /// The test that was asked for has ended.
    TestEnded(Outcome),
    /// The action that was asked for failed for good.
    Fault(HarnessError),
}

/// What the session asks of the program.
#[derive(Clone, Copy, Debug, PartialEq, Eq, Structural)]
pub enum Action {
    /// Start a scan for peripherals that advertise the service, then hand
    /// back the next scan event.
    StartScan(u128),
    /// Hand back the next scan event.
    AwaitEvent,
    /// Hand back the list of the peripherals that are known now.
    ListPeripherals,
    /// Connect to the peripheral at this place of the list handed back last.
    Connect(usize),
    /// Discover the services of the connected peripheral.
    DiscoverServices,
    /// Run this test and hand back its outcome.
    RunTest(TestCase),
    /// Give this report.
    Report(TestSuiteReport),
    /// End the program with this status.
    Exit(ExitStatus),
}

/// A session: its stage, the service by whose advertisement the device is
/// known, the identifier of the device once it was seen, how often the known
/// peripherals may still be listed (no bound if none), and the runner of the
/// suite.
pub struct Session {
    pub stage: Stage,
    pub target: u128,
    pub device: String,
    pub polls_left: Option<u64>,
    pub runner: TestRunner,
}

/// The texts of a list of identifiers.
pub open spec fn texts(names: Seq<String>) -> Seq<Seq<char>> {
    Seq::new(names.len(), |i: int| names[i]@)
}

/// One listing fewer is left, where listings are counted at all.
pub open spec fn one_poll_fewer(polls_left: Option<u64>) -> Option<u64> {
    match polls_left {
        Some(n) => Some((n - 1) as u64),
        None => None,
    }
}

/// The report over the results of a run.
pub open spec fn report_of(results: Seq<crate::runner::TestResult>) -> TestSuiteReport {
    TestSuiteReport {
        total: results.len() as usize,
        passed: passed_count(results) as usize,
        failed: failed_count(results) as usize,
    }
}

impl Session {
    /// The runner is sound, no test has a result before the tests run,
    /// and the stages after the tests are reached only with all results in.
    pub open spec fn wf(self) -> bool {
        &&& self.runner.wf()
        &&& self.stage.rank() < Stage::RunningTests.rank() ==> self.runner.results@.len() == 0
        &&& self.stage is RunningTests ==> !self.runner.done()
        &&& self.stage is Reported ==> self.runner.done()
        &&& self.stage == Stage::Terminal(ExitStatus::Success) ==> self.runner.done()
            && failed_count(self.runner.results@) == 0
    }

    /// Nothing but the stage differs between the two.
    pub open spec fn same_but_stage(self, other: Session) -> bool {
        &&& self.target == other.target
        &&& self.device@ == other.device@
        &&& self.polls_left == other.polls_left
        &&& self.runner.cases@ == other.runner.cases@
        &&& self.runner.results@ == other.runner.results@
    }

    /// The session ends here in failure.
    pub open spec fn fails(self, next: Session, action: Action, error: HarnessError) -> bool {
        &&& next.stage == Stage::Terminal(ExitStatus::Failure(error))
        &&& action == Action::Exit(ExitStatus::Failure(error))
        &&& self.same_but_stage(next)
    }

    /// The session goes on to `stage` with `action` and is otherwise unchanged.
    pub open spec fn moves(self, next: Session, action: Action, stage: Stage, asked: Action)
        -> bool {
        &&& next.stage == stage
        &&& action == asked
        &&& self.same_but_stage(next)
    }

    /// What follows in a session that has not started.
    pub open spec fn idle_step(self, event: Event, next: Session, action: Action) -> bool {
        match event {
            Event::Launch => self.moves(
                next,
                action,
                Stage::Scanning,
                Action::StartScan(self.target),
            ),
            _ => self.fails(next, action, HarnessError::UnexpectedEvent),
        }
    }

    /// What follows while the scan runs. Only the discovery of a device
    /// leads on; every other scan event is passed over.
    pub open spec fn scanning_step(self, event: Event, next: Session, action: Action) -> bool {
        match event {
            Event::Discovery(Some(id)) => if self.polls_left == Some(0u64) {
                self.fails(next, action, HarnessError::DeviceNotResolved)
            } else {
                &&& next.stage == Stage::DeviceFound
                &&& action == Action::ListPeripherals
                &&& next.target == self.target
                &&& next.device@ == id@
                &&& next.polls_left == one_poll_fewer(self.polls_left)
                &&& next.runner.cases@ == self.runner.cases@
                &&& next.runner.results@ == self.runner.results@
            },
            Event::Discovery(None) => self.moves(next, action, Stage::Scanning, Action::AwaitEvent),
            Event::StreamEnded => self.fails(next, action, HarnessError::DeviceNotFound),
            _ => self.fails(next, action, HarnessError::UnexpectedEvent),
        }
    }

    /// What follows while the device is looked for: the connection, once
    /// the device is among the known peripherals; until then another
    /// listing, as long as one is left.
    pub open spec fn device_found_step(self, event: Event, next: Session, action: Action) -> bool {
        match event {
            Event::Peripherals(known) => if texts(known@).contains(self.device@) {
                self.moves(
                    next,
                    action,
                    Stage::Connecting,
                    Action::Connect(first_position(texts(known@), self.device@) as usize),
                )
            } else if self.polls_left == Some(0u64) {
                self.fails(next, action, HarnessError::DeviceNotResolved)
            } else {
                &&& next.stage == Stage::DeviceFound
                &&& action == Action::ListPeripherals
                &&& next.target == self.target
                &&& next.device@ == self.device@
                &&& next.polls_left == one_poll_fewer(self.polls_left)
                &&& next.runner.cases@ == self.runner.cases@
                &&& next.runner.results@ == self.runner.results@
            },
            _ => self.fails(next, action, HarnessError::UnexpectedEvent),
        }
    }

    /// What follows while the connection is made.
    pub open spec fn connecting_step(self, event: Event, next: Session, action: Action) -> bool {
        match event {
            Event::Completed => self.moves(
                next,
                action,
                Stage::Connected,
                Action::DiscoverServices,
            ),
            _ => self.fails(next, action, HarnessError::UnexpectedEvent),
        }
    }

    /// The session goes on to the first test without a result, or to the
    /// report if no test is left.
    pub open spec fn proceeds(self, next: Session, action: Action) -> bool {
        if next.runner.done() {
            &&& next.stage == Stage::Reported
            &&& action == Action::Report(report_of(next.runner.results@))
        } else {
            &&& next.stage == Stage::RunningTests
            &&& action == Action::RunTest(next.runner.cases@[next.runner.results@.len() as int])
        }
    }

    /// What follows once the services are discovered: the first test, or
    /// the report at once if the suite is empty.
    pub open spec fn connected_step(self, event: Event, next: Session, action: Action) -> bool {
        match event {
            Event::Completed => self.same_but_stage(next) && self.proceeds(next, action),
            _ => self.fails(next, action, HarnessError::UnexpectedEvent),
        }
    }

    /// What follows when a test has ended: its result is kept, whatever
    /// it is, and the next test runs, or the report is given after the last.
    pub open spec fn running_step(self, event: Event, next: Session, action: Action) -> bool {
        match event {
            Event::TestEnded(outcome) => {
                &&& next.target == self.target
                &&& next.device@ == self.device@
                &&& next.polls_left == self.polls_left
                &&& next.runner.cases@ == self.runner.cases@
                &&& if self.runner.done() {
                    next.runner.results@ == self.runner.results@
                } else {
                    recorded(
                        self.runner.results@,
                        next.runner.results@,
                        self.runner.cases@[self.runner.results@.len() as int],
                        outcome,
                    )
                }
                &&& self.proceeds(next, action)
            },
            _ => self.fails(next, action, HarnessError::UnexpectedEvent),
        }
    }

    /// What follows the report: success if no test failed, failure otherwise.
    pub open spec fn reported_step(self, event: Event, next: Session, action: Action) -> bool {
        match event {
            Event::Completed => if failed_count(self.runner.results@) == 0 {
                self.moves(
                    next,
                    action,
                    Stage::Terminal(ExitStatus::Success),
                    Action::Exit(ExitStatus::Success),
                )
            } else {
                self.fails(next, action, HarnessError::TestsFailed)
            },
            _ => self.fails(next, action, HarnessError::UnexpectedEvent),
        }
    }

    /// The step of a session: on `event`, `self` becomes `next` and asks for
    /// `action`. A session that is over stays as it is. A fault ends any
    /// other session in failure. Otherwise the stage decides.
    pub open spec fn steps_to(self, event: Event, next: Session, action: Action) -> bool {
        if let Stage::Terminal(status) = self.stage {
            self.moves(next, action, self.stage, Action::Exit(status))
        } else if let Event::Fault(error) = event {
            self.fails(next, action, error)
        } else {
            match self.stage {
                Stage::Idle => self.idle_step(event, next, action),
                Stage::Scanning => self.scanning_step(event, next, action),
                Stage::DeviceFound => self.device_found_step(event, next, action),
                Stage::Connecting => self.connecting_step(event, next, action),
                Stage::Connected => self.connected_step(event, next, action),
                Stage::RunningTests => self.running_step(event, next, action),
                Stage::Reported => self.reported_step(event, next, action),
                Stage::Terminal(_) => true,
            }
        }
    }

    /// A session that has not started: it will scan for a device that
    /// advertises the service `target` and run the given cases against it.
    /// `poll_limit` is how often the known peripherals may be listed while the
    /// device is looked for; without one they are listed until the device
    /// appears.
    pub fn new(target: u128, cases: Vec<TestCase>, poll_limit: Option<u64>) -> (session: Session)
        ensures
            session.wf(),
            session.stage == Stage::Idle,
            session.target == target,
            session.device@.len() == 0,
            session.polls_left == poll_limit,
            session.runner.cases@ == cases@,
            session.runner.results@.len() == 0,
    {
        Session {
            stage: Stage::Idle,
            target,
            device: String::new(),
            polls_left: poll_limit,
            runner: TestRunner::new(cases),
        }
    }

    /// Ends the session in failure.
    fn fail(&mut self, error: HarnessError) -> (action: Action)
        ensures
            old(self).wf() ==> final(self).wf(),
            old(self).fails(*final(self), action, error),
    {
        self.stage = Stage::Terminal(ExitStatus::Failure(error));
        Action::Exit(ExitStatus::Failure(error))
    }

    /// Takes one listing from those that are left and asks for it, or ends
    /// the session if none is left.
    fn poll(&mut self) -> (action: Action)
        ensures
            old(self).wf() && old(self).stage.rank() < Stage::RunningTests.rank()
                ==> final(self).wf(),
            final(self).target == old(self).target,
            final(self).device@ == old(self).device@,
            final(self).runner.cases@ == old(self).runner.cases@,
            final(self).runner.results@ == old(self).runner.results@,
            if old(self).polls_left == Some(0u64) {
                old(self).fails(*final(self), action, HarnessError::DeviceNotResolved)
            } else {
                &&& final(self).stage == Stage::DeviceFound
                &&& action == Action::ListPeripherals
                &&& final(self).polls_left == one_poll_fewer(old(self).polls_left)
            },
    {
        match self.polls_left {
            Some(left) => {
                if left == 0 {
                    return self.fail(HarnessError::DeviceNotResolved);
                }
                self.polls_left = Some(left - 1);
            },
            None => {},
        }
        self.stage = Stage::DeviceFound;
        Action::ListPeripherals
    }

    /// Decides what follows `event`.
    pub fn step(&mut self, event: Event) -> (action: Action)
        ensures
            old(self).wf() ==> final(self).wf(),
            old(self).steps_to(event, *final(self), action),
    {
        if let Stage::Terminal(status) = self.stage {
            return Action::Exit(status);
        }
        if let Event::Fault(error) = event {
            return self.fail(error);
        }
        match self.stage {
            Stage::Idle => match event {
                Event::Launch => {
                    self.stage = Stage::Scanning;
                    Action::StartScan(self.target)
                },
                _ => self.fail(HarnessError::UnexpectedEvent),
            },
            Stage::Scanning => match event {
                Event::Discovery(Some(id)) => {
                    let action = self.poll();
                    if let Action::ListPeripherals = action {
                        self.device = id;
                    }
                    action
                },
                Event::Discovery(None) => Action::AwaitEvent,
                Event::StreamEnded => self.fail(HarnessError::DeviceNotFound),
                _ => self.fail(HarnessError::UnexpectedEvent),
            },
            Stage::DeviceFound => match event {
                Event::Peripherals(known) => match resolve(&known, &self.device) {
                    Some(at) => {
                        proof {
                            lemma_first_position(texts(known@), self.device@, at as int);
                        }
                        self.stage = Stage::Connecting;
                        Action::Connect(at)
                    },
                    None => self.poll(),
                },
                _ => self.fail(HarnessError::UnexpectedEvent),
            },
            Stage::Connecting => match event {
                Event::Completed => {
                    self.stage = Stage::Connected;
                    Action::DiscoverServices
                },
                _ => self.fail(HarnessError::UnexpectedEvent),
            },
            Stage::Connected => match event {
                Event::Completed => self.proceed(),
                _ => self.fail(HarnessError::UnexpectedEvent),
            },
            Stage::RunningTests => match event {
                Event::TestEnded(outcome) => {
                    let _ = self.runner.record(outcome);
                    self.proceed()
                },
                _ => self.fail(HarnessError::UnexpectedEvent),
            },
            Stage::Reported => match event {
                Event::Completed => {
                    if self.runner.report().is_success() {
                        self.stage = Stage::Terminal(ExitStatus::Success);
                        Action::Exit(ExitStatus::Success)
                    } else {
                        self.fail(HarnessError::TestsFailed)
                    }
                },
                _ => self.fail(HarnessError::UnexpectedEvent),
            },
            Stage::Terminal(status) => Action::Exit(status),
        }
    }

    /// Asks for the next test, or for the report when all tests have run.
    fn proceed(&mut self) -> (action: Action)
        ensures
            old(self).same_but_stage(*final(self)),
            old(self).proceeds(*final(self), action),
    {
        match self.runner.next() {
            Some(case) => {
                self.stage = Stage::RunningTests;
                Action::RunTest(case)
            },
            None => {
                self.stage = Stage::Reported;
                Action::Report(self.runner.report())
            },
        }
    }
}

/// The place of the first of `known` whose text is that of `wanted`, if there is one.
pub fn resolve(known: &Vec<String>, wanted: &String) -> (at: Option<usize>)
    ensures
        match at {
            Some(i) => first_at(texts(known@), wanted@, i as int),
            None => !texts(known@).contains(wanted@),
        },
{
    let mut i: usize = 0;
    while i < known.len()
        invariant
            i <= known.len(),
            forall|j: int| 0 <= j < i ==> texts(known@)[j] != wanted@,
        decreases known.len() - i,
    {
        if known[i] == *wanted {
            return Some(i);
        }
        i += 1;
    }
    None
}

/// A sound session stays sound: what holds of a new session holds after
/// every step, whatever the events.
pub proof fn lemma_step_keeps_wf(session: Session, event: Event, next: Session, action: Action)
    requires
        session.wf(),
        session.steps_to(event, next, action),
    ensures
        next.wf(),
{
    if session.stage is RunningTests && event is TestEnded {
        let before = session.runner.results@;
        let after = next.runner.results@;
        assert forall|i: int| 0 <= i < after.len() implies (#[trigger] after[i]).name@
            == next.runner.cases@[i].name_text() by {
            if i < before.len() {
                assert(after.drop_last()[i] == before[i]);
            }
        }
    }
}

/// No stage leads back to scanning: a session that scans after a step
/// was idle or scanning before it.
pub proof fn lemma_no_way_back_to_scanning(
    session: Session,
    event: Event,
    next: Session,
    action: Action,
)
    requires
        session.steps_to(event, next, action),
        next.stage is Scanning,
    ensures
        session.stage is Idle || session.stage is Scanning,
{
}

/// Once the device was seen the scan is left alone: a scan event is asked
/// for only by a session that was idle or scanning, and leaves it scanning.
pub proof fn lemma_scan_is_abandoned(session: Session, event: Event, next: Session, action: Action)
    requires
        session.steps_to(event, next, action),
        action is StartScan || action is AwaitEvent,
    ensures
        session.stage is Idle || session.stage is Scanning,
        next.stage is Scanning,
{
}

/// One connection is made in a session: it is asked for only when the
/// device turns up among the known peripherals, at the place where it is
/// first listed, and the session never comes back to look for it.
pub proof fn lemma_one_connection(
    session: Session,
    event: Event,
    next: Session,
    action: Action,
    index: usize,
)
    requires
        session.steps_to(event, next, action),
        action == Action::Connect(index),
    ensures
        session.stage is DeviceFound,
        next.stage is Connecting,
        event matches Event::Peripherals(known) && first_at(
            texts(known@),
            session.device@,
            index as int,
        ),
{
    if let Event::Peripherals(known) = event {
        crate::search::lemma_first_position_exists(texts(known@), session.device@);
        assert(known.len() == known@.len());
    }
}

/// The stages are gone through in their order: no step leads to an earlier stage.
pub proof fn lemma_stages_in_order(session: Session, event: Event, next: Session, action: Action)
    requires
        session.steps_to(event, next, action),
    ensures
        session.stage.rank() <= next.stage.rank(),
{
}

/// A session that is over stays as it is and asks for its exit again,
/// whatever it is handed.
pub proof fn lemma_terminal_is_final(session: Session, event: Event, next: Session, action: Action)
    requires
        session.steps_to(event, next, action),
        session.stage is Terminal,
    ensures
        next.stage == session.stage,
        action == Action::Exit(session.stage->Terminal_0),
        session.same_but_stage(next),
{
}

/// A fault ends a running session at once, with the error of the fault:
/// nothing is retried.
pub proof fn lemma_fault_is_fatal(
    session: Session,
    error: HarnessError,
    next: Session,
    action: Action,
)
    requires
        session.steps_to(Event::Fault(error), next, action),
        !(session.stage is Terminal),
    ensures
        next.stage == Stage::Terminal(ExitStatus::Failure(error)),
        action == Action::Exit(ExitStatus::Failure(error)),
{
}

/// The tests run strictly one after the other, in the order of the
/// suite: the test that is asked for is the first without a result, and
/// each step adds the result of one test at most.
pub proof fn lemma_tests_in_order(
    session: Session,
    event: Event,
    next: Session,
    action: Action,
    case: TestCase,
)
    requires
        session.wf(),
        session.steps_to(event, next, action),
        action == Action::RunTest(case),
    ensures
        next.stage is RunningTests,
        next.runner.results@.len() < next.runner.cases@.len(),
        case == next.runner.cases@[next.runner.results@.len() as int],
        next.runner.results@.len() == if session.stage is RunningTests {
            session.runner.results@.len() + 1
        } else {
            0
        },
{
}

/// A failed test does not end the run: its result is kept like any other
/// and the session goes on to the next test or to the report.
pub proof fn lemma_failure_does_not_stop_the_run(
    session: Session,
    outcome: Outcome,
    next: Session,
    action: Action,
)
    requires
        session.wf(),
        session.stage is RunningTests,
        session.steps_to(Event::TestEnded(outcome), next, action),
    ensures
        next.stage is RunningTests || next.stage is Reported,
        next.runner.results@.len() == session.runner.results@.len() + 1,
        next.runner.results@.last().outcome == outcome,
        next.stage is Reported <==> next.runner.done(),
{
}

/// No step takes a result back or changes one, nor the cases of the
/// suite: the results before a step are the first of those after it.
pub proof fn lemma_results_are_kept(session: Session, event: Event, next: Session, action: Action)
    requires
        session.steps_to(event, next, action),
    ensures
        next.runner.cases@ == session.runner.cases@,
        next.runner.results@.len() >= session.runner.results@.len(),
        next.runner.results@.take(session.runner.results@.len() as int)
            == session.runner.results@,
{
    assert(next.runner.results@.take(session.runner.results@.len() as int)
        =~= session.runner.results@);
}

/// The report that a session asks for counts every test of the suite
/// once, as passed or as failed.
pub proof fn lemma_report_is_complete(
    session: Session,
    event: Event,
    next: Session,
    action: Action,
    report: TestSuiteReport,
)
    requires
        session.wf(),
        session.steps_to(event, next, action),
        action == Action::Report(report),
    ensures
        report.total == next.runner.cases@.len(),
        report.passed == passed_count(next.runner.results@),
        report.failed == failed_count(next.runner.results@),
        report.passed + report.failed == report.total,
{
    crate::runner::lemma_counts_add_up(next.runner.results@);
    assert(next.runner.results.len() == next.runner.results@.len());
}

/// A session ends in success only after the report of a run in which
/// every test of the suite ran and none failed; a run with a failed test ends
/// in failure.
pub proof fn lemma_success_iff_clean_run(
    session: Session,
    event: Event,
    next: Session,
    action: Action,
)
    requires
        session.wf(),
        session.steps_to(event, next, action),
        !(session.stage is Terminal),
    ensures
        next.stage == Stage::Terminal(ExitStatus::Success) <==> session.stage is Reported && event
            == Event::Completed && failed_count(session.runner.results@) == 0,
        next.stage == Stage::Terminal(ExitStatus::Success) ==> next.runner.done() && passed_count(
            next.runner.results@,
        ) == next.runner.cases@.len(),
{
    crate::runner::lemma_counts_add_up(session.runner.results@);
}

} // verus!
