use ble_conformance::error::HarnessError;
use ble_conformance::flash::{flash_outcome, plan_flash};
use ble_conformance::gatt::{
    CharPropFlags, CharacteristicDescriptor, ServiceDescriptor, INDICATE, NOTIFY, READ, WRITE,
};
use ble_conformance::identifier::{
    ADVERTISING_SERVICE, INDICATING_CHARACTERISTIC, NOTIFYING_CHARACTERISTIC, OTHER_SERVICE,
};
use ble_conformance::cases::{suite, TestCase};
use ble_conformance::runner::{Outcome, TestSuiteReport};
use ble_conformance::session::{resolve, Action, Event, ExitStatus, Session, Stage};

fn names(texts: &[&str]) -> Vec<String> {
    texts.iter().map(|t| String::from(*t)).collect()
}

fn discovered(id: &str) -> Event {
    Event::Discovery(Some(String::from(id)))
}

fn connected_session() -> Session {
    let mut session = Session::new(ADVERTISING_SERVICE, suite(), None);
    assert_eq!(session.step(Event::Launch), Action::StartScan(ADVERTISING_SERVICE));
    assert_eq!(session.step(discovered("dev")), Action::ListPeripherals);
    assert_eq!(session.step(Event::Peripherals(names(&["dev"]))), Action::Connect(0));
    assert_eq!(session.step(Event::Completed), Action::DiscoverServices);
    session
}

fn run_suite(outcomes: Vec<Outcome>) -> (Session, TestSuiteReport) {
    let mut session = connected_session();
    let mut action = session.step(Event::Completed);
    let mut ran = Vec::new();
    for outcome in outcomes {
        match action {
            Action::RunTest(case) => ran.push(case),
            other => panic!("a test was expected, not {:?}", other),
        }
        assert_eq!(session.stage, Stage::RunningTests);
        action = session.step(Event::TestEnded(outcome));
    }
    assert_eq!(ran, suite());
    assert_eq!(session.stage, Stage::Reported);
    match action {
        Action::Report(report) => (session, report),
        other => panic!("the report was expected, not {:?}", other),
    }
}

#[test]
fn a_session_starts_idle() {
    let session = Session::new(ADVERTISING_SERVICE, suite(), Some(3));
    assert_eq!(session.stage, Stage::Idle);
    assert_eq!(session.polls_left, Some(3));
    assert_eq!(session.device, "");
    assert_eq!(session.runner.cases, suite());
    assert!(session.runner.results.is_empty());
}

#[test]
fn the_scan_is_for_the_advertising_service() {
    let mut session = Session::new(ADVERTISING_SERVICE, suite(), None);
    assert_eq!(
        session.step(Event::Launch),
        Action::StartScan(0x46548881_E7D9_4DE1_BBB7_DB016F1C657D)
    );
    assert_eq!(session.stage, Stage::Scanning);
}

#[test]
fn the_scan_is_for_the_service_given() {
    let mut session = Session::new(0xfeed, suite(), None);
    assert_eq!(session.target, 0xfeed);
    assert_eq!(session.step(Event::Launch), Action::StartScan(0xfeed));
    session.step(discovered("d"));
    assert_eq!(session.target, 0xfeed);
}

#[test]
fn scan_events_other_than_a_discovery_are_passed_over() {
    let mut session = Session::new(ADVERTISING_SERVICE, suite(), None);
    session.step(Event::Launch);
    for _ in 0..5 {
        assert_eq!(session.step(Event::Discovery(None)), Action::AwaitEvent);
        assert_eq!(session.stage, Stage::Scanning);
    }
    assert_eq!(session.step(discovered("hci0/dev_AA")), Action::ListPeripherals);
    assert_eq!(session.stage, Stage::DeviceFound);
    assert_eq!(session.device, "hci0/dev_AA");
}

#[test]
fn the_peripherals_are_listed_until_the_device_is_among_them() {
    let mut session = Session::new(ADVERTISING_SERVICE, suite(), None);
    session.step(Event::Launch);
    session.step(discovered("b"));
    for _ in 0..100 {
        assert_eq!(session.step(Event::Peripherals(names(&["a", "c"]))), Action::ListPeripherals);
        assert_eq!(session.stage, Stage::DeviceFound);
    }
    assert_eq!(session.step(Event::Peripherals(Vec::new())), Action::ListPeripherals);
    assert_eq!(session.step(Event::Peripherals(names(&["a", "c", "b", "b"]))), Action::Connect(2));
    assert_eq!(session.stage, Stage::Connecting);
    assert_eq!(session.polls_left, None);
}

#[test]
fn a_poll_limit_bounds_the_listings() {
    let mut session = Session::new(ADVERTISING_SERVICE, suite(), Some(2));
    session.step(Event::Launch);
    assert_eq!(session.step(discovered("b")), Action::ListPeripherals);
    assert_eq!(session.polls_left, Some(1));
    assert_eq!(session.step(Event::Peripherals(names(&["a"]))), Action::ListPeripherals);
    assert_eq!(session.polls_left, Some(0));
    assert_eq!(
        session.step(Event::Peripherals(names(&["a"]))),
        Action::Exit(ExitStatus::Failure(HarnessError::DeviceNotResolved))
    );
    assert_eq!(session.stage, Stage::Terminal(ExitStatus::Failure(HarnessError::DeviceNotResolved)));
}

#[test]
fn the_last_listing_allowed_may_still_resolve_the_device() {
    let mut session = Session::new(ADVERTISING_SERVICE, suite(), Some(1));
    session.step(Event::Launch);
    assert_eq!(session.step(discovered("b")), Action::ListPeripherals);
    assert_eq!(session.polls_left, Some(0));
    assert_eq!(session.step(Event::Peripherals(names(&["b"]))), Action::Connect(0));
}

#[test]
fn a_poll_limit_of_zero_allows_no_listing() {
    let mut session = Session::new(ADVERTISING_SERVICE, suite(), Some(0));
    session.step(Event::Launch);
    assert_eq!(
        session.step(discovered("b")),
        Action::Exit(ExitStatus::Failure(HarnessError::DeviceNotResolved))
    );
    assert_eq!(session.device, "");
}

#[test]
fn the_end_of_the_scan_events_without_a_device_is_fatal() {
    let mut session = Session::new(ADVERTISING_SERVICE, suite(), None);
    session.step(Event::Launch);
    session.step(Event::Discovery(None));
    assert_eq!(
        session.step(Event::StreamEnded),
        Action::Exit(ExitStatus::Failure(HarnessError::DeviceNotFound))
    );
    assert!(session.runner.results.is_empty());
}

#[test]
fn resolving_finds_the_first_of_the_known_peripherals() {
    let known = names(&["x", "y", "x"]);
    assert_eq!(resolve(&known, &String::from("x")), Some(0));
    assert_eq!(resolve(&known, &String::from("y")), Some(1));
    assert_eq!(resolve(&known, &String::from("z")), None);
    assert_eq!(resolve(&Vec::new(), &String::from("x")), None);
    assert_eq!(resolve(&known, &String::from("")), None);
}

#[test]
fn all_four_tests_pass() {
    let (mut session, report) =
        run_suite(vec![Outcome::Pass, Outcome::Pass, Outcome::Pass, Outcome::Pass]);
    assert_eq!(report, TestSuiteReport { total: 4, passed: 4, failed: 0 });
    assert_eq!(report.summary(), "4/4 passed, 0/4 failed");
    assert_eq!(session.step(Event::Completed), Action::Exit(ExitStatus::Success));
    assert_eq!(session.stage, Stage::Terminal(ExitStatus::Success));
}

#[test]
fn one_characteristics_test_fails_on_a_property_mismatch() {
    let services = vec![ServiceDescriptor {
        identifier: OTHER_SERVICE,
        characteristics: vec![
            CharacteristicDescriptor {
                identifier: NOTIFYING_CHARACTERISTIC,
                properties: CharPropFlags::from_bits(READ | NOTIFY),
            },
            CharacteristicDescriptor {
                identifier: INDICATING_CHARACTERISTIC,
                properties: CharPropFlags::from_bits(READ | INDICATE | WRITE),
            },
        ],
    }];
    let failed = Outcome::of(&TestCase::OtherServiceCharacteristics.judge(&services).unwrap());
    assert_eq!(
        failed,
        Outcome::Fail(String::from(
            "Expected characteristic properties to be CharPropFlags(READ | INDICATE), found \
             CharPropFlags(READ | WRITE | INDICATE)"
        ))
    );
    let (mut session, report) = run_suite(vec![Outcome::Pass, Outcome::Pass, failed, Outcome::Pass]);
    assert_eq!(report.summary(), "3/4 passed, 1/4 failed");
    assert_eq!(
        session.step(Event::Completed),
        Action::Exit(ExitStatus::Failure(HarnessError::TestsFailed))
    );
    assert_eq!(session.stage, Stage::Terminal(ExitStatus::Failure(HarnessError::TestsFailed)));
    assert_eq!(session.runner.results.len(), 4);
}

#[test]
fn every_test_runs_though_all_fail() {
    let fail = || Outcome::Fail(String::from("broken"));
    let (mut session, report) = run_suite(vec![fail(), fail(), fail(), fail()]);
    assert_eq!(report, TestSuiteReport { total: 4, passed: 0, failed: 4 });
    assert_eq!(report.summary(), "0/4 passed, 4/4 failed");
    assert_eq!(
        session.step(Event::Completed),
        Action::Exit(ExitStatus::Failure(HarnessError::TestsFailed))
    );
}

#[test]
fn an_empty_suite_is_reported_at_once() {
    let mut session = Session::new(ADVERTISING_SERVICE, Vec::new(), None);
    session.step(Event::Launch);
    session.step(discovered("d"));
    session.step(Event::Peripherals(names(&["d"])));
    session.step(Event::Completed);
    assert_eq!(
        session.step(Event::Completed),
        Action::Report(TestSuiteReport { total: 0, passed: 0, failed: 0 })
    );
    assert_eq!(session.step(Event::Completed), Action::Exit(ExitStatus::Success));
}

#[test]
fn a_missing_firmware_path_ends_the_session_before_any_scan() {
    let error = plan_flash("no/such/firmware", false).unwrap_err();
    assert_eq!(error, HarnessError::PathNotFound);
    assert_eq!(error.message(), "Path does not exist.");
    let mut session = Session::new(ADVERTISING_SERVICE, suite(), None);
    assert_eq!(
        session.step(Event::Fault(error)),
        Action::Exit(ExitStatus::Failure(HarnessError::PathNotFound))
    );
    assert_eq!(
        session.step(Event::Launch),
        Action::Exit(ExitStatus::Failure(HarnessError::PathNotFound))
    );
    assert_eq!(session.stage, Stage::Terminal(ExitStatus::Failure(HarnessError::PathNotFound)));
}

#[test]
fn the_flash_command_is_fixed() {
    let command = plan_flash("firmware/server", true).unwrap();
    assert_eq!(command.program, "cargo");
    assert_eq!(command.directory, "firmware/server");
    assert_eq!(
        command.arguments,
        vec!["espflash", "flash", "--example", "server", "--release", "--baud", "921600"]
    );
}

#[test]
fn a_failure_status_of_the_flash_command_is_fatal() {
    assert_eq!(flash_outcome(true), Ok(()));
    let error = flash_outcome(false).unwrap_err();
    assert_eq!(error, HarnessError::SubprocessFailure);
    assert_eq!(error.message(), "Flashing failed.");
}

#[test]
fn a_fault_is_fatal_at_every_stage_before_the_end() {
    let faults = [
        HarnessError::AdapterUnavailable,
        HarnessError::ConnectionFailure,
        HarnessError::SubprocessFailure,
    ];
    for steps in 0..6 {
        for fault in faults {
            let mut session = Session::new(ADVERTISING_SERVICE, suite(), None);
            let events = vec![
                Event::Launch,
                discovered("d"),
                Event::Peripherals(names(&["d"])),
                Event::Completed,
                Event::Completed,
            ];
            for event in events.into_iter().take(steps) {
                session.step(event);
            }
            assert_eq!(session.step(Event::Fault(fault)), Action::Exit(ExitStatus::Failure(fault)));
            assert_eq!(session.stage, Stage::Terminal(ExitStatus::Failure(fault)));
        }
    }
}

#[test]
fn an_event_that_the_stage_does_not_take_ends_the_session() {
    let unexpected = Action::Exit(ExitStatus::Failure(HarnessError::UnexpectedEvent));
    let mut session = Session::new(ADVERTISING_SERVICE, suite(), None);
    assert_eq!(session.step(Event::Completed), unexpected);

    let mut session = Session::new(ADVERTISING_SERVICE, suite(), None);
    session.step(Event::Launch);
    assert_eq!(session.step(Event::Launch), unexpected);

    let mut session = Session::new(ADVERTISING_SERVICE, suite(), None);
    session.step(Event::Launch);
    session.step(discovered("d"));
    assert_eq!(session.step(discovered("d")), unexpected);

    let mut session = connected_session();
    assert_eq!(session.step(Event::TestEnded(Outcome::Pass)), unexpected);

    let mut session = connected_session();
    assert_eq!(session.step(Event::Completed), Action::RunTest(TestCase::ServiceList));
    assert_eq!(session.step(Event::Completed), unexpected);
    assert!(session.runner.results.is_empty());
}

#[test]
fn a_session_that_is_over_stays_over() {
    let (mut session, _) =
        run_suite(vec![Outcome::Pass, Outcome::Pass, Outcome::Pass, Outcome::Pass]);
    session.step(Event::Completed);
    for event in [
        Event::Launch,
        Event::StreamEnded,
        Event::Fault(HarnessError::ConnectionFailure),
        Event::TestEnded(Outcome::Fail(String::from("late"))),
        discovered("again"),
    ] {
        assert_eq!(session.step(event), Action::Exit(ExitStatus::Success));
        assert_eq!(session.stage, Stage::Terminal(ExitStatus::Success));
    }
    assert_eq!(session.runner.results.len(), 4);
    assert_eq!(session.device, "dev");
}

#[test]
fn errors_have_their_lines() {
    assert_eq!(HarnessError::PathNotFound.message(), "Path does not exist.");
    assert_eq!(HarnessError::SubprocessFailure.message(), "Flashing failed.");
    assert_eq!(HarnessError::AdapterUnavailable.message(), "No adapters found.");
    assert_eq!(HarnessError::ConnectionFailure.message(), "Connection failed.");
    assert_eq!(HarnessError::DeviceNotFound.message(), "No device found.");
    assert_eq!(
        HarnessError::DeviceNotResolved.message(),
        "Device not among the known peripherals."
    );
    assert_eq!(HarnessError::TestsFailed.message(), "Tests failed.");
    assert_eq!(HarnessError::UnexpectedEvent.message(), "Unexpected event.");
}
