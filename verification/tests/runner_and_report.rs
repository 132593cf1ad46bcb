use ble_conformance::failure::Failure;
use ble_conformance::gatt::{CharPropFlags, READ, WRITE};
use ble_conformance::cases::{suite, TestCase};
use ble_conformance::runner::{Outcome, TestResult, TestRunner, TestSuiteReport};

fn result(name: &str, passed: bool) -> TestResult {
    let outcome = if passed { Outcome::Pass } else { Outcome::Fail(String::from("no")) };
    TestResult { name: String::from(name), outcome }
}

#[test]
fn the_suite_holds_the_four_cases_in_order() {
    assert_eq!(
        suite(),
        vec![
            TestCase::ServiceList,
            TestCase::AdvertisingServiceCharacteristics,
            TestCase::OtherServiceCharacteristics,
            TestCase::WriteWithoutResponseStress,
        ]
    );
}

#[test]
fn cases_have_their_names() {
    assert_eq!(TestCase::ServiceList.name(), "Service list");
    assert_eq!(
        TestCase::AdvertisingServiceCharacteristics.name(),
        "Advertising service characteristics"
    );
    assert_eq!(TestCase::OtherServiceCharacteristics.name(), "Advertising service characteristics");
    assert_eq!(TestCase::WriteWithoutResponseStress.name(), "Write stress test");
}

#[test]
fn an_outcome_carries_the_diagnostic_of_the_failure() {
    assert_eq!(Outcome::of(&Ok(())), Outcome::Pass);
    assert!(Outcome::of(&Ok(())).passed());
    let outcome = Outcome::of(&Err(Failure::ServiceCount { found: 5 }));
    assert_eq!(outcome, Outcome::Fail(String::from("Expected 2 services, found 5")));
    assert!(!outcome.passed());
    let mismatch = Failure::PropertyMismatch {
        expected: CharPropFlags::from_bits(READ),
        found: CharPropFlags::from_bits(WRITE),
    };
    assert_eq!(
        Outcome::of(&Err(mismatch)),
        Outcome::Fail(String::from(
            "Expected characteristic properties to be CharPropFlags(READ), found \
             CharPropFlags(WRITE)"
        ))
    );
}

#[test]
fn the_report_of_no_results_is_empty() {
    let report = TestSuiteReport::from_results(&Vec::new());
    assert_eq!(report, TestSuiteReport { total: 0, passed: 0, failed: 0 });
    assert!(report.is_success());
    assert_eq!(report.summary(), "0/0 passed, 0/0 failed");
}

#[test]
fn passed_and_failed_add_up_whichever_tests_fail() {
    for subset in 0u32..16 {
        let results: Vec<TestResult> =
            (0..4).map(|i| result("case", subset & (1 << i) != 0)).collect();
        let report = TestSuiteReport::from_results(&results);
        assert_eq!(report.total, 4);
        assert_eq!(report.passed, subset.count_ones() as usize);
        assert_eq!(report.failed, 4 - subset.count_ones() as usize);
        assert_eq!(report.passed + report.failed, report.total);
        assert_eq!(report.is_success(), subset == 15);
    }
}

#[test]
fn summary_of_a_clean_run() {
    let report = TestSuiteReport { total: 4, passed: 4, failed: 0 };
    assert_eq!(report.summary(), "4/4 passed, 0/4 failed");
    assert!(report.is_success());
}

#[test]
fn summary_of_a_run_with_one_failure() {
    let report = TestSuiteReport { total: 4, passed: 3, failed: 1 };
    assert_eq!(report.summary(), "3/4 passed, 1/4 failed");
    assert!(!report.is_success());
}

#[test]
fn summary_with_counts_of_several_digits() {
    let report = TestSuiteReport { total: 120, passed: 101, failed: 19 };
    assert_eq!(report.summary(), "101/120 passed, 19/120 failed");
}

#[test]
fn the_runner_hands_out_the_cases_in_order_and_keeps_every_result() {
    let mut runner = TestRunner::new(suite());
    let mut seen = Vec::new();
    while let Some(case) = runner.next() {
        assert!(!runner.finished());
        seen.push(case);
        let outcome = if case == TestCase::OtherServiceCharacteristics {
            Outcome::Fail(String::from("mismatch"))
        } else {
            Outcome::Pass
        };
        assert!(runner.record(outcome));
    }
    assert_eq!(seen, suite());
    assert!(runner.finished());
    assert_eq!(runner.results.len(), 4);
    assert_eq!(runner.results[0], result("Service list", true));
    assert_eq!(
        runner.results[2],
        TestResult {
            name: String::from("Advertising service characteristics"),
            outcome: Outcome::Fail(String::from("mismatch")),
        }
    );
    assert_eq!(runner.results[3].name, "Write stress test");
    let report = runner.report();
    assert_eq!(report, TestSuiteReport { total: 4, passed: 3, failed: 1 });
    assert_eq!(report.summary(), "3/4 passed, 1/4 failed");
}

#[test]
fn a_failure_does_not_keep_the_later_cases_from_running() {
    let mut runner = TestRunner::new(suite());
    assert!(runner.record(Outcome::Fail(String::from("first"))));
    assert_eq!(runner.next(), Some(TestCase::AdvertisingServiceCharacteristics));
    assert!(runner.record(Outcome::Fail(String::from("second"))));
    assert_eq!(runner.next(), Some(TestCase::OtherServiceCharacteristics));
    assert_eq!(runner.report(), TestSuiteReport { total: 2, passed: 0, failed: 2 });
}

#[test]
fn nothing_is_recorded_once_all_cases_have_run() {
    let mut runner = TestRunner::new(vec![TestCase::ServiceList]);
    assert!(runner.record(Outcome::Pass));
    assert_eq!(runner.next(), None);
    assert!(!runner.record(Outcome::Fail(String::from("late"))));
    assert_eq!(runner.report(), TestSuiteReport { total: 1, passed: 1, failed: 0 });
}

#[test]
fn a_runner_without_cases_is_finished_at_once() {
    let mut runner = TestRunner::new(Vec::new());
    assert!(runner.finished());
    assert_eq!(runner.next(), None);
    assert!(!runner.record(Outcome::Pass));
    assert_eq!(runner.report().summary(), "0/0 passed, 0/0 failed");
}
