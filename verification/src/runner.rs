//! The runner that takes the cases of a suite in order, and the report it ends with.

use vstd::prelude::*;

use crate::cases::TestCase;
use crate::failure::Failure;
use crate::text::{decimal, decimal_string};

verus! {

/// How one test ended.
#[derive(Clone, Debug, PartialEq, Eq)]
pub enum Outcome {
    Pass,
    /// The test failed; the text is its diagnostic.
    Fail(String),
}

impl Outcome {
    /// The diagnostic of a failed test.
    pub open spec fn reason(self) -> Seq<char>
        recommends
            self is Fail,
    {
        self->0@
    }

    /// The outcome that a verdict stands for: a pass, or a failure with the
    /// diagnostic line of its reason.
    pub fn of(verdict: &Result<(), Failure>) -> (outcome: Outcome)
        ensures
            verdict is Ok <==> outcome is Pass,
            verdict matches Err(failure) ==> outcome is Fail && outcome.reason()
                == failure@.message(),
    {
        match verdict {
            Ok(_) => Outcome::Pass,
            Err(failure) => Outcome::Fail(failure.message()),
        }
    }

    /// Whether the test passed.
    pub fn passed(&self) -> (r: bool)
        ensures
            r == (*self is Pass),
    {
        match self {
            Outcome::Pass => true,
            Outcome::Fail(_) => false,
        }
    }
}

/// The result of one test: its name and how it ended.
#[derive(Clone, Debug, PartialEq, Eq)]
pub struct TestResult {
    pub name: String,
    pub outcome: Outcome,
}

/// How many of the results are passes.
pub open spec fn passed_count(results: Seq<TestResult>) -> nat
    decreases results.len(),
{
    if results.len() == 0 {
        0
    } else {
        passed_count(results.drop_last()) + if results.last().outcome is Pass {
            1nat
        } else {
            0nat
        }
    }
}

/// How many of the results are failures.
pub open spec fn failed_count(results: Seq<TestResult>) -> nat
    decreases results.len(),
{
    if results.len() == 0 {
        0
    } else {
        failed_count(results.drop_last()) + if results.last().outcome is Fail {
            1nat
        } else {
            0nat
        }
    }
}

/// Every result is counted once: as a pass or as a failure, whichever
/// tests passed and whichever failed.
pub proof fn lemma_counts_add_up(results: Seq<TestResult>)
    ensures
        passed_count(results) + failed_count(results) == results.len(),
    decreases results.len(),
{
    if results.len() > 0 {
        lemma_counts_add_up(results.drop_last());
    }
}

/// The summary line for the three counts.
pub open spec fn summary_text(passed: nat, failed: nat, total: nat) -> Seq<char> {
    decimal(passed) + "/"@ + decimal(total) + " passed, "@ + decimal(failed) + "/"@ + decimal(
        total,
    ) + " failed"@
}

/// The report of a run: how many tests ran, passed and failed.
#[derive(Clone, Copy, Debug, PartialEq, Eq, Structural)]
pub struct TestSuiteReport {
    pub total: usize,
    pub passed: usize,
    pub failed: usize,
}

impl TestSuiteReport {
    /// Every test that ran either passed or failed.
    pub open spec fn wf(self) -> bool {
        self.passed + self.failed == self.total
    }

    /// Folds the results of a run, in order, into its report.
    pub fn from_results(results: &Vec<TestResult>) -> (report: TestSuiteReport)
        ensures
            report.total == results.len(),
            report.passed == passed_count(results@),
            report.failed == failed_count(results@),
            report.wf(),
    {
        let mut passed: usize = 0;
        let mut failed: usize = 0;
        let mut i: usize = 0;
        while i < results.len()
            invariant
                i <= results.len(),
                passed == passed_count(results@.take(i as int)),
                failed == failed_count(results@.take(i as int)),
                passed + failed == i,
            decreases results.len() - i,
        {
            assert(results@.take(i + 1).drop_last() =~= results@.take(i as int));
            if results[i].outcome.passed() {
                passed += 1;
            } else {
                failed += 1;
            }
            i += 1;
        }
        assert(results@.take(i as int) =~= results@);
        TestSuiteReport { total: results.len(), passed, failed }
    }

    /// Whether the run counts as a success: no test failed.
    pub fn is_success(&self) -> (r: bool)
        ensures
            r == (self.failed == 0),
    {
        self.failed == 0
    }

    /// The summary line: `<passed>/<total> passed, <failed>/<total> failed`.
    pub fn summary(&self) -> (line: String)
        ensures
            line@ == summary_text(self.passed as nat, self.failed as nat, self.total as nat),
    {
        let total = decimal_string(self.total as u128);
        let mut line = decimal_string(self.passed as u128);
        line.append("/");
        line.append(total.as_str());
        line.append(" passed, ");
        let failed = decimal_string(self.failed as u128);
        line.append(failed.as_str());
        line.append("/");
        line.append(total.as_str());
        line.append(" failed");
        line
    }
}

/// `after` is `before` with one more result at its end: that of `case`, with the given outcome.
pub open spec fn recorded(
    before: Seq<TestResult>,
    after: Seq<TestResult>,
    case: TestCase,
    outcome: Outcome,
) -> bool {
    &&& after.len() == before.len() + 1
    &&& after.drop_last() == before
    &&& after.last().name@ == case.name_text()
    &&& after.last().outcome == outcome
}

/// Takes the cases of a suite one after the other, in their order, and
/// keeps the result of each. A failure never ends the run early.
pub struct TestRunner {
    pub cases: Vec<TestCase>,
    pub results: Vec<TestResult>,
}

impl TestRunner {
    /// There is a result for each case that ran, under the name of the
    /// case, and no result for a case that did not run yet.
    pub open spec fn wf(self) -> bool {
        &&& self.results@.len() <= self.cases@.len()
        &&& forall|i: int|
            0 <= i < self.results@.len() ==> (#[trigger] self.results@[i]).name@
                == self.cases@[i].name_text()
    }

    /// No case is left to run.
    pub open spec fn done(self) -> bool {
        self.results@.len() >= self.cases@.len()
    }

    /// A runner for the given cases, none of which has run.
    pub fn new(cases: Vec<TestCase>) -> (runner: TestRunner)
        ensures
            runner.wf(),
            runner.cases@ == cases@,
            runner.results@.len() == 0,
    {
        TestRunner { cases, results: Vec::new() }
    }

    /// The case to run next: the first without a result, or none when all have run.
    pub fn next(&self) -> (case: Option<TestCase>)
        ensures
            case == if self.done() {
                None
            } else {
                Some(self.cases@[self.results@.len() as int])
            },
    {
        if self.results.len() < self.cases.len() {
            Some(self.cases[self.results.len()])
        } else {
            None
        }
    }

    /// Records how the case handed out by [`TestRunner::next`] ended, and
    /// says whether there was such a case. When all cases have run, nothing
    /// changes.
    pub fn record(&mut self, outcome: Outcome) -> (recorded: bool)
        ensures
            old(self).wf() ==> final(self).wf(),
            final(self).cases@ == old(self).cases@,
            recorded == !old(self).done(),
            !recorded ==> final(self).results@ == old(self).results@,
            recorded ==> self::recorded(
                old(self).results@,
                final(self).results@,
                old(self).cases@[old(self).results@.len() as int],
                outcome,
            ),
    {
        if self.results.len() < self.cases.len() {
            let name = String::from_str(self.cases[self.results.len()].name());
            self.results.push(TestResult { name, outcome });
            assert(self.results@.drop_last() =~= old(self).results@);
            true
        } else {
            false
        }
    }

    /// Whether all cases have run.
    pub fn finished(&self) -> (r: bool)
        ensures
            r == self.done(),
    {
        self.results.len() >= self.cases.len()
    }

    /// The report over the results so far. Once all cases have run, its
    /// total is the number of cases.
    pub fn report(&self) -> (report: TestSuiteReport)
        ensures
            report.total == self.results@.len(),
            report.passed == passed_count(self.results@),
            report.failed == failed_count(self.results@),
            report.passed + report.failed == report.total,
            self.wf() && self.done() ==> report.total == self.cases@.len(),
    {
        TestSuiteReport::from_results(&self.results)
    }
}

} // verus!
