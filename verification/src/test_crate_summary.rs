use vstd::prelude::*;
use crate::test_case_summary::TestCaseSummary;
use crate::RunnerStatus;

verus! {

/// Aggregated result of running one compiled test crate. Case summaries are
/// kept in completion order, which the input order does not determine.
#[derive(Debug)]
pub struct TestCrateSummary {
    pub test_case_summaries: Vec<TestCaseSummary>,
    pub runner_exit_status: RunnerStatus,
    pub contained_fuzzed_tests: bool,
}

/// Whether any summary in the sequence carries a run count, i.e. came out of
/// a fuzzing campaign.
pub open spec fn spec_contains_fuzzed(summaries: Seq<TestCaseSummary>) -> bool {
    exists|i: int| 0 <= i < summaries.len() && summaries[i].spec_runs() is Some
}

/// The exit status a sequence of case summaries calls for: `TestFailed` when
/// any case failed, `Default` when none failed and at least one case passed,
/// and `DidNotRun` when no case produced a pass or fail decision.
pub open spec fn spec_exit_status(summaries: Seq<TestCaseSummary>) -> RunnerStatus {
    if exists|i: int|
        0 <= i < summaries.len() && (#[trigger] summaries[i]) matches TestCaseSummary::Failed {
            ..
        } {
        RunnerStatus::TestFailed
    } else if exists|i: int|
        0 <= i < summaries.len() && (#[trigger] summaries[i]) matches TestCaseSummary::Passed {
            ..
        } {
        RunnerStatus::Default
    } else {
        RunnerStatus::DidNotRun
    }
}

/// Whether any summary in `summaries` carries a run count.
pub fn contains_fuzzed_tests(summaries: &Vec<TestCaseSummary>) -> (r: bool)
    ensures
        r == spec_contains_fuzzed(summaries@),
{
    let mut i: usize = 0;
    let mut found: bool = false;
    while i < summaries.len()
        invariant
            0 <= i <= summaries@.len(),
            found == exists|j: int| 0 <= j < i && summaries@[j].spec_runs() is Some,
        decreases summaries@.len() - i,
    {
        if summaries[i].runs().is_some() {
            found = true;
        }
        i = i + 1;
    }
    found
}

/// Compute the exit status of a finished drain, per `spec_exit_status`.
pub fn exit_status_of(summaries: &Vec<TestCaseSummary>) -> (r: RunnerStatus)
    ensures
        r == spec_exit_status(summaries@),
{
    let mut i: usize = 0;
    let mut any_failed: bool = false;
    let mut any_passed: bool = false;
    while i < summaries.len()
        invariant
            0 <= i <= summaries@.len(),
            any_failed == exists|j: int|
                0 <= j < i && (#[trigger] summaries@[j]) matches TestCaseSummary::Failed { .. },
            any_passed == exists|j: int|
                0 <= j < i && (#[trigger] summaries@[j]) matches TestCaseSummary::Passed { .. },
        decreases summaries@.len() - i,
    {
        match &summaries[i] {
            TestCaseSummary::Failed { .. } => {
                any_failed = true;
            },
            TestCaseSummary::Passed { .. } => {
                any_passed = true;
            },
            _ => {},
        }
        i = i + 1;
    }
    if any_failed {
        RunnerStatus::TestFailed
    } else if any_passed {
        RunnerStatus::Default
    } else {
        RunnerStatus::DidNotRun
    }
}

} // verus!
