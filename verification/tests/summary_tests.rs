use forge_runner::running::aggregate_fuzz_results;
use forge_runner::test_case_summary::{FuzzingGasUsage, TestCaseSummary};
use forge_runner::test_crate_summary::{contains_fuzzed_tests, exit_status_of};
use forge_runner::RunnerStatus;

fn run_passed(gas_used: u64) -> TestCaseSummary {
    TestCaseSummary::Passed {
        name: String::from("t"),
        gas_used,
        runs: None,
        gas_usage: None,
    }
}

fn run_failed() -> TestCaseSummary {
    TestCaseSummary::Failed {
        name: String::from("t"),
        msg: Some(String::from("boom")),
        runs: None,
    }
}

#[test]
fn decoration_sets_runs_and_gas_on_a_pass() {
    let passed = TestCaseSummary::Passed {
        name: String::from("t"),
        gas_used: 9,
        runs: None,
        gas_usage: None,
    };
    let decorated = passed.with_runs_and_gas_usage(4, Some(FuzzingGasUsage { min: 1, max: 9 }));
    match decorated {
        TestCaseSummary::Passed {
            runs, gas_usage, ..
        } => {
            assert_eq!(runs, Some(4));
            assert_eq!(gas_usage, Some(FuzzingGasUsage { min: 1, max: 9 }));
        }
        other => panic!("expected a pass, got {:?}", other),
    }
}

#[test]
fn decoration_sets_runs_but_no_gas_on_a_failure() {
    let failed = TestCaseSummary::Failed {
        name: String::from("t"),
        msg: None,
        runs: None,
    };
    let decorated = failed.with_runs_and_gas_usage(2, Some(FuzzingGasUsage { min: 1, max: 9 }));
    match decorated {
        TestCaseSummary::Failed { runs, .. } => assert_eq!(runs, Some(2)),
        other => panic!("expected a failure, got {:?}", other),
    }
}

#[test]
fn decoration_leaves_other_outcomes_alone() {
    let skipped = TestCaseSummary::Skipped {};
    assert!(matches!(
        skipped.with_runs_and_gas_usage(3, None),
        TestCaseSummary::Skipped {}
    ));
}

#[test]
fn runs_is_read_from_decided_outcomes_only() {
    let passed = TestCaseSummary::Passed {
        name: String::from("t"),
        gas_used: 9,
        runs: Some(7),
        gas_usage: None,
    };
    assert_eq!(passed.runs(), Some(7));
    let ignored = TestCaseSummary::Ignored {
        name: String::from("t"),
    };
    assert_eq!(ignored.runs(), None);
}

#[test]
fn exit_status_reflects_the_summaries() {
    let pass = TestCaseSummary::Passed {
        name: String::from("a"),
        gas_used: 1,
        runs: None,
        gas_usage: None,
    };
    let fail = TestCaseSummary::Failed {
        name: String::from("b"),
        msg: None,
        runs: None,
    };
    let skip = TestCaseSummary::Skipped {};

    assert_eq!(exit_status_of(&vec![pass.duplicate()]), RunnerStatus::Default);
    assert_eq!(
        exit_status_of(&vec![pass.duplicate(), fail.duplicate()]),
        RunnerStatus::TestFailed
    );
    assert_eq!(exit_status_of(&vec![skip]), RunnerStatus::DidNotRun);
    assert_eq!(exit_status_of(&Vec::new()), RunnerStatus::DidNotRun);
}

#[test]
fn aggregation_reports_the_last_outcome_decorated() {
    let outcome = aggregate_fuzz_results(vec![run_passed(5), run_passed(9), run_failed()], 5);
    match outcome {
        TestCaseSummary::Failed { runs, msg, .. } => {
            assert_eq!(runs, Some(3));
            assert_eq!(msg.as_deref(), Some("boom"));
        }
        other => panic!("expected a failure, got {:?}", other),
    }
}

#[test]
fn aggregation_of_a_full_pass_carries_gas_statistics() {
    let outcome = aggregate_fuzz_results(vec![run_passed(5), run_passed(9), run_passed(7)], 3);
    match outcome {
        TestCaseSummary::Passed {
            runs, gas_usage, ..
        } => {
            assert_eq!(runs, Some(3));
            assert_eq!(gas_usage, Some(FuzzingGasUsage { min: 5, max: 9 }));
        }
        other => panic!("expected a pass, got {:?}", other),
    }
}

#[test]
fn aggregation_reclassifies_a_preempted_pass_as_skipped() {
    // two runs decided, one was preempted by cancellation: the property is
    // not fully verified, so the pass does not count
    let outcome =
        aggregate_fuzz_results(vec![run_passed(5), TestCaseSummary::Skipped {}, run_passed(7)], 3);
    assert!(matches!(outcome, TestCaseSummary::Skipped {}));
}

#[test]
fn fuzzed_content_is_detected_by_run_counts() {
    let plain = TestCaseSummary::Passed {
        name: String::from("a"),
        gas_used: 1,
        runs: None,
        gas_usage: None,
    };
    let fuzzed = TestCaseSummary::Passed {
        name: String::from("b"),
        gas_used: 1,
        runs: Some(3),
        gas_usage: None,
    };
    assert!(!contains_fuzzed_tests(&vec![plain.duplicate()]));
    assert!(contains_fuzzed_tests(&vec![plain, fuzzed]));
}
