use std::cell::Cell;

use forge_runner::details::{SierraFunction, SierraProgram, TestDetails, TypeDeclaration, TypeId};
use forge_runner::fee::FeeArgs;
use forge_runner::running::TestExecutor;
use forge_runner::test_case_summary::{SingleRunOutcome as RunOutcome, TestCaseSummary};
use forge_runner::test_crate_summary::TestCrateSummary;
use forge_runner::{
    CompiledTestCrateRunnable, ExpectedTestResult, FuzzerConfig, RunnerConfig, RunnerParams,
    RunnerStatus, SetupError, TestCaseFilter, TestCaseRunnable, TestCrateRunResult,
};

fn params() -> RunnerParams {
    RunnerParams::new(String::from("corelib"), Vec::new(), Vec::new(), Vec::new())
}

fn config(exit_first: bool) -> RunnerConfig {
    RunnerConfig::new(String::from("."), exit_first, 256, 12345)
}

fn case(name: &str) -> TestCaseRunnable {
    TestCaseRunnable {
        name: String::from(name),
        available_gas: None,
        ignored: false,
        expected_result: ExpectedTestResult::Success,
        fork_config: None,
        fuzzer_config: None,
    }
}

fn deterministic_function(name: &str) -> SierraFunction {
    SierraFunction {
        debug_name: format!("tests::{}", name),
        entry_point: 0,
        param_types: Vec::new(),
        ret_types: Vec::new(),
    }
}

fn fuzzed_function(name: &str, param_type: &str, type_id: u64) -> SierraFunction {
    SierraFunction {
        debug_name: format!("tests::{}", name),
        entry_point: 0,
        param_types: vec![TypeId {
            id: type_id,
            debug_name: Some(String::from(param_type)),
        }],
        ret_types: Vec::new(),
    }
}

fn declaration(param_type: &str, type_id: u64) -> TypeDeclaration {
    TypeDeclaration {
        id: TypeId {
            id: type_id,
            debug_name: Some(String::from(param_type)),
        },
        generic_id: String::from(param_type),
        size: 1,
    }
}

struct AcceptAll;

impl TestCaseFilter for AcceptAll {
    fn should_be_run(&self, _test_case: &TestCaseRunnable) -> bool {
        true
    }
}

struct RejectByName(&'static str);

impl TestCaseFilter for RejectByName {
    fn should_be_run(&self, test_case: &TestCaseRunnable) -> bool {
        test_case.name != self.0
    }
}

/// Passes every run with a fixed gas.
struct AlwaysPass(u64);

impl TestExecutor for AlwaysPass {
    fn execute_single(
        &self,
        _case: &TestCaseRunnable,
        _details: &TestDetails,
        _args: &Vec<u128>,
        _params: &RunnerParams,
    ) -> RunOutcome {
        RunOutcome::Passed { gas_used: self.0 }
    }
}

/// Fails every run of the case with the given name; passes the others.
struct FailNamed(&'static str);

impl TestExecutor for FailNamed {
    fn execute_single(
        &self,
        case: &TestCaseRunnable,
        _details: &TestDetails,
        _args: &Vec<u128>,
        _params: &RunnerParams,
    ) -> RunOutcome {
        if case.name.ends_with(self.0) {
            RunOutcome::Failed {
                msg: Some(String::from("assertion failed")),
            }
        } else {
            RunOutcome::Passed { gas_used: 1 }
        }
    }
}

/// Reports the gas of each call from a fixed schedule, failing where the
/// schedule holds no gas; counts its calls.
struct Scripted {
    calls: Cell<usize>,
    gas: Vec<Option<u64>>,
}

impl TestExecutor for Scripted {
    fn execute_single(
        &self,
        _case: &TestCaseRunnable,
        _details: &TestDetails,
        _args: &Vec<u128>,
        _params: &RunnerParams,
    ) -> RunOutcome {
        let k = self.calls.get();
        self.calls.set(k + 1);
        match self.gas[k] {
            Some(gas_used) => RunOutcome::Passed { gas_used },
            None => RunOutcome::Failed {
                msg: Some(String::from("fuzzed run failed")),
            },
        }
    }
}

/// An executor a correctly scheduled run never reaches.
struct NeverCalled;

impl TestExecutor for NeverCalled {
    fn execute_single(
        &self,
        _case: &TestCaseRunnable,
        _details: &TestDetails,
        _args: &Vec<u128>,
        _params: &RunnerParams,
    ) -> RunOutcome {
        panic!("the executor must not be invoked");
    }
}

fn summary_of(result: TestCrateRunResult) -> (TestCrateSummary, bool) {
    match result {
        TestCrateRunResult::Completed(s) => (s, false),
        TestCrateRunResult::Interrupted(s) => (s, true),
    }
}

#[test]
fn single_deterministic_pass() {
    let program = SierraProgram {
        funcs: vec![deterministic_function("t1")],
        type_declarations: Vec::new(),
    };
    let tests = CompiledTestCrateRunnable::new(program, vec![case("t1")]);
    let result =
        forge_runner::run_tests_from_crate(&tests, &config(false), &params(), &AcceptAll, &AlwaysPass(42))
            .unwrap();
    let (summary, interrupted) = summary_of(result);
    assert!(!interrupted);
    assert_eq!(summary.test_case_summaries.len(), 1);
    match &summary.test_case_summaries[0] {
        TestCaseSummary::Passed {
            name,
            gas_used,
            runs,
            gas_usage,
        } => {
            assert_eq!(name, "t1");
            assert_eq!(*gas_used, 42);
            assert!(runs.is_none());
            assert!(gas_usage.is_none());
        }
        other => panic!("expected a pass, got {:?}", other),
    }
    assert_eq!(summary.runner_exit_status, RunnerStatus::Default);
    assert!(!summary.contained_fuzzed_tests);
}

#[test]
fn fuzzed_case_all_pass() {
    let program = SierraProgram {
        funcs: vec![fuzzed_function("t2", "u32", 7)],
        type_declarations: vec![declaration("u32", 7)],
    };
    let mut c = case("t2");
    c.fuzzer_config = Some(FuzzerConfig {
        fuzzer_runs: 3,
        fuzzer_seed: 7,
    });
    let tests = CompiledTestCrateRunnable::new(program, vec![c]);
    let result =
        forge_runner::run_tests_from_crate(&tests, &config(false), &params(), &AcceptAll, &AlwaysPass(10))
            .unwrap();
    let (summary, interrupted) = summary_of(result);
    assert!(!interrupted);
    assert_eq!(summary.test_case_summaries.len(), 1);
    match &summary.test_case_summaries[0] {
        TestCaseSummary::Passed {
            name,
            runs,
            gas_usage,
            ..
        } => {
            assert_eq!(name, "t2");
            assert_eq!(*runs, Some(3));
            let gas = gas_usage.expect("a full campaign reports gas statistics");
            assert_eq!(gas.min, 10);
            assert_eq!(gas.max, 10);
        }
        other => panic!("expected a pass, got {:?}", other),
    }
    assert!(summary.contained_fuzzed_tests);
}

#[test]
fn fuzzed_case_failure_mid_campaign() {
    let program = SierraProgram {
        funcs: vec![fuzzed_function("t2", "u32", 7)],
        type_declarations: vec![declaration("u32", 7)],
    };
    let mut c = case("t2");
    c.fuzzer_config = Some(FuzzerConfig {
        fuzzer_runs: 3,
        fuzzer_seed: 7,
    });
    let tests = CompiledTestCrateRunnable::new(program, vec![c]);
    let executor = Scripted {
        calls: Cell::new(0),
        gas: vec![Some(10), None, Some(10)],
    };
    let result =
        forge_runner::run_tests_from_crate(&tests, &config(false), &params(), &AcceptAll, &executor)
            .unwrap();
    let (summary, _) = summary_of(result);
    match &summary.test_case_summaries[0] {
        TestCaseSummary::Failed { name, runs, .. } => {
            assert_eq!(name, "t2");
            assert_eq!(*runs, Some(2));
        }
        other => panic!("expected a failure, got {:?}", other),
    }
    // the campaign closed after the failure: the third run never started
    assert_eq!(executor.calls.get(), 2);
    assert_eq!(summary.runner_exit_status, RunnerStatus::TestFailed);
}

#[test]
fn exit_first_on_two_case_crate() {
    let program = SierraProgram {
        funcs: vec![deterministic_function("a"), deterministic_function("b")],
        type_declarations: Vec::new(),
    };
    let tests = CompiledTestCrateRunnable::new(program, vec![case("a"), case("b")]);
    let result =
        forge_runner::run_tests_from_crate(&tests, &config(true), &params(), &AcceptAll, &FailNamed("a"))
            .unwrap();
    let (summary, interrupted) = summary_of(result);
    assert!(interrupted);
    assert_eq!(summary.test_case_summaries.len(), 2);
    assert!(matches!(
        &summary.test_case_summaries[0],
        TestCaseSummary::Failed { .. }
    ));
    assert!(matches!(
        &summary.test_case_summaries[1],
        TestCaseSummary::Skipped {}
    ));
}

#[test]
fn filter_excludes_case() {
    let program = SierraProgram {
        funcs: vec![deterministic_function("a"), deterministic_function("b")],
        type_declarations: Vec::new(),
    };
    let tests = CompiledTestCrateRunnable::new(program, vec![case("a"), case("b")]);
    let result = forge_runner::run_tests_from_crate(
        &tests,
        &config(false),
        &params(),
        &RejectByName("a"),
        &AlwaysPass(5),
    )
    .unwrap();
    let (summary, interrupted) = summary_of(result);
    assert!(!interrupted);
    assert_eq!(summary.test_case_summaries.len(), 1);
    match &summary.test_case_summaries[0] {
        TestCaseSummary::Passed { name, .. } => assert_eq!(name, "b"),
        other => panic!("expected a pass for b, got {:?}", other),
    }
}

#[test]
fn ignored_flag_reports_ignored_without_executing() {
    let program = SierraProgram {
        funcs: vec![deterministic_function("a")],
        type_declarations: Vec::new(),
    };
    let mut c = case("a");
    c.ignored = true;
    let tests = CompiledTestCrateRunnable::new(program, vec![c]);
    let result =
        forge_runner::run_tests_from_crate(&tests, &config(false), &params(), &AcceptAll, &NeverCalled)
            .unwrap();
    let (summary, _) = summary_of(result);
    assert_eq!(summary.test_case_summaries.len(), 1);
    match &summary.test_case_summaries[0] {
        TestCaseSummary::Ignored { name } => assert_eq!(name, "a"),
        other => panic!("expected ignored, got {:?}", other),
    }
    assert_eq!(summary.runner_exit_status, RunnerStatus::DidNotRun);
}

#[test]
fn fuzzed_gas_statistics_span_all_runs() {
    let program = SierraProgram {
        funcs: vec![fuzzed_function("t3", "u32", 1)],
        type_declarations: vec![declaration("u32", 1)],
    };
    let mut c = case("t3");
    c.fuzzer_config = Some(FuzzerConfig {
        fuzzer_runs: 3,
        fuzzer_seed: 9,
    });
    let tests = CompiledTestCrateRunnable::new(program, vec![c]);
    let executor = Scripted {
        calls: Cell::new(0),
        gas: vec![Some(20), Some(10), Some(15)],
    };
    let result =
        forge_runner::run_tests_from_crate(&tests, &config(false), &params(), &AcceptAll, &executor)
            .unwrap();
    let (summary, _) = summary_of(result);
    match &summary.test_case_summaries[0] {
        TestCaseSummary::Passed {
            gas_used,
            runs,
            gas_usage,
            ..
        } => {
            assert_eq!(*runs, Some(3));
            // the reported outcome is the last run's
            assert_eq!(*gas_used, 15);
            let gas = gas_usage.unwrap();
            assert_eq!(gas.min, 10);
            assert_eq!(gas.max, 20);
        }
        other => panic!("expected a pass, got {:?}", other),
    }
}

#[test]
fn unsupported_fuzz_parameter_is_a_case_failure() {
    let program = SierraProgram {
        funcs: vec![fuzzed_function("t4", "felt252", 2)],
        type_declarations: vec![declaration("felt252", 2)],
    };
    let tests = CompiledTestCrateRunnable::new(program, vec![case("t4")]);
    let result =
        forge_runner::run_tests_from_crate(&tests, &config(false), &params(), &AcceptAll, &NeverCalled)
            .unwrap();
    let (summary, _) = summary_of(result);
    match &summary.test_case_summaries[0] {
        TestCaseSummary::Failed { name, msg, runs } => {
            assert_eq!(name, "t4");
            assert_eq!(msg.as_deref(), Some("felt252"));
            assert!(runs.is_none());
        }
        other => panic!("expected a failure, got {:?}", other),
    }
}

#[test]
fn missing_function_is_fatal() {
    let program = SierraProgram {
        funcs: vec![deterministic_function("a")],
        type_declarations: Vec::new(),
    };
    let tests = CompiledTestCrateRunnable::new(program, vec![case("zzz")]);
    let err = forge_runner::run_tests_from_crate(
        &tests,
        &config(false),
        &params(),
        &AcceptAll,
        &AlwaysPass(1),
    )
    .unwrap_err();
    match err {
        SetupError::FunctionNotFound(name) => assert_eq!(name, "zzz"),
        other => panic!("expected a missing function, got {:?}", other),
    }
}

#[test]
fn failure_without_exit_first_completes() {
    let program = SierraProgram {
        funcs: vec![deterministic_function("a"), deterministic_function("b")],
        type_declarations: Vec::new(),
    };
    let tests = CompiledTestCrateRunnable::new(program, vec![case("a"), case("b")]);
    let result =
        forge_runner::run_tests_from_crate(&tests, &config(false), &params(), &AcceptAll, &FailNamed("a"))
            .unwrap();
    let (summary, interrupted) = summary_of(result);
    assert!(!interrupted);
    assert_eq!(summary.test_case_summaries.len(), 2);
    assert!(matches!(
        &summary.test_case_summaries[0],
        TestCaseSummary::Failed { .. }
    ));
    assert!(matches!(
        &summary.test_case_summaries[1],
        TestCaseSummary::Passed { .. }
    ));
    assert_eq!(summary.runner_exit_status, RunnerStatus::TestFailed);
}

#[test]
fn fuzzer_overrides_come_from_the_crate_config_when_absent() {
    let program = SierraProgram {
        funcs: vec![fuzzed_function("t5", "u8", 3)],
        type_declarations: vec![declaration("u8", 3)],
    };
    // no per-case fuzzer config: the crate default of 256 runs applies
    let tests = CompiledTestCrateRunnable::new(program, vec![case("t5")]);
    let result =
        forge_runner::run_tests_from_crate(&tests, &config(false), &params(), &AcceptAll, &AlwaysPass(4))
            .unwrap();
    let (summary, _) = summary_of(result);
    match &summary.test_case_summaries[0] {
        TestCaseSummary::Passed { runs, .. } => assert_eq!(*runs, Some(256)),
        other => panic!("expected a pass, got {:?}", other),
    }
}
