pub mod test_case_summary;
pub mod test_crate_summary;
pub mod account;
pub mod details;
pub mod fee;
pub mod fork;
pub mod fuzzer;
pub mod running;
pub mod text;

use vstd::prelude::*;
use crate::details::{build_test_details, find_function, function_args, SierraProgram,
    spec_build_test_details, spec_find_function, spec_function_args, TestDetails,
    TestDetailsView, TypeId};
use crate::fork::ValidatedForkConfig;
use crate::running::{run_test, run_with_fuzzing, spec_classified_sig, spec_fuzz_outcome,
    spec_resolved_fuzzer, spec_single_outcome, TestExecutor};
use crate::test_case_summary::{SingleRunOutcome, TestCaseSummary};
use crate::test_crate_summary::{contains_fuzzed_tests, exit_status_of, spec_contains_fuzzed,
    spec_exit_status, TestCrateSummary};

verus! {

/// Exit status of the runner.
#[derive(Debug, PartialEq, Eq, Structural, Clone)]
pub enum RunnerStatus {
    /// Runner exited without problems.
    Default,
    /// Some test failed.
    TestFailed,
    /// Runner did not run, e.g. when test cases got skipped.
    DidNotRun,
}

/// Configuration of the test runner.
#[derive(Debug)]
pub struct RunnerConfig {
    pub workspace_root: String,
    pub exit_first: bool,
    pub fuzzer_runs: u32,
    pub fuzzer_seed: u64,
}

impl RunnerConfig {
    pub fn new(
        workspace_root: String,
        exit_first: bool,
        fuzzer_runs: u32,
        fuzzer_seed: u64,
    ) -> (r: Self)
        ensures
            r == (RunnerConfig { workspace_root, exit_first, fuzzer_runs, fuzzer_seed }),
    {
        Self { workspace_root, exit_first, fuzzer_runs, fuzzer_seed }
    }
}

/// Compiled artifacts of one declared contract, shared read-only with every
/// executor task.
#[derive(Debug)]
pub struct StarknetContractArtifacts {
    pub sierra: String,
    pub casm: String,
}

/// A library the compiled crate was linked against.
#[derive(Debug)]
pub struct LinkedLibrary {
    pub name: String,
    pub path: String,
}

/// Immutable parameters handed to every executor task.
#[derive(Debug)]
pub struct RunnerParams {
    pub corelib_path: String,
    pub contracts: Vec<(String, StarknetContractArtifacts)>,
    pub environment_variables: Vec<(String, String)>,
    pub linked_libraries: Vec<LinkedLibrary>,
}

impl RunnerParams {
    pub fn new(
        corelib_path: String,
        contracts: Vec<(String, StarknetContractArtifacts)>,
        environment_variables: Vec<(String, String)>,
        linked_libraries: Vec<LinkedLibrary>,
    ) -> (r: Self)
        ensures
            r == (RunnerParams { corelib_path, contracts, environment_variables, linked_libraries }),
    {
        Self { corelib_path, contracts, environment_variables, linked_libraries }
    }

    pub fn linked_libraries(&self) -> (r: &Vec<LinkedLibrary>)
        ensures
            *r == self.linked_libraries,
    {
        &self.linked_libraries
    }

    pub fn corelib_path(&self) -> (r: &String)
        ensures
            *r == self.corelib_path,
    {
        &self.corelib_path
    }
}

/// Per-case fuzzer overrides; case-level values win over crate-level ones.
#[derive(Debug, PartialEq, Eq, Structural, Clone, Copy)]
pub struct FuzzerConfig {
    pub fuzzer_runs: u32,
    pub fuzzer_seed: u64,
}

/// Expected panic payload of a case that is expected to fail.
#[derive(Debug)]
pub enum ExpectedPanicValue {
    /// The exact panic data, word by word.
    Exact(Vec<String>),
    /// Any panic counts.
    Any,
}

/// Classification hint consumed by the executor when it decides whether a
/// single run passed.
#[derive(Debug)]
pub enum ExpectedTestResult {
    Success,
    Panics(ExpectedPanicValue),
}

/// One named test entry point of a compiled crate, immutable after
/// construction.
#[derive(Debug)]
pub struct TestCaseRunnable {
    pub name: String,
    pub available_gas: Option<usize>,
    pub ignored: bool,
    pub expected_result: ExpectedTestResult,
    pub fork_config: Option<ValidatedForkConfig>,
    pub fuzzer_config: Option<FuzzerConfig>,
}

/// The filter hook the scheduler consults for every case; treated as pure.
/// The spec-level decision defaults to an arbitrary fixed predicate so that
/// unverified impls need only supply the executable method.
pub trait TestCaseFilter {
    open spec fn spec_should_be_run(&self, test_case: &TestCaseRunnable) -> bool {
        vstd::pervasive::arbitrary()
    }

    fn should_be_run(&self, test_case: &TestCaseRunnable) -> (r: bool)
        ensures
            r == self.spec_should_be_run(test_case),
    ;
}

/// Whether the whole run ended normally or the exit-first rule cut it short.
#[derive(Debug)]
pub enum TestCrateRunResult {
    Completed(TestCrateSummary),
    Interrupted(TestCrateSummary),
}

/// A compiled test crate: the program every task shares read-only and the
/// cases to schedule.
#[derive(Debug)]
pub struct CompiledTestCrateRunnable {
    pub sierra_program: SierraProgram,
    pub test_cases: Vec<TestCaseRunnable>,
}

impl CompiledTestCrateRunnable {
    pub fn new(sierra_program: SierraProgram, test_cases: Vec<TestCaseRunnable>) -> (r: Self)
        ensures
            r == (CompiledTestCrateRunnable { sierra_program, test_cases }),
    {
        Self { sierra_program, test_cases }
    }
}

/// Why the run never started: compilation metadata could not be extracted
/// for a case that was due to run. The payload names the case.
#[derive(Debug)]
pub enum SetupError {
    FunctionNotFound(String),
    TypeResolutionFailed(String),
}

/// What a case needs before it can run: its fuzzable signature and details.
struct CasePlan {
    args: Vec<TypeId>,
    details: TestDetails,
}

/// The plan of one case: its fuzzable signature and its details, if its
/// function exists and every type it mentions is declared.
pub open spec fn spec_case_plan(name: Seq<char>, program: SierraProgram) -> Option<
    (Seq<TypeId>, TestDetailsView),
> {
    match spec_find_function(program.funcs@, name) {
        None => None,
        Some(f) => match spec_build_test_details(name, program) {
            None => None,
            Some(d) => Some((spec_function_args(f.param_types@), d)),
        },
    }
}

/// Every case that is due to run has a plan.
pub open spec fn spec_setup_ok<F: TestCaseFilter>(
    filter: F,
    cases: Seq<TestCaseRunnable>,
    program: SierraProgram,
) -> bool {
    forall|i: int|
        0 <= i < cases.len() && filter.spec_should_be_run(&(#[trigger] cases[i]))
            && !cases[i].ignored ==> spec_case_plan(cases[i].name@, program) is Some
}

/// Every fuzzing campaign that will start asks for at least one run; a
/// campaign of no runs has no outcome to report and is excluded.
pub open spec fn spec_runs_positive<F: TestCaseFilter>(
    filter: F,
    cases: Seq<TestCaseRunnable>,
    program: SierraProgram,
    config: RunnerConfig,
) -> bool {
    forall|i: int|
        0 <= i < cases.len() && filter.spec_should_be_run(&(#[trigger] cases[i]))
            && !cases[i].ignored && (spec_case_plan(cases[i].name@, program) matches Some(p)
            && p.0.len() > 0 && spec_classified_sig(p.0) is Ok) ==> spec_resolved_fuzzer(
            cases[i],
            config,
        ).fuzzer_runs >= 1
}

/// The one outcome a scheduled case reports, as the dispatcher decides it:
/// an ignored case is reported without work, a case that observes the closed
/// crate channel is skipped, an empty fuzzable signature runs once, anything
/// else runs a fuzzing campaign.
pub open spec fn spec_case_outcome<E: TestExecutor>(
    ex: E,
    c: TestCaseRunnable,
    program: SierraProgram,
    config: RunnerConfig,
    params: RunnerParams,
    closed: bool,
) -> TestCaseSummary {
    if c.ignored {
        TestCaseSummary::Ignored { name: c.name }
    } else if closed {
        TestCaseSummary::Skipped {}
    } else {
        match spec_case_plan(c.name@, program) {
            None => TestCaseSummary::Skipped {},
            Some(plan) => if plan.0.len() == 0 {
                spec_single_outcome(ex, c, plan.1, params)
            } else {
                spec_fuzz_outcome(ex, c, plan.1, params, plan.0, config)
            },
        }
    }
}

/// The summaries and final channel state of scheduling the cases from index
/// `i` on, given the channel state `closed`: filtered-out cases produce no
/// outcome, every other case exactly one, and a failure under exit-first
/// closes the channel for the cases that follow.
pub open spec fn spec_schedule_from<E: TestExecutor, F: TestCaseFilter>(
    ex: E,
    filter: F,
    cases: Seq<TestCaseRunnable>,
    program: SierraProgram,
    config: RunnerConfig,
    params: RunnerParams,
    i: int,
    closed: bool,
) -> (Seq<TestCaseSummary>, bool)
    decreases cases.len() - i,
{
    if i < 0 || i >= cases.len() {
        (Seq::empty(), closed)
    } else if !filter.spec_should_be_run(&cases[i]) {
        spec_schedule_from(ex, filter, cases, program, config, params, i + 1, closed)
    } else {
        let s = spec_case_outcome(ex, cases[i], program, config, params, closed);
        let closed2 = closed || (config.exit_first && s matches TestCaseSummary::Failed { .. });
        let rest = spec_schedule_from(ex, filter, cases, program, config, params, i + 1, closed2);
        (seq![s] + rest.0, rest.1)
    }
}

/// Run every case of a compiled crate and aggregate one crate summary.
///
/// The filter decides which cases are scheduled; every scheduled case
/// reports exactly one outcome, in completion order. When `exit_first` is
/// set, the first failure closes the crate channel and the cases that had
/// not started are reported skipped. A case whose metadata cannot be
/// extracted makes the whole run fail before anything is scheduled.
#[verifier::rlimit(100)]
pub fn run_tests_from_crate<E: TestExecutor, F: TestCaseFilter>(
    tests: &CompiledTestCrateRunnable,
    runner_config: &RunnerConfig,
    runner_params: &RunnerParams,
    tests_filter: &F,
    executor: &E,
) -> (r: Result<TestCrateRunResult, SetupError>)
    requires
        spec_runs_positive(
            *tests_filter,
            tests.test_cases@,
            tests.sierra_program,
            *runner_config,
        ),
    ensures
        r is Ok <==> spec_setup_ok(*tests_filter, tests.test_cases@, tests.sierra_program),
        r matches Ok(res) ==> ({
            let sched = spec_schedule_from(
                *executor,
                *tests_filter,
                tests.test_cases@,
                tests.sierra_program,
                *runner_config,
                *runner_params,
                0,
                false,
            );
            match res {
                TestCrateRunResult::Completed(s) => !sched.1 && s.test_case_summaries@ == sched.0
                    && s.runner_exit_status == spec_exit_status(sched.0)
                    && s.contained_fuzzed_tests == spec_contains_fuzzed(sched.0),
                TestCrateRunResult::Interrupted(s) => sched.1 && s.test_case_summaries@ == sched.0
                    && s.runner_exit_status == spec_exit_status(sched.0)
                    && s.contained_fuzzed_tests == spec_contains_fuzzed(sched.0),
            }
        }),
        r matches Err(e) ==> (exists|i: int|
            0 <= i < tests.test_cases@.len() && tests_filter.spec_should_be_run(
                &(#[trigger] tests.test_cases@[i]),
            ) && !tests.test_cases@[i].ignored && spec_case_plan(
                tests.test_cases@[i].name@,
                tests.sierra_program,
            ) is None && (match e {
                SetupError::FunctionNotFound(n) => n == tests.test_cases@[i].name,
                SetupError::TypeResolutionFailed(n) => n == tests.test_cases@[i].name,
            })),
{
    let cases = &tests.test_cases;
    let program = &tests.sierra_program;
    let n = cases.len();

    // Extract the per-case metadata first: a failure here is fatal and the
    // scheduler never starts.
    let plans: Vec<Option<CasePlan>> = match build_plans(cases, program, tests_filter) {
        Ok(plans) => plans,
        Err(e) => {
            return Err(e);
        },
    };

    // Schedule every case and drain the outcomes.
    let ghost sched_all = spec_schedule_from(
        *executor,
        *tests_filter,
        cases@,
        *program,
        *runner_config,
        *runner_params,
        0,
        false,
    );
    let mut summaries: Vec<TestCaseSummary> = Vec::new();
    let mut closed: bool = false;
    let mut i: usize = 0;
    while i < n
        invariant
            0 <= i <= n,
            n == cases@.len(),
            plans@.len() == n,
            forall|j: int|
                0 <= j < n && tests_filter.spec_should_be_run(&(#[trigger] cases@[j]))
                    && !cases@[j].ignored ==> (plans@[j] matches Some(p) && spec_case_plan(
                    cases@[j].name@,
                    *program,
                ) == Some((p.args@, p.details@))),
            spec_runs_positive(*tests_filter, cases@, *program, *runner_config),
            sched_all == spec_schedule_from(
                *executor,
                *tests_filter,
                cases@,
                *program,
                *runner_config,
                *runner_params,
                0,
                false,
            ),
            ({
                let rest = spec_schedule_from(
                    *executor,
                    *tests_filter,
                    cases@,
                    *program,
                    *runner_config,
                    *runner_params,
                    i as int,
                    closed,
                );
                sched_all == (summaries@ + rest.0, rest.1)
            }),
        decreases n - i,
    {
        let case = &cases[i];
        if tests_filter.should_be_run(case) {
            proof {
                assert(tests_filter.spec_should_be_run(&cases@[i as int])
                    && !cases@[i as int].ignored ==> (plans@[i as int] matches Some(p)
                    && spec_case_plan(cases@[i as int].name@, *program) == Some(
                    (p.args@, p.details@),
                )));
            }
            let summary: TestCaseSummary = run_scheduled_case(
                case,
                &plans[i],
                closed,
                runner_config,
                runner_params,
                executor,
                Ghost(*program),
            );
            let is_failure: bool = match &summary {
                TestCaseSummary::Failed { .. } => true,
                _ => false,
            };
            proof {
                lemma_schedule_step(
                    *executor,
                    *tests_filter,
                    cases@,
                    *program,
                    *runner_config,
                    *runner_params,
                    i as int,
                    closed,
                );
                let s = spec_case_outcome(
                    *executor,
                    cases@[i as int],
                    *program,
                    *runner_config,
                    *runner_params,
                    closed,
                );
                let closed2 = closed || (runner_config.exit_first && is_failure);
                let next = spec_schedule_from(
                    *executor,
                    *tests_filter,
                    cases@,
                    *program,
                    *runner_config,
                    *runner_params,
                    i as int + 1,
                    closed2,
                );
                assert(summaries@ + (seq![s] + next.0) =~= summaries@.push(s) + next.0);
            }
            if is_failure && runner_config.exit_first {
                closed = true;
            }
            summaries.push(summary);
        } else {
            proof {
                lemma_schedule_skip(
                    *executor,
                    *tests_filter,
                    cases@,
                    *program,
                    *runner_config,
                    *runner_params,
                    i as int,
                    closed,
                );
            }
        }
        i = i + 1;
    }
    proof {
        let rest = spec_schedule_from(
            *executor,
            *tests_filter,
            cases@,
            *program,
            *runner_config,
            *runner_params,
            n as int,
            closed,
        );
        assert(rest.0 =~= Seq::<TestCaseSummary>::empty());
        assert(summaries@ + rest.0 =~= summaries@);
    }

    let contained_fuzzed_tests = contains_fuzzed_tests(&summaries);
    let runner_exit_status = exit_status_of(&summaries);
    let summary = TestCrateSummary {
        test_case_summaries: summaries,
        runner_exit_status,
        contained_fuzzed_tests,
    };
    if closed {
        Ok(TestCrateRunResult::Interrupted(summary))
    } else {
        Ok(TestCrateRunResult::Completed(summary))
    }
}

/// The cases the filter admits, from index `i` on, in input order.
pub open spec fn spec_included_from<F: TestCaseFilter>(
    filter: F,
    cases: Seq<TestCaseRunnable>,
    i: int,
) -> Seq<TestCaseRunnable>
    decreases cases.len() - i,
{
    if i < 0 || i >= cases.len() {
        Seq::empty()
    } else if filter.spec_should_be_run(&cases[i]) {
        seq![cases[i]] + spec_included_from(filter, cases, i + 1)
    } else {
        spec_included_from(filter, cases, i + 1)
    }
}

/// What it means for a summary to be the outcome of a given case: named
/// outcomes carry the case's name, an ignored case is only ever reported
/// ignored, and the internal campaign signal never surfaces.
pub open spec fn spec_outcome_for_case(s: TestCaseSummary, c: TestCaseRunnable) -> bool {
    match s {
        TestCaseSummary::Passed { name, .. } => name == c.name && !c.ignored,
        TestCaseSummary::Failed { name, .. } => name == c.name && !c.ignored,
        TestCaseSummary::Ignored { name } => name == c.name && c.ignored,
        TestCaseSummary::Skipped {} => !c.ignored,
        TestCaseSummary::Interrupted {} => false,
    }
}

proof fn lemma_case_outcome_for_case<E: TestExecutor>(
    ex: E,
    c: TestCaseRunnable,
    program: SierraProgram,
    config: RunnerConfig,
    params: RunnerParams,
    closed: bool,
)
    ensures
        spec_outcome_for_case(spec_case_outcome(ex, c, program, config, params, closed), c),
{
}

/// Exactly one outcome per scheduled case: a run reports as many summaries
/// as the filter admits cases, never more than there are cases, each one in
/// order the outcome of its own case; and a case marked ignored is reported
/// ignored, whatever the channel state.
pub proof fn lemma_schedule_correspondence<E: TestExecutor, F: TestCaseFilter>(
    ex: E,
    filter: F,
    cases: Seq<TestCaseRunnable>,
    program: SierraProgram,
    config: RunnerConfig,
    params: RunnerParams,
    i: int,
    closed: bool,
)
    requires
        0 <= i <= cases.len(),
    ensures
        ({
            let sched = spec_schedule_from(ex, filter, cases, program, config, params, i, closed);
            let inc = spec_included_from(filter, cases, i);
            &&& sched.0.len() == inc.len()
            &&& inc.len() <= cases.len() - i
            &&& forall|j: int|
                0 <= j < inc.len() ==> spec_outcome_for_case(#[trigger] sched.0[j], inc[j])
            &&& forall|j: int|
                0 <= j < inc.len() && (#[trigger] inc[j]).ignored ==> sched.0[j]
                    == (TestCaseSummary::Ignored { name: inc[j].name })
        }),
    decreases cases.len() - i,
{
    if i < cases.len() {
        if filter.spec_should_be_run(&cases[i]) {
            let s = spec_case_outcome(ex, cases[i], program, config, params, closed);
            let closed2 = closed || (config.exit_first && s matches TestCaseSummary::Failed {
                ..
            });
            lemma_schedule_correspondence(ex, filter, cases, program, config, params, i + 1, closed2);
            lemma_case_outcome_for_case(ex, cases[i], program, config, params, closed);
        } else {
            lemma_schedule_correspondence(ex, filter, cases, program, config, params, i + 1, closed);
        }
    }
}

proof fn lemma_schedule_closed<E: TestExecutor, F: TestCaseFilter>(
    ex: E,
    filter: F,
    cases: Seq<TestCaseRunnable>,
    program: SierraProgram,
    config: RunnerConfig,
    params: RunnerParams,
    i: int,
)
    requires
        0 <= i <= cases.len(),
    ensures
        ({
            let sched = spec_schedule_from(ex, filter, cases, program, config, params, i, true);
            let inc = spec_included_from(filter, cases, i);
            &&& sched.1 == true
            &&& sched.0.len() == inc.len()
            &&& forall|j: int|
                0 <= j < inc.len() ==> sched.0[j] == (if (#[trigger] inc[j]).ignored {
                    TestCaseSummary::Ignored { name: inc[j].name }
                } else {
                    TestCaseSummary::Skipped {}
                })
        }),
    decreases cases.len() - i,
{
    if i < cases.len() {
        lemma_schedule_closed(ex, filter, cases, program, config, params, i + 1);
    }
}

/// The exit-first rule: when it is on, the run is reported interrupted
/// exactly when some scheduled case failed (or the channel was already
/// closed), and every case scheduled after a failure that is not ignored is
/// reported skipped.
pub proof fn lemma_exit_first<E: TestExecutor, F: TestCaseFilter>(
    ex: E,
    filter: F,
    cases: Seq<TestCaseRunnable>,
    program: SierraProgram,
    config: RunnerConfig,
    params: RunnerParams,
    i: int,
    closed: bool,
)
    requires
        0 <= i <= cases.len(),
        config.exit_first,
    ensures
        ({
            let sched = spec_schedule_from(ex, filter, cases, program, config, params, i, closed);
            let inc = spec_included_from(filter, cases, i);
            &&& sched.1 == (closed || exists|j: int|
                0 <= j < sched.0.len() && (#[trigger] sched.0[j])
                    matches TestCaseSummary::Failed { .. })
            &&& forall|j: int, l: int|
                0 <= j < l < inc.len() && ((#[trigger] sched.0[j])
                    matches TestCaseSummary::Failed { .. }) && !(#[trigger] inc[l]).ignored
                    ==> sched.0[l] == TestCaseSummary::Skipped {}
        }),
    decreases cases.len() - i,
{
    lemma_schedule_correspondence(ex, filter, cases, program, config, params, i, closed);
    let sched = spec_schedule_from(ex, filter, cases, program, config, params, i, closed);
    let inc = spec_included_from(filter, cases, i);
    if i == cases.len() {
        assert(!(exists|j: int|
            0 <= j < sched.0.len() && (#[trigger] sched.0[j]) matches TestCaseSummary::Failed {
                ..
            }));
    } else if !filter.spec_should_be_run(&cases[i]) {
        lemma_exit_first(ex, filter, cases, program, config, params, i + 1, closed);
    } else {
        let s = spec_case_outcome(ex, cases[i], program, config, params, closed);
        if s matches TestCaseSummary::Failed { .. } {
            let rest = spec_schedule_from(ex, filter, cases, program, config, params, i + 1, true);
            let rest_inc = spec_included_from(filter, cases, i + 1);
            lemma_schedule_closed(ex, filter, cases, program, config, params, i + 1);
            assert(sched.0[0] == s);
            assert(sched.1 == true);
            assert forall|j: int, l: int|
                0 <= j < l < inc.len() && ((#[trigger] sched.0[j])
                    matches TestCaseSummary::Failed { .. }) && !(#[trigger] inc[l]).ignored
                    implies sched.0[l] == TestCaseSummary::Skipped {} by {
                assert(inc[l] == rest_inc[l - 1]);
                assert(sched.0[l] == rest.0[l - 1]);
            }
        } else {
            let closed2 = closed || (config.exit_first && s matches TestCaseSummary::Failed {
                ..
            });
            assert(closed2 == closed);
            lemma_exit_first(ex, filter, cases, program, config, params, i + 1, closed);
            let rest = spec_schedule_from(ex, filter, cases, program, config, params, i + 1, closed);
            let rest_inc = spec_included_from(filter, cases, i + 1);
            assert(sched.0[0] == s);
            if exists|j: int|
                0 <= j < sched.0.len() && (#[trigger] sched.0[j]) matches TestCaseSummary::Failed {
                    ..
                } {
                let jf = choose|j: int|
                    0 <= j < sched.0.len() && (#[trigger] sched.0[j])
                        matches TestCaseSummary::Failed { .. };
                assert(jf != 0);
                assert(rest.0[jf - 1] == sched.0[jf]);
                assert(exists|j: int|
                    0 <= j < rest.0.len() && (#[trigger] rest.0[j])
                        matches TestCaseSummary::Failed { .. });
            }
            if exists|j: int|
                0 <= j < rest.0.len() && (#[trigger] rest.0[j]) matches TestCaseSummary::Failed {
                    ..
                } {
                let jr = choose|j: int|
                    0 <= j < rest.0.len() && (#[trigger] rest.0[j])
                        matches TestCaseSummary::Failed { .. };
                assert(sched.0[jr + 1] == rest.0[jr]);
                assert(exists|j: int|
                    0 <= j < sched.0.len() && (#[trigger] sched.0[j])
                        matches TestCaseSummary::Failed { .. });
            }
            assert forall|j: int, l: int|
                0 <= j < l < inc.len() && ((#[trigger] sched.0[j])
                    matches TestCaseSummary::Failed { .. }) && !(#[trigger] inc[l]).ignored
                    implies sched.0[l] == TestCaseSummary::Skipped {} by {
                assert(j != 0);
                assert(sched.0[j] == rest.0[j - 1]);
                assert(inc[l] == rest_inc[l - 1]);
                assert(sched.0[l] == rest.0[l - 1]);
            }
        }
    }
}

/// A deterministic case (empty fuzzable signature) reports exactly what its
/// single execution returned, with no run count: a pass with the gas the
/// executor measured, or a failure with the executor's reason.
pub proof fn lemma_deterministic_case<E: TestExecutor>(
    ex: E,
    c: TestCaseRunnable,
    d: TestDetailsView,
    program: SierraProgram,
    config: RunnerConfig,
    params: RunnerParams,
)
    requires
        !c.ignored,
        spec_case_plan(c.name@, program) == Some((Seq::<TypeId>::empty(), d)),
    ensures
        ex.spec_execute(c, d, Seq::empty(), params) matches SingleRunOutcome::Passed { gas_used }
            ==> spec_case_outcome(ex, c, program, config, params, false)
            == (TestCaseSummary::Passed { name: c.name, gas_used, runs: None, gas_usage: None }),
        ex.spec_execute(c, d, Seq::empty(), params) matches SingleRunOutcome::Failed { msg }
            ==> spec_case_outcome(ex, c, program, config, params, false)
            == (TestCaseSummary::Failed { name: c.name, msg, runs: None }),
{
}

/// Determinism of a whole run: identical cases, configuration, filter and
/// executor behavior report the identical summaries and the identical
/// interruption decision.
pub proof fn lemma_schedule_deterministic<E: TestExecutor, F: TestCaseFilter>(
    ex1: E,
    ex2: E,
    filter1: F,
    filter2: F,
    cases1: Seq<TestCaseRunnable>,
    cases2: Seq<TestCaseRunnable>,
    program1: SierraProgram,
    program2: SierraProgram,
    config1: RunnerConfig,
    config2: RunnerConfig,
    params1: RunnerParams,
    params2: RunnerParams,
)
    requires
        ex1 == ex2,
        filter1 == filter2,
        cases1 == cases2,
        program1 == program2,
        config1 == config2,
        params1 == params2,
    ensures
        spec_schedule_from(ex1, filter1, cases1, program1, config1, params1, 0, false)
            == spec_schedule_from(ex2, filter2, cases2, program2, config2, params2, 0, false),
{
}

/// Extract the plan of every case that is due to run; the first case whose
/// metadata cannot be extracted fails the whole crate.
#[verifier::rlimit(100)]
fn build_plans<F: TestCaseFilter>(
    cases: &Vec<TestCaseRunnable>,
    program: &SierraProgram,
    tests_filter: &F,
) -> (r: Result<Vec<Option<CasePlan>>, SetupError>)
    ensures
        r is Ok <==> spec_setup_ok(*tests_filter, cases@, *program),
        r matches Ok(plans) ==> plans@.len() == cases@.len() && (forall|j: int|
            0 <= j < cases@.len() && tests_filter.spec_should_be_run(&(#[trigger] cases@[j]))
                && !cases@[j].ignored ==> (plans@[j] matches Some(p) && spec_case_plan(
                cases@[j].name@,
                *program,
            ) == Some((p.args@, p.details@)))),
        r matches Err(e) ==> (exists|i: int|
            0 <= i < cases@.len() && tests_filter.spec_should_be_run(&(#[trigger] cases@[i]))
                && !cases@[i].ignored && spec_case_plan(cases@[i].name@, *program) is None
                && (match e {
                SetupError::FunctionNotFound(n) => n == cases@[i].name,
                SetupError::TypeResolutionFailed(n) => n == cases@[i].name,
            })),
{
    let n = cases.len();
    let mut plans: Vec<Option<CasePlan>> = Vec::new();
    let mut i: usize = 0;
    while i < n
        invariant
            0 <= i <= n,
            n == cases@.len(),
            plans@.len() == i,
            forall|j: int|
                0 <= j < i && tests_filter.spec_should_be_run(&(#[trigger] cases@[j]))
                    && !cases@[j].ignored ==> (plans@[j] matches Some(p) && spec_case_plan(
                    cases@[j].name@,
                    *program,
                ) == Some((p.args@, p.details@))),
        decreases n - i,
    {
        let case = &cases[i];
        if tests_filter.should_be_run(case) && !case.ignored {
            match find_function(program, case.name.as_str()) {
                None => {
                    proof {
                        assert(spec_case_plan(cases@[i as int].name@, *program) is None);
                        assert(tests_filter.spec_should_be_run(&cases@[i as int])
                            && !cases@[i as int].ignored);
                    }
                    return Err(SetupError::FunctionNotFound(case.name.clone()));
                },
                Some(f) => {
                    let args = function_args(f);
                    match build_test_details(case.name.as_str(), program) {
                        None => {
                            proof {
                                assert(spec_case_plan(cases@[i as int].name@, *program) is None);
                                assert(tests_filter.spec_should_be_run(&cases@[i as int])
                                    && !cases@[i as int].ignored);
                            }
                            return Err(SetupError::TypeResolutionFailed(case.name.clone()));
                        },
                        Some(details) => {
                            plans.push(Some(CasePlan { args, details }));
                        },
                    }
                },
            }
        } else {
            plans.push(None);
        }
        i = i + 1;
    }
    Ok(plans)
}

/// One scheduled case, as the dispatcher decides it; the plan must be the
/// case's own when the case is due to execute.
fn run_scheduled_case<E: TestExecutor>(
    case: &TestCaseRunnable,
    plan: &Option<CasePlan>,
    closed: bool,
    runner_config: &RunnerConfig,
    runner_params: &RunnerParams,
    executor: &E,
    Ghost(program): Ghost<SierraProgram>,
) -> (r: TestCaseSummary)
    requires
        !case.ignored && !closed ==> (*plan matches Some(p) && spec_case_plan(case.name@, program)
            == Some((p.args@, p.details@))),
        !case.ignored && !closed && (spec_case_plan(case.name@, program) matches Some(p)
            && p.0.len() > 0 && spec_classified_sig(p.0) is Ok) ==> spec_resolved_fuzzer(
            *case,
            *runner_config,
        ).fuzzer_runs >= 1,
    ensures
        r == spec_case_outcome(*executor, *case, program, *runner_config, *runner_params, closed),
{
    if case.ignored {
        TestCaseSummary::Ignored { name: case.name.clone() }
    } else if closed {
        TestCaseSummary::Skipped {}
    } else {
        match plan {
            Some(plan) => choose_test_strategy_and_run(
                &plan.args,
                case,
                &plan.details,
                runner_config,
                runner_params,
                executor,
            ),
            None => vstd::pervasive::unreached(),
        }
    }
}

proof fn lemma_schedule_skip<E: TestExecutor, F: TestCaseFilter>(
    ex: E,
    filter: F,
    cases: Seq<TestCaseRunnable>,
    program: SierraProgram,
    config: RunnerConfig,
    params: RunnerParams,
    i: int,
    closed: bool,
)
    requires
        0 <= i < cases.len(),
        !filter.spec_should_be_run(&cases[i]),
    ensures
        spec_schedule_from(ex, filter, cases, program, config, params, i, closed)
            == spec_schedule_from(ex, filter, cases, program, config, params, i + 1, closed),
{
}

proof fn lemma_schedule_step<E: TestExecutor, F: TestCaseFilter>(
    ex: E,
    filter: F,
    cases: Seq<TestCaseRunnable>,
    program: SierraProgram,
    config: RunnerConfig,
    params: RunnerParams,
    i: int,
    closed: bool,
)
    requires
        0 <= i < cases.len(),
        filter.spec_should_be_run(&cases[i]),
    ensures
        ({
            let s = spec_case_outcome(ex, cases[i], program, config, params, closed);
            let closed2 = closed || (config.exit_first && s matches TestCaseSummary::Failed {
                ..
            });
            let rest = spec_schedule_from(ex, filter, cases, program, config, params, i, closed);
            let next = spec_schedule_from(
                ex,
                filter,
                cases,
                program,
                config,
                params,
                i + 1,
                closed2,
            );
            rest.0 == seq![s] + next.0 && rest.1 == next.1
        }),
{
}

/// Dispatch one case to the path its signature calls for: a single run when
/// the fuzzable signature is empty, a fuzzing campaign otherwise.
fn choose_test_strategy_and_run<E: TestExecutor>(
    args: &Vec<TypeId>,
    case: &TestCaseRunnable,
    details: &TestDetails,
    runner_config: &RunnerConfig,
    runner_params: &RunnerParams,
    executor: &E,
) -> (r: TestCaseSummary)
    requires
        args@.len() > 0 && spec_classified_sig(args@) is Ok ==> spec_resolved_fuzzer(
            *case,
            *runner_config,
        ).fuzzer_runs >= 1,
    ensures
        r == (if args@.len() == 0 {
            spec_single_outcome(*executor, *case, details@, *runner_params)
        } else {
            spec_fuzz_outcome(*executor, *case, details@, *runner_params, args@, *runner_config)
        }),
{
    if args.len() == 0 {
        run_test(case, details, runner_params, executor)
    } else {
        run_with_fuzzing(args, case, details, runner_config, runner_params, executor)
    }
}

} // verus!
