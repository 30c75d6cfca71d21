use vstd::prelude::*;
use vstd::pervasive::unreached;
use crate::details::{TestDetails, TestDetailsView, TypeId};
use crate::fuzzer::{spec_next_args, spec_run_args, spec_state_after_runs, spec_supported,
    FuzzerError, RandomFuzzer, SupportedType};
use crate::test_case_summary::{FuzzingGasUsage, SingleRunOutcome, TestCaseSummary};
use crate::{FuzzerConfig, RunnerConfig, RunnerParams, TestCaseRunnable};

verus! {

/// The opaque single-shot executor the engine dispatches to. One call runs
/// one case once with one argument tuple; the outcome is a function of the
/// shown arguments, which is what makes replays meaningful.
pub trait TestExecutor {
    /// The outcome as a function of the shown inputs; defaults to an
    /// arbitrary fixed function so that unverified impls need only supply
    /// the executable method.
    open spec fn spec_execute(
        &self,
        case: TestCaseRunnable,
        details: TestDetailsView,
        args: Seq<u128>,
        params: RunnerParams,
    ) -> SingleRunOutcome {
        vstd::pervasive::arbitrary()
    }

    fn execute_single(
        &self,
        case: &TestCaseRunnable,
        details: &TestDetails,
        args: &Vec<u128>,
        params: &RunnerParams,
    ) -> (r: SingleRunOutcome)
        ensures
            r == self.spec_execute(*case, details@, args@, *params),
    ;
}

/// The fuzzer settings a case runs under: its own override when present,
/// the crate-level defaults otherwise.
pub open spec fn spec_resolved_fuzzer(case: TestCaseRunnable, config: RunnerConfig) -> FuzzerConfig {
    match case.fuzzer_config {
        Some(fc) => fc,
        None => FuzzerConfig { fuzzer_runs: config.fuzzer_runs, fuzzer_seed: config.fuzzer_seed },
    }
}

/// Overlay the case-level fuzzer settings on the crate-level defaults.
pub fn resolve_fuzzer_config(case: &TestCaseRunnable, config: &RunnerConfig) -> (r: FuzzerConfig)
    ensures
        r == spec_resolved_fuzzer(*case, *config),
{
    match &case.fuzzer_config {
        Some(fc) => FuzzerConfig { fuzzer_runs: fc.fuzzer_runs, fuzzer_seed: fc.fuzzer_seed },
        None => FuzzerConfig {
            fuzzer_runs: config.fuzzer_runs,
            fuzzer_seed: config.fuzzer_seed,
        },
    }
}

/// Classify a fuzzable signature: the supported type of every parameter in
/// order, or the first parameter that has no debug name or an unsupported
/// one.
pub open spec fn spec_classified_sig(sig: Seq<TypeId>) -> Result<Seq<SupportedType>, TypeId>
    decreases sig.len(),
{
    if sig.len() == 0 {
        Ok(Seq::empty())
    } else {
        match spec_classified_sig(sig.drop_last()) {
            Err(x) => Err(x),
            Ok(rest) => {
                let pt = sig.last();
                match pt.debug_name {
                    None => Err(pt),
                    Some(n) => match spec_supported(n@) {
                        None => Err(pt),
                        Some(t) => Ok(rest.push(t)),
                    },
                }
            },
        }
    }
}

proof fn lemma_classified_err_extends(sig: Seq<TypeId>, k: int)
    requires
        0 <= k <= sig.len(),
        spec_classified_sig(sig.subrange(0, k)) is Err,
    ensures
        spec_classified_sig(sig) == spec_classified_sig(sig.subrange(0, k)),
    decreases sig.len() - k,
{
    if k < sig.len() {
        assert(sig.subrange(0, k + 1).drop_last() =~= sig.subrange(0, k));
        lemma_classified_err_extends(sig, k + 1);
    } else {
        assert(sig.subrange(0, k) =~= sig);
    }
}

/// The outcome the executor returns for run `k` of a campaign.
pub open spec fn spec_run_outcome<E: TestExecutor>(
    ex: E,
    case: TestCaseRunnable,
    details: TestDetailsView,
    params: RunnerParams,
    ts: Seq<SupportedType>,
    seed: u64,
    k: int,
) -> SingleRunOutcome {
    ex.spec_execute(case, details, spec_run_args(ts, seed, k as nat), params)
}

/// The gas a single-run outcome reports; zero for a failure.
pub open spec fn spec_outcome_gas(o: SingleRunOutcome) -> u64 {
    match o {
        SingleRunOutcome::Passed { gas_used } => gas_used,
        SingleRunOutcome::Failed { .. } => 0,
    }
}

/// The reason a single-run outcome reports; nothing for a pass.
pub open spec fn spec_outcome_msg(o: SingleRunOutcome) -> Option<String> {
    match o {
        SingleRunOutcome::Passed { .. } => None,
        SingleRunOutcome::Failed { msg } => msg,
    }
}

/// The per-run summary a campaign records for run `k`, not yet decorated.
pub open spec fn spec_run_summary<E: TestExecutor>(
    ex: E,
    case: TestCaseRunnable,
    details: TestDetailsView,
    params: RunnerParams,
    ts: Seq<SupportedType>,
    seed: u64,
    k: int,
) -> TestCaseSummary {
    match spec_run_outcome(ex, case, details, params, ts, seed, k) {
        SingleRunOutcome::Passed { gas_used } => (TestCaseSummary::Passed {
            name: case.name,
            gas_used,
            runs: None,
            gas_usage: None,
        }),
        SingleRunOutcome::Failed { msg } => (TestCaseSummary::Failed {
            name: case.name,
            msg,
            runs: None,
        }),
    }
}

/// The index of the first failed run among the first `n`, if any.
pub open spec fn spec_first_failure<E: TestExecutor>(
    ex: E,
    case: TestCaseRunnable,
    details: TestDetailsView,
    params: RunnerParams,
    ts: Seq<SupportedType>,
    seed: u64,
    n: int,
) -> Option<int>
    decreases n,
{
    if n <= 0 {
        None
    } else {
        match spec_first_failure(ex, case, details, params, ts, seed, n - 1) {
            Some(k) => Some(k),
            None => if spec_run_outcome(ex, case, details, params, ts, seed, n - 1)
                matches SingleRunOutcome::Failed { .. } {
                Some(n - 1)
            } else {
                None
            },
        }
    }
}

/// The least gas any of the first `n` runs reported.
pub open spec fn spec_min_gas<E: TestExecutor>(
    ex: E,
    case: TestCaseRunnable,
    details: TestDetailsView,
    params: RunnerParams,
    ts: Seq<SupportedType>,
    seed: u64,
    n: int,
) -> u64
    decreases n,
{
    if n <= 1 {
        spec_outcome_gas(spec_run_outcome(ex, case, details, params, ts, seed, 0))
    } else {
        let m = spec_min_gas(ex, case, details, params, ts, seed, n - 1);
        let g = spec_outcome_gas(spec_run_outcome(ex, case, details, params, ts, seed, n - 1));
        if g < m {
            g
        } else {
            m
        }
    }
}

/// The greatest gas any of the first `n` runs reported.
pub open spec fn spec_max_gas<E: TestExecutor>(
    ex: E,
    case: TestCaseRunnable,
    details: TestDetailsView,
    params: RunnerParams,
    ts: Seq<SupportedType>,
    seed: u64,
    n: int,
) -> u64
    decreases n,
{
    if n <= 1 {
        spec_outcome_gas(spec_run_outcome(ex, case, details, params, ts, seed, 0))
    } else {
        let m = spec_max_gas(ex, case, details, params, ts, seed, n - 1);
        let g = spec_outcome_gas(spec_run_outcome(ex, case, details, params, ts, seed, n - 1));
        if g > m {
            g
        } else {
            m
        }
    }
}

/// The single decorated outcome a whole campaign of `runs` runs reports: the
/// first failure, counted and named, or a pass over every run with the gas
/// statistics of the campaign.
pub open spec fn spec_campaign_outcome<E: TestExecutor>(
    ex: E,
    case: TestCaseRunnable,
    details: TestDetailsView,
    params: RunnerParams,
    ts: Seq<SupportedType>,
    seed: u64,
    runs: u32,
) -> TestCaseSummary {
    match spec_first_failure(ex, case, details, params, ts, seed, runs as int) {
        Some(k) => (TestCaseSummary::Failed {
            name: case.name,
            msg: spec_outcome_msg(spec_run_outcome(ex, case, details, params, ts, seed, k)),
            runs: Some((k + 1) as u32),
        }),
        None => (TestCaseSummary::Passed {
            name: case.name,
            gas_used: spec_outcome_gas(
                spec_run_outcome(ex, case, details, params, ts, seed, runs as int - 1),
            ),
            runs: Some(runs),
            gas_usage: Some(
                FuzzingGasUsage {
                    min: spec_min_gas(ex, case, details, params, ts, seed, runs as int),
                    max: spec_max_gas(ex, case, details, params, ts, seed, runs as int),
                },
            ),
        }),
    }
}

/// The outcome of the fuzzed path for a case: a configuration failure names
/// the offending parameter, otherwise the campaign runs under the resolved
/// fuzzer settings.
pub open spec fn spec_fuzz_outcome<E: TestExecutor>(
    ex: E,
    case: TestCaseRunnable,
    details: TestDetailsView,
    params: RunnerParams,
    sig: Seq<TypeId>,
    config: RunnerConfig,
) -> TestCaseSummary {
    match spec_classified_sig(sig) {
        Err(pt) => (TestCaseSummary::Failed { name: case.name, msg: pt.debug_name, runs: None }),
        Ok(ts) => spec_campaign_outcome(
            ex,
            case,
            details,
            params,
            ts,
            spec_resolved_fuzzer(case, config).fuzzer_seed,
            spec_resolved_fuzzer(case, config).fuzzer_runs,
        ),
    }
}

/// The outcome of the deterministic path: a single run with no arguments.
pub open spec fn spec_single_outcome<E: TestExecutor>(
    ex: E,
    case: TestCaseRunnable,
    details: TestDetailsView,
    params: RunnerParams,
) -> TestCaseSummary {
    match ex.spec_execute(case, details, Seq::empty(), params) {
        SingleRunOutcome::Passed { gas_used } => (TestCaseSummary::Passed {
            name: case.name,
            gas_used,
            runs: None,
            gas_usage: None,
        }),
        SingleRunOutcome::Failed { msg } => (TestCaseSummary::Failed {
            name: case.name,
            msg,
            runs: None,
        }),
    }
}

/// How many of the collected per-run summaries decided: passed or failed.
pub open spec fn spec_decided_count(results: Seq<TestCaseSummary>) -> int
    decreases results.len(),
{
    if results.len() == 0 {
        0
    } else {
        spec_decided_count(results.drop_last()) + (match results.last() {
            TestCaseSummary::Passed { .. } => 1int,
            TestCaseSummary::Failed { .. } => 1int,
            _ => 0int,
        })
    }
}

/// The gas of every passed run among the collected summaries, in order.
pub open spec fn spec_passed_gases(results: Seq<TestCaseSummary>) -> Seq<u64>
    decreases results.len(),
{
    if results.len() == 0 {
        Seq::empty()
    } else {
        let rest = spec_passed_gases(results.drop_last());
        match results.last() {
            TestCaseSummary::Passed { gas_used, .. } => rest.push(gas_used),
            _ => rest,
        }
    }
}

/// The least of a non-empty sequence of gas amounts.
pub open spec fn spec_seq_min(s: Seq<u64>) -> u64
    decreases s.len(),
{
    if s.len() <= 1 {
        s[0]
    } else {
        let m = spec_seq_min(s.drop_last());
        if s.last() < m {
            s.last()
        } else {
            m
        }
    }
}

/// The greatest of a non-empty sequence of gas amounts.
pub open spec fn spec_seq_max(s: Seq<u64>) -> u64
    decreases s.len(),
{
    if s.len() <= 1 {
        s[0]
    } else {
        let m = spec_seq_max(s.drop_last());
        if s.last() > m {
            s.last()
        } else {
            m
        }
    }
}

/// What aggregating a campaign's collected per-run summaries yields: the
/// final outcome is the last one observed; the run count is the number of
/// decided runs; a pass whose campaign did not fully decide is reclassified
/// skipped; a full pass carries the gas statistics of its passed runs.
pub open spec fn spec_aggregate_fuzz(
    results: Seq<TestCaseSummary>,
    fuzzer_runs: u32,
) -> TestCaseSummary {
    let runs = spec_decided_count(results) as u32;
    let last = results.last();
    if last matches TestCaseSummary::Passed { .. } && spec_decided_count(results)
        != fuzzer_runs as int {
        TestCaseSummary::Skipped {}
    } else {
        let gas_usage = if last matches TestCaseSummary::Passed { .. } {
            Some(
                FuzzingGasUsage {
                    min: spec_seq_min(spec_passed_gases(results)),
                    max: spec_seq_max(spec_passed_gases(results)),
                },
            )
        } else {
            None
        };
        last.spec_with_runs_and_gas_usage(runs, gas_usage)
    }
}

/// Soundness of aggregation under cancellation: the campaign reports the
/// last collected outcome, so when that is not a pass — the drain stops
/// collecting at the first failure, which therefore closes the collection —
/// the campaign never reports one.
pub proof fn lemma_aggregate_never_invents_a_pass(results: Seq<TestCaseSummary>, fuzzer_runs: u32)
    requires
        1 <= results.len(),
        !(results.last() matches TestCaseSummary::Passed { .. }),
    ensures
        (!(spec_aggregate_fuzz(results, fuzzer_runs) matches TestCaseSummary::Passed { .. })),
{
}

/// A pass that arrives after runs were preempted does not count: with fewer
/// decided runs than the campaign asked for, the case is reported skipped.
pub proof fn lemma_aggregate_partial_pass_is_skipped(
    results: Seq<TestCaseSummary>,
    fuzzer_runs: u32,
)
    requires
        1 <= results.len(),
        (results.last() matches TestCaseSummary::Passed { .. }),
        spec_decided_count(results) != fuzzer_runs as int,
    ensures
        spec_aggregate_fuzz(results, fuzzer_runs) == (TestCaseSummary::Skipped {}),
{
}

/// Aggregate the per-run summaries a campaign collected, in arrival order,
/// into the one outcome the case reports.
pub fn aggregate_fuzz_results(results: Vec<TestCaseSummary>, fuzzer_runs: u32) -> (r:
    TestCaseSummary)
    requires
        1 <= results@.len() <= u32::MAX,
    ensures
        r == spec_aggregate_fuzz(results@, fuzzer_runs),
{
    let n = results.len();
    let mut decided: u32 = 0;
    let mut has_passed: bool = false;
    let mut min_gas: u64 = 0;
    let mut max_gas: u64 = 0;
    let mut i: usize = 0;
    while i < n
        invariant
            0 <= i <= n,
            n == results@.len(),
            n <= u32::MAX,
            decided == spec_decided_count(results@.subrange(0, i as int)),
            decided <= i,
            has_passed == (spec_passed_gases(results@.subrange(0, i as int)).len() > 0),
            has_passed ==> min_gas == spec_seq_min(spec_passed_gases(results@.subrange(0, i as int)))
                && max_gas == spec_seq_max(spec_passed_gases(results@.subrange(0, i as int))),
        decreases n - i,
    {
        proof {
            assert(results@.subrange(0, i as int + 1).drop_last() =~= results@.subrange(
                0,
                i as int,
            ));
            assert(results@.subrange(0, i as int + 1).last() == results@[i as int]);
        }
        match &results[i] {
            TestCaseSummary::Passed { gas_used, .. } => {
                proof {
                    let prev = spec_passed_gases(results@.subrange(0, i as int));
                    assert(prev.push(*gas_used).drop_last() =~= prev);
                }
                if !has_passed {
                    min_gas = *gas_used;
                    max_gas = *gas_used;
                    has_passed = true;
                } else {
                    if *gas_used < min_gas {
                        min_gas = *gas_used;
                    }
                    if *gas_used > max_gas {
                        max_gas = *gas_used;
                    }
                }
                decided = decided + 1;
            },
            TestCaseSummary::Failed { .. } => {
                decided = decided + 1;
            },
            _ => {},
        }
        i = i + 1;
    }
    proof {
        assert(results@.subrange(0, n as int) =~= results@);
    }
    let mut results = results;
    let last: TestCaseSummary = match results.pop() {
        Some(s) => s,
        None => unreached(),
    };
    let last_passed: bool = match &last {
        TestCaseSummary::Passed { .. } => true,
        _ => false,
    };
    if last_passed && decided != fuzzer_runs {
        return TestCaseSummary::Skipped {};
    }
    let gas_usage: Option<FuzzingGasUsage> = if last_passed {
        Some(FuzzingGasUsage { min: min_gas, max: max_gas })
    } else {
        None
    };
    last.with_runs_and_gas_usage(decided, gas_usage)
}

proof fn lemma_decided_count_full(results: Seq<TestCaseSummary>)
    requires
        forall|j: int|
            0 <= j < results.len() ==> ((#[trigger] results[j])
                matches TestCaseSummary::Passed { .. } || results[j]
                matches TestCaseSummary::Failed { .. }),
    ensures
        spec_decided_count(results) == results.len(),
    decreases results.len(),
{
    if results.len() > 0 {
        lemma_decided_count_full(results.drop_last());
    }
}

proof fn lemma_passed_gases_match<E: TestExecutor>(
    ex: E,
    case: TestCaseRunnable,
    details: TestDetailsView,
    params: RunnerParams,
    ts: Seq<SupportedType>,
    seed: u64,
    results: Seq<TestCaseSummary>,
)
    requires
        forall|j: int|
            0 <= j < results.len() ==> (#[trigger] results[j]) == spec_run_summary(
                ex,
                case,
                details,
                params,
                ts,
                seed,
                j,
            ),
        forall|j: int|
            0 <= j < results.len() ==> (#[trigger] spec_run_outcome(
                ex,
                case,
                details,
                params,
                ts,
                seed,
                j,
            )) matches SingleRunOutcome::Passed { .. },
    ensures
        spec_passed_gases(results).len() == results.len(),
        forall|j: int|
            0 <= j < results.len() ==> spec_passed_gases(results)[j] == spec_outcome_gas(
                #[trigger] spec_run_outcome(ex, case, details, params, ts, seed, j),
            ),
    decreases results.len(),
{
    if results.len() > 0 {
        lemma_passed_gases_match(ex, case, details, params, ts, seed, results.drop_last());
    }
}

proof fn lemma_seq_bounds_are_gas_bounds<E: TestExecutor>(
    ex: E,
    case: TestCaseRunnable,
    details: TestDetailsView,
    params: RunnerParams,
    ts: Seq<SupportedType>,
    seed: u64,
    gases: Seq<u64>,
    n: int,
)
    requires
        n == gases.len(),
        n >= 1,
        forall|j: int|
            0 <= j < n ==> gases[j] == spec_outcome_gas(
                #[trigger] spec_run_outcome(ex, case, details, params, ts, seed, j),
            ),
    ensures
        spec_seq_min(gases) == spec_min_gas(ex, case, details, params, ts, seed, n),
        spec_seq_max(gases) == spec_max_gas(ex, case, details, params, ts, seed, n),
    decreases n,
{
    if n > 1 {
        lemma_seq_bounds_are_gas_bounds(
            ex,
            case,
            details,
            params,
            ts,
            seed,
            gases.drop_last(),
            n - 1,
        );
    }
}

proof fn lemma_no_failure<E: TestExecutor>(
    ex: E,
    case: TestCaseRunnable,
    details: TestDetailsView,
    params: RunnerParams,
    ts: Seq<SupportedType>,
    seed: u64,
    n: int,
)
    requires
        forall|j: int|
            0 <= j < n ==> !((#[trigger] spec_run_outcome(ex, case, details, params, ts, seed, j))
                matches SingleRunOutcome::Failed { .. }),
    ensures
        spec_first_failure(ex, case, details, params, ts, seed, n) is None,
    decreases n,
{
    if n > 0 {
        lemma_no_failure(ex, case, details, params, ts, seed, n - 1);
    }
}

proof fn lemma_first_failure_at<E: TestExecutor>(
    ex: E,
    case: TestCaseRunnable,
    details: TestDetailsView,
    params: RunnerParams,
    ts: Seq<SupportedType>,
    seed: u64,
    n: int,
    k: int,
)
    requires
        0 <= k < n,
        forall|j: int|
            0 <= j < k ==> !((#[trigger] spec_run_outcome(ex, case, details, params, ts, seed, j))
                matches SingleRunOutcome::Failed { .. }),
        spec_run_outcome(ex, case, details, params, ts, seed, k) matches SingleRunOutcome::Failed {
            ..
        },
    ensures
        spec_first_failure(ex, case, details, params, ts, seed, n) == Some(k),
    decreases n,
{
    if n - 1 > k {
        lemma_first_failure_at(ex, case, details, params, ts, seed, n - 1, k);
    } else {
        lemma_no_failure(ex, case, details, params, ts, seed, k);
    }
}

proof fn lemma_first_none_all_pass<E: TestExecutor>(
    ex: E,
    case: TestCaseRunnable,
    details: TestDetailsView,
    params: RunnerParams,
    ts: Seq<SupportedType>,
    seed: u64,
    n: int,
)
    requires
        spec_first_failure(ex, case, details, params, ts, seed, n) is None,
    ensures
        forall|j: int|
            0 <= j < n ==> !((#[trigger] spec_run_outcome(ex, case, details, params, ts, seed, j))
                matches SingleRunOutcome::Failed { .. }),
    decreases n,
{
    if n > 0 {
        lemma_first_none_all_pass(ex, case, details, params, ts, seed, n - 1);
    }
}

proof fn lemma_first_failure_some<E: TestExecutor>(
    ex: E,
    case: TestCaseRunnable,
    details: TestDetailsView,
    params: RunnerParams,
    ts: Seq<SupportedType>,
    seed: u64,
    n: int,
)
    requires
        exists|k: int|
            0 <= k < n && (#[trigger] spec_run_outcome(ex, case, details, params, ts, seed, k))
                matches SingleRunOutcome::Failed { .. },
    ensures
        spec_first_failure(ex, case, details, params, ts, seed, n) is Some,
    decreases n,
{
    if spec_first_failure(ex, case, details, params, ts, seed, n) is None {
        lemma_first_none_all_pass(ex, case, details, params, ts, seed, n);
    }
}

proof fn lemma_min_gas_bounds<E: TestExecutor>(
    ex: E,
    case: TestCaseRunnable,
    details: TestDetailsView,
    params: RunnerParams,
    ts: Seq<SupportedType>,
    seed: u64,
    n: int,
)
    requires
        n >= 1,
    ensures
        forall|k: int|
            0 <= k < n ==> spec_min_gas(ex, case, details, params, ts, seed, n)
                <= spec_outcome_gas(
                #[trigger] spec_run_outcome(ex, case, details, params, ts, seed, k),
            ),
        exists|k: int|
            0 <= k < n && spec_min_gas(ex, case, details, params, ts, seed, n)
                == spec_outcome_gas(
                #[trigger] spec_run_outcome(ex, case, details, params, ts, seed, k),
            ),
    decreases n,
{
    if n > 1 {
        lemma_min_gas_bounds(ex, case, details, params, ts, seed, n - 1);
        let m = spec_min_gas(ex, case, details, params, ts, seed, n - 1);
        let g = spec_outcome_gas(spec_run_outcome(ex, case, details, params, ts, seed, n - 1));
        if g < m {
            assert(spec_min_gas(ex, case, details, params, ts, seed, n) == g);
            assert(0 <= n - 1 < n && spec_min_gas(ex, case, details, params, ts, seed, n)
                == spec_outcome_gas(spec_run_outcome(ex, case, details, params, ts, seed, n - 1)));
        } else {
            let k0 = choose|k: int|
                0 <= k < n - 1 && m == spec_outcome_gas(
                    #[trigger] spec_run_outcome(ex, case, details, params, ts, seed, k),
                );
            assert(spec_min_gas(ex, case, details, params, ts, seed, n) == m);
            assert(0 <= k0 < n && spec_min_gas(ex, case, details, params, ts, seed, n)
                == spec_outcome_gas(spec_run_outcome(ex, case, details, params, ts, seed, k0)));
        }
    } else {
        assert(spec_min_gas(ex, case, details, params, ts, seed, n) == spec_outcome_gas(
            spec_run_outcome(ex, case, details, params, ts, seed, 0),
        ));
    }
}

proof fn lemma_max_gas_bounds<E: TestExecutor>(
    ex: E,
    case: TestCaseRunnable,
    details: TestDetailsView,
    params: RunnerParams,
    ts: Seq<SupportedType>,
    seed: u64,
    n: int,
)
    requires
        n >= 1,
    ensures
        forall|k: int|
            0 <= k < n ==> spec_outcome_gas(
                #[trigger] spec_run_outcome(ex, case, details, params, ts, seed, k),
            ) <= spec_max_gas(ex, case, details, params, ts, seed, n),
        exists|k: int|
            0 <= k < n && spec_max_gas(ex, case, details, params, ts, seed, n)
                == spec_outcome_gas(
                #[trigger] spec_run_outcome(ex, case, details, params, ts, seed, k),
            ),
    decreases n,
{
    if n > 1 {
        lemma_max_gas_bounds(ex, case, details, params, ts, seed, n - 1);
        let m = spec_max_gas(ex, case, details, params, ts, seed, n - 1);
        let g = spec_outcome_gas(spec_run_outcome(ex, case, details, params, ts, seed, n - 1));
        if g > m {
            assert(spec_max_gas(ex, case, details, params, ts, seed, n) == g);
            assert(0 <= n - 1 < n && spec_max_gas(ex, case, details, params, ts, seed, n)
                == spec_outcome_gas(spec_run_outcome(ex, case, details, params, ts, seed, n - 1)));
        } else {
            let k0 = choose|k: int|
                0 <= k < n - 1 && m == spec_outcome_gas(
                    #[trigger] spec_run_outcome(ex, case, details, params, ts, seed, k),
                );
            assert(spec_max_gas(ex, case, details, params, ts, seed, n) == m);
            assert(0 <= k0 < n && spec_max_gas(ex, case, details, params, ts, seed, n)
                == spec_outcome_gas(spec_run_outcome(ex, case, details, params, ts, seed, k0)));
        }
    } else {
        assert(spec_max_gas(ex, case, details, params, ts, seed, n) == spec_outcome_gas(
            spec_run_outcome(ex, case, details, params, ts, seed, 0),
        ));
    }
}

/// A fuzzing campaign whose runs all pass reports a pass decorated with the
/// full run count and with gas statistics that are the least and greatest
/// gas any run used.
pub proof fn lemma_campaign_all_passed<E: TestExecutor>(
    ex: E,
    case: TestCaseRunnable,
    details: TestDetailsView,
    params: RunnerParams,
    ts: Seq<SupportedType>,
    seed: u64,
    runs: u32,
)
    requires
        runs >= 1,
        forall|k: int|
            0 <= k < runs ==> (#[trigger] spec_run_outcome(ex, case, details, params, ts, seed, k))
                matches SingleRunOutcome::Passed { .. },
    ensures
        spec_campaign_outcome(ex, case, details, params, ts, seed, runs)
            == (TestCaseSummary::Passed {
            name: case.name,
            gas_used: spec_outcome_gas(
                spec_run_outcome(ex, case, details, params, ts, seed, runs as int - 1),
            ),
            runs: Some(runs),
            gas_usage: Some(
                FuzzingGasUsage {
                    min: spec_min_gas(ex, case, details, params, ts, seed, runs as int),
                    max: spec_max_gas(ex, case, details, params, ts, seed, runs as int),
                },
            ),
        }),
        forall|k: int|
            0 <= k < runs ==> spec_min_gas(ex, case, details, params, ts, seed, runs as int)
                <= spec_outcome_gas(
                #[trigger] spec_run_outcome(ex, case, details, params, ts, seed, k),
            ) && spec_outcome_gas(spec_run_outcome(ex, case, details, params, ts, seed, k))
                <= spec_max_gas(ex, case, details, params, ts, seed, runs as int),
        exists|k: int|
            0 <= k < runs && spec_min_gas(ex, case, details, params, ts, seed, runs as int)
                == spec_outcome_gas(
                #[trigger] spec_run_outcome(ex, case, details, params, ts, seed, k),
            ),
        exists|k: int|
            0 <= k < runs && spec_max_gas(ex, case, details, params, ts, seed, runs as int)
                == spec_outcome_gas(
                #[trigger] spec_run_outcome(ex, case, details, params, ts, seed, k),
            ),
{
    lemma_no_failure(ex, case, details, params, ts, seed, runs as int);
    lemma_min_gas_bounds(ex, case, details, params, ts, seed, runs as int);
    lemma_max_gas_bounds(ex, case, details, params, ts, seed, runs as int);
}

/// Soundness of fuzz cancellation: a campaign one of whose runs fails never
/// reports a pass; it reports the first failure, with the count of runs
/// that decided before the campaign closed.
pub proof fn lemma_campaign_failure_sound<E: TestExecutor>(
    ex: E,
    case: TestCaseRunnable,
    details: TestDetailsView,
    params: RunnerParams,
    ts: Seq<SupportedType>,
    seed: u64,
    runs: u32,
)
    requires
        exists|k: int|
            0 <= k < runs && (#[trigger] spec_run_outcome(ex, case, details, params, ts, seed, k))
                matches SingleRunOutcome::Failed { .. },
    ensures
        spec_campaign_outcome(ex, case, details, params, ts, seed, runs)
            matches TestCaseSummary::Failed { .. },
        !(spec_campaign_outcome(ex, case, details, params, ts, seed, runs)
            matches TestCaseSummary::Passed { .. }),
{
    lemma_first_failure_some(ex, case, details, params, ts, seed, runs as int);
}

/// Determinism of a campaign: identical seed, parameter types, case, shared
/// inputs and executor behavior report the identical outcome, independently
/// of scheduling.
pub proof fn lemma_campaign_determinism<E: TestExecutor>(
    ex1: E,
    ex2: E,
    case1: TestCaseRunnable,
    case2: TestCaseRunnable,
    details1: TestDetailsView,
    details2: TestDetailsView,
    params1: RunnerParams,
    params2: RunnerParams,
    ts1: Seq<SupportedType>,
    ts2: Seq<SupportedType>,
    seed1: u64,
    seed2: u64,
    runs1: u32,
    runs2: u32,
)
    requires
        ex1 == ex2,
        case1 == case2,
        details1 == details2,
        params1 == params2,
        ts1 == ts2,
        seed1 == seed2,
        runs1 == runs2,
    ensures
        spec_campaign_outcome(ex1, case1, details1, params1, ts1, seed1, runs1)
            == spec_campaign_outcome(ex2, case2, details2, params2, ts2, seed2, runs2),
{
}

/// Run a whole fuzzing campaign for one case: classify the fuzzable
/// signature, draw one argument tuple per run from a fuzzer seeded by the
/// resolved settings, run until the first failure, and report one decorated
/// outcome. A parameter that cannot be sampled is a case-level failure whose
/// reason names it, never a crate-level error.
pub fn run_with_fuzzing<E: TestExecutor>(
    args: &Vec<TypeId>,
    case: &TestCaseRunnable,
    details: &TestDetails,
    runner_config: &RunnerConfig,
    runner_params: &RunnerParams,
    executor: &E,
) -> (r: TestCaseSummary)
    requires
        spec_classified_sig(args@) is Ok ==> spec_resolved_fuzzer(
            *case,
            *runner_config,
        ).fuzzer_runs >= 1,
    ensures
        r == spec_fuzz_outcome(
            *executor,
            *case,
            details@,
            *runner_params,
            args@,
            *runner_config,
        ),
{
    let n_args = args.len();
    let mut names: Vec<String> = Vec::new();
    let ghost mut gts: Seq<SupportedType> = Seq::empty();
    let mut i: usize = 0;
    while i < n_args
        invariant
            0 <= i <= n_args,
            n_args == args@.len(),
            spec_classified_sig(args@.subrange(0, i as int)) == Ok::<Seq<SupportedType>, TypeId>(
                gts,
            ),
            gts.len() == i,
            names@.len() == i,
            forall|j: int|
                0 <= j < i ==> Some(#[trigger] gts[j]) == spec_supported(names@[j]@),
        decreases n_args - i,
    {
        proof {
            assert(args@.subrange(0, i as int + 1).drop_last() =~= args@.subrange(0, i as int));
            assert(args@.subrange(0, i as int + 1).last() == args@[i as int]);
        }
        let pt = &args[i];
        match &pt.debug_name {
            None => {
                proof {
                    lemma_classified_err_extends(args@, i as int + 1);
                }
                return TestCaseSummary::Failed {
                    name: case.name.clone(),
                    msg: None,
                    runs: None,
                };
            },
            Some(nm) => {
                match crate::fuzzer::classify_type(nm) {
                    None => {
                        proof {
                            lemma_classified_err_extends(args@, i as int + 1);
                        }
                        return TestCaseSummary::Failed {
                            name: case.name.clone(),
                            msg: Some(nm.clone()),
                            runs: None,
                        };
                    },
                    Some(t) => {
                        names.push(nm.clone());
                        proof {
                            gts = gts.push(t);
                        }
                    },
                }
            },
        }
        i = i + 1;
    }
    proof {
        assert(args@.subrange(0, n_args as int) =~= args@);
    }

    let resolved: FuzzerConfig = resolve_fuzzer_config(case, runner_config);
    let fuzzer_runs: u32 = resolved.fuzzer_runs;
    let fuzzer_seed: u64 = resolved.fuzzer_seed;

    let mut fuzzer: RandomFuzzer = match RandomFuzzer::create(fuzzer_seed, fuzzer_runs, &names) {
        Ok(f) => f,
        Err(_) => {
            proof {
                assert forall|j: int| 0 <= j < names@.len() implies spec_supported(
                    (#[trigger] names@[j])@,
                ) is Some by {
                    assert(Some(gts[j]) == spec_supported(names@[j]@));
                }
            }
            unreached()
        },
    };
    proof {
        assert forall|j: int| 0 <= j < gts.len() implies gts[j] == fuzzer.arg_types@[j] by {
            assert(Some(fuzzer.arg_types@[j]) == spec_supported(names@[j]@));
            assert(Some(gts[j]) == spec_supported(names@[j]@));
        }
        assert(fuzzer.arg_types@ =~= gts);
    }

    let mut results: Vec<TestCaseSummary> = Vec::new();
    let mut k: u32 = 0;
    let mut failed: bool = false;
    while k < fuzzer_runs && !failed
        invariant
            0 <= k <= fuzzer_runs,
            fuzzer_runs >= 1,
            fuzzer.arg_types@ == gts,
            fuzzer.state == spec_state_after_runs(gts, fuzzer_seed, k as nat),
            results@.len() == k as int,
            forall|j: int|
                0 <= j < k ==> results@[j] == spec_run_summary(
                    *executor,
                    *case,
                    details@,
                    *runner_params,
                    gts,
                    fuzzer_seed,
                    j,
                ),
            !failed ==> forall|j: int|
                0 <= j < k ==> !((#[trigger] spec_run_outcome(
                    *executor,
                    *case,
                    details@,
                    *runner_params,
                    gts,
                    fuzzer_seed,
                    j,
                )) matches SingleRunOutcome::Failed { .. }),
            failed ==> k >= 1 && (forall|j: int|
                0 <= j < k - 1 ==> !((#[trigger] spec_run_outcome(
                    *executor,
                    *case,
                    details@,
                    *runner_params,
                    gts,
                    fuzzer_seed,
                    j,
                )) matches SingleRunOutcome::Failed { .. })) && (spec_run_outcome(
                *executor,
                *case,
                details@,
                *runner_params,
                gts,
                fuzzer_seed,
                k as int - 1,
            ) matches SingleRunOutcome::Failed { .. }),
        decreases fuzzer_runs - k,
    {
        let run_args = fuzzer.next_args();
        proof {
            assert(spec_state_after_runs(gts, fuzzer_seed, (k + 1) as nat) == spec_next_args(
                gts,
                spec_state_after_runs(gts, fuzzer_seed, k as nat),
            ).1);
            assert(run_args@ == spec_run_args(gts, fuzzer_seed, k as nat));
        }
        let outcome = executor.execute_single(case, details, &run_args, runner_params);
        match outcome {
            SingleRunOutcome::Passed { gas_used } => {
                results.push(
                    TestCaseSummary::Passed {
                        name: case.name.clone(),
                        gas_used,
                        runs: None,
                        gas_usage: None,
                    },
                );
            },
            SingleRunOutcome::Failed { msg } => {
                results.push(
                    TestCaseSummary::Failed { name: case.name.clone(), msg, runs: None },
                );
                failed = true;
            },
        }
        k = k + 1;
    }

    proof {
        assert forall|j: int| 0 <= j < results@.len() implies ((#[trigger] results@[j])
            matches TestCaseSummary::Passed { .. } || results@[j] matches TestCaseSummary::Failed {
            ..
        }) by {
            assert(results@[j] == spec_run_summary(
                *executor,
                *case,
                details@,
                *runner_params,
                gts,
                fuzzer_seed,
                j,
            ));
        }
        lemma_decided_count_full(results@);
        if failed {
            lemma_first_failure_at(
                *executor,
                *case,
                details@,
                *runner_params,
                gts,
                fuzzer_seed,
                fuzzer_runs as int,
                k as int - 1,
            );
        } else {
            lemma_no_failure(
                *executor,
                *case,
                details@,
                *runner_params,
                gts,
                fuzzer_seed,
                fuzzer_runs as int,
            );
            lemma_passed_gases_match(
                *executor,
                *case,
                details@,
                *runner_params,
                gts,
                fuzzer_seed,
                results@,
            );
            lemma_seq_bounds_are_gas_bounds(
                *executor,
                *case,
                details@,
                *runner_params,
                gts,
                fuzzer_seed,
                spec_passed_gases(results@),
                k as int,
            );
        }
    }
    aggregate_fuzz_results(results, fuzzer_runs)
}

/// Run a deterministic case once with an empty argument tuple.
pub fn run_test<E: TestExecutor>(
    case: &TestCaseRunnable,
    details: &TestDetails,
    runner_params: &RunnerParams,
    executor: &E,
) -> (r: TestCaseSummary)
    ensures
        r == spec_single_outcome(*executor, *case, details@, *runner_params),
{
    let args: Vec<u128> = Vec::new();
    proof {
        assert(args@ =~= Seq::<u128>::empty());
    }
    match executor.execute_single(case, details, &args, runner_params) {
        SingleRunOutcome::Passed { gas_used } => TestCaseSummary::Passed {
            name: case.name.clone(),
            gas_used,
            runs: None,
            gas_usage: None,
        },
        SingleRunOutcome::Failed { msg } => TestCaseSummary::Failed {
            name: case.name.clone(),
            msg,
            runs: None,
        },
    }
}

} // verus!
