use vstd::prelude::*;

verus! {

/// Gas statistics over the passed runs of a fuzzing campaign, kept only when
/// the whole campaign completed and passed.
#[derive(Debug, PartialEq, Eq, Structural, Clone, Copy)]
pub struct FuzzingGasUsage {
    pub min: u64,
    pub max: u64,
}

/// Terminal outcome of one single-shot execution of a test case, as produced
/// by the case executor: either the run passed, with the gas it consumed, or
/// it failed, with an optional reason.
#[derive(Debug)]
pub enum SingleRunOutcome {
    Passed { gas_used: u64 },
    Failed { msg: Option<String> },
}

impl SingleRunOutcome {
    /// An equal copy; written out because the compiler-derived clone of a
    /// type with a `String` field says nothing to the verifier.
    pub fn duplicate(&self) -> (r: Self)
        ensures
            r == *self,
    {
        match self {
            SingleRunOutcome::Passed { gas_used } => SingleRunOutcome::Passed { gas_used: *gas_used },
            SingleRunOutcome::Failed { msg } => SingleRunOutcome::Failed { msg: clone_opt_string(msg) },
        }
    }
}

/// An equal copy of an optional message.
pub fn clone_opt_string(m: &Option<String>) -> (r: Option<String>)
    ensures
        r == *m,
{
    match m {
        Some(s) => Some(s.clone()),
        None => None,
    }
}

/// Terminal classification of one scheduled test case.
///
/// `runs` is `Some` exactly for cases that went through a fuzzing campaign;
/// it counts the runs that produced a decision (passed or failed).
#[derive(Debug)]
pub enum TestCaseSummary {
    /// The case (or every run of its campaign) passed.
    Passed { name: String, gas_used: u64, runs: Option<u32>, gas_usage: Option<FuzzingGasUsage> },
    /// The case failed, or one run of its campaign did.
    Failed { name: String, msg: Option<String>, runs: Option<u32> },
    /// The case was marked ignored and was never executed.
    Ignored { name: String },
    /// Cancellation preempted the case before a terminal run outcome.
    Skipped {},
    /// Internal campaign signal; never surfaces in a crate summary.
    Interrupted {},
}

impl TestCaseSummary {
    /// The number of decided runs, present only for fuzzed cases.
    pub fn runs(&self) -> (r: Option<u32>)
        ensures
            r == self.spec_runs(),
    {
        match self {
            TestCaseSummary::Passed { runs, .. } => *runs,
            TestCaseSummary::Failed { runs, .. } => *runs,
            _ => None,
        }
    }

    pub open spec fn spec_runs(&self) -> Option<u32> {
        match self {
            TestCaseSummary::Passed { runs, .. } => *runs,
            TestCaseSummary::Failed { runs, .. } => *runs,
            _ => None,
        }
    }

    pub open spec fn spec_with_runs_and_gas_usage(
        self,
        runs: u32,
        gas_usage: Option<FuzzingGasUsage>,
    ) -> Self {
        match self {
            TestCaseSummary::Passed { name, gas_used, .. } => (TestCaseSummary::Passed {
                name,
                gas_used,
                runs: Some(runs),
                gas_usage,
            }),
            TestCaseSummary::Failed { name, msg, .. } => (TestCaseSummary::Failed {
                name,
                msg,
                runs: Some(runs),
            }),
            other => other,
        }
    }

    /// Decorate a campaign's final per-run outcome with the count of decided
    /// runs and, when it passed in full, the campaign's gas statistics.
    pub fn with_runs_and_gas_usage(
        self,
        runs: u32,
        gas_usage: Option<FuzzingGasUsage>,
    ) -> (r: Self)
        ensures
            r == self.spec_with_runs_and_gas_usage(runs, gas_usage),
    {
        match self {
            TestCaseSummary::Passed { name, gas_used, .. } => TestCaseSummary::Passed {
                name,
                gas_used,
                runs: Some(runs),
                gas_usage,
            },
            TestCaseSummary::Failed { name, msg, .. } => TestCaseSummary::Failed {
                name,
                msg,
                runs: Some(runs),
            },
            other => other,
        }
    }

    /// An equal copy; written out because the compiler-derived clone of a
    /// type with a `String` field says nothing to the verifier.
    pub fn duplicate(&self) -> (r: Self)
        ensures
            r == *self,
    {
        match self {
            TestCaseSummary::Passed { name, gas_used, runs, gas_usage } => TestCaseSummary::Passed {
                name: name.clone(),
                gas_used: *gas_used,
                runs: *runs,
                gas_usage: *gas_usage,
            },
            TestCaseSummary::Failed { name, msg, runs } => TestCaseSummary::Failed {
                name: name.clone(),
                msg: clone_opt_string(msg),
                runs: *runs,
            },
            TestCaseSummary::Ignored { name } => TestCaseSummary::Ignored { name: name.clone() },
            TestCaseSummary::Skipped {} => TestCaseSummary::Skipped {},
            TestCaseSummary::Interrupted {} => TestCaseSummary::Interrupted {},
        }
    }
}

} // verus!
