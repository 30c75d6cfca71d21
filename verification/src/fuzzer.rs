use vstd::prelude::*;
use vstd::wrapping::u64_specs;
use crate::text::str_eq;

verus! {

/// Multiplier of the linear-congruential generator driving the fuzzer.
pub const FUZZER_MUL: u64 = 6364136223846793005;

/// Increment of the linear-congruential generator driving the fuzzer.
pub const FUZZER_INC: u64 = 1442695040888963407;

/// The fixed set of integer parameter types the fuzzer knows how to sample.
#[derive(Debug, PartialEq, Eq, Structural, Clone, Copy)]
pub enum SupportedType {
    U8,
    U16,
    U32,
    U64,
    U128,
}

/// Why a fuzzer could not be built for a case.
#[derive(Debug)]
pub enum FuzzerError {
    /// A parameter type is outside the supported set; carries its name.
    UnsupportedType(String),
}

/// The generator state after one step.
pub open spec fn spec_next_state(s: u64) -> u64 {
    u64_specs::wrapping_add(u64_specs::wrapping_mul(s, FUZZER_MUL), FUZZER_INC)
}

/// One sampled value of the given type, uniform over its full domain, and
/// the generator state left behind: one word feeds the narrower types, two
/// words feed a 128-bit value.
pub open spec fn spec_draw(t: SupportedType, s: u64) -> (u128, u64) {
    let s1 = spec_next_state(s);
    match t {
        SupportedType::U8 => ((s1 % 0x100) as u128, s1),
        SupportedType::U16 => ((s1 % 0x1_0000) as u128, s1),
        SupportedType::U32 => ((s1 % 0x1_0000_0000) as u128, s1),
        SupportedType::U64 => (s1 as u128, s1),
        SupportedType::U128 => {
            let s2 = spec_next_state(s1);
            ((((s1 as int) * 0x1_0000_0000_0000_0000 + (s2 as int)) as u128), s2)
        },
    }
}

/// One argument tuple: a value for each parameter type in order, threading
/// the generator state through the draws.
pub open spec fn spec_next_args(types: Seq<SupportedType>, s: u64) -> (Seq<u128>, u64)
    decreases types.len(),
{
    if types.len() == 0 {
        (Seq::empty(), s)
    } else {
        let prev = spec_next_args(types.drop_last(), s);
        let drawn = spec_draw(types.last(), prev.1);
        (prev.0.push(drawn.0), drawn.1)
    }
}

/// The generator state after `k` whole argument tuples have been drawn.
pub open spec fn spec_state_after_runs(types: Seq<SupportedType>, s: u64, k: nat) -> u64
    decreases k,
{
    if k == 0 {
        s
    } else {
        spec_next_args(types, spec_state_after_runs(types, s, (k - 1) as nat)).1
    }
}

/// The argument tuple of run `k` (zero-based) of a campaign seeded with `s`.
pub open spec fn spec_run_args(types: Seq<SupportedType>, s: u64, k: nat) -> Seq<u128> {
    spec_next_args(types, spec_state_after_runs(types, s, k)).0
}

/// The supported type a parameter type name denotes, if any.
pub open spec fn spec_supported(name: Seq<char>) -> Option<SupportedType> {
    if name == "u8"@ {
        Some(SupportedType::U8)
    } else if name == "u16"@ {
        Some(SupportedType::U16)
    } else if name == "u32"@ {
        Some(SupportedType::U32)
    } else if name == "u64"@ {
        Some(SupportedType::U64)
    } else if name == "u128"@ {
        Some(SupportedType::U128)
    } else {
        None
    }
}

/// Classify a parameter type name.
pub(crate) fn classify_type(name: &String) -> (r: Option<SupportedType>)
    ensures
        r == spec_supported(name@),
{
    let s = name.as_str();
    if str_eq(s, "u8") {
        Some(SupportedType::U8)
    } else if str_eq(s, "u16") {
        Some(SupportedType::U16)
    } else if str_eq(s, "u32") {
        Some(SupportedType::U32)
    } else if str_eq(s, "u64") {
        Some(SupportedType::U64)
    } else if str_eq(s, "u128") {
        Some(SupportedType::U128)
    } else {
        None
    }
}

/// A deterministic pseudo-random generator over a typed argument vector.
/// Identical (seed, type list) yields identical argument traces.
#[derive(Debug)]
pub struct RandomFuzzer {
    /// Current generator state.
    pub state: u64,
    /// How many runs the campaign asked for.
    pub runs: u32,
    /// The classified parameter types, in signature order.
    pub arg_types: Vec<SupportedType>,
}

impl RandomFuzzer {
    /// Build a fuzzer for the given seed and parameter type names; rejected
    /// exactly when some name is outside the supported set.
    pub fn create(seed: u64, runs: u32, arg_type_names: &Vec<String>) -> (r: Result<
        RandomFuzzer,
        FuzzerError,
    >)
        ensures
            r is Ok <==> (forall|i: int|
                0 <= i < arg_type_names@.len() ==> spec_supported(
                    (#[trigger] arg_type_names@[i])@,
                ) is Some),
            r matches Ok(f) ==> {
                &&& f.state == seed
                &&& f.runs == runs
                &&& f.arg_types@.len() == arg_type_names@.len()
                &&& forall|i: int|
                    0 <= i < arg_type_names@.len() ==> Some(#[trigger] f.arg_types@[i])
                        == spec_supported(arg_type_names@[i]@)
            },
            r matches Err(FuzzerError::UnsupportedType(n)) ==> exists|i: int|
                0 <= i < arg_type_names@.len() && spec_supported((#[trigger] arg_type_names@[i])@)
                    is None && n@ == arg_type_names@[i]@,
    {
        let mut arg_types: Vec<SupportedType> = Vec::new();
        let n = arg_type_names.len();
        let mut i: usize = 0;
        while i < n
            invariant
                0 <= i <= n,
                n == arg_type_names@.len(),
                arg_types@.len() == i,
                forall|j: int|
                    0 <= j < i ==> Some(#[trigger] arg_types@[j]) == spec_supported(
                        arg_type_names@[j]@,
                    ),
            decreases n - i,
        {
            match classify_type(&arg_type_names[i]) {
                Some(t) => {
                    arg_types.push(t);
                },
                None => {
                    return Err(FuzzerError::UnsupportedType(arg_type_names[i].clone()));
                },
            }
            i = i + 1;
        }
        proof {
            assert forall|j: int| 0 <= j < arg_type_names@.len() implies spec_supported(
                (#[trigger] arg_type_names@[j])@,
            ) is Some by {
                assert(Some(arg_types@[j]) == spec_supported(arg_type_names@[j]@));
            }
        }
        Ok(RandomFuzzer { state: seed, runs, arg_types })
    }

    /// Draw the next argument tuple; a pure function of the stored state and
    /// types, so replaying a seed replays the campaign.
    pub fn next_args(&mut self) -> (r: Vec<u128>)
        ensures
            final(self).arg_types == old(self).arg_types,
            final(self).runs == old(self).runs,
            (r@, final(self).state) == spec_next_args(old(self).arg_types@, old(self).state),
    {
        let n = self.arg_types.len();
        let mut out: Vec<u128> = Vec::new();
        let mut state: u64 = self.state;
        let mut i: usize = 0;
        while i < n
            invariant
                0 <= i <= n,
                n == self.arg_types@.len(),
                (out@, state) == spec_next_args(self.arg_types@.subrange(0, i as int), old(
                    self,
                ).state),
                self == old(self),
        decreases n - i,
        {
            proof {
                assert(self.arg_types@.subrange(0, i as int + 1).drop_last() =~= self
                    .arg_types@
                    .subrange(0, i as int));
                assert(self.arg_types@.subrange(0, i as int + 1).last()
                    == self.arg_types@[i as int]);
            }
            let s1: u64 = state.wrapping_mul(FUZZER_MUL).wrapping_add(FUZZER_INC);
            match self.arg_types[i] {
                SupportedType::U8 => {
                    out.push((s1 % 0x100) as u128);
                    state = s1;
                },
                SupportedType::U16 => {
                    out.push((s1 % 0x1_0000) as u128);
                    state = s1;
                },
                SupportedType::U32 => {
                    out.push((s1 % 0x1_0000_0000) as u128);
                    state = s1;
                },
                SupportedType::U64 => {
                    out.push(s1 as u128);
                    state = s1;
                },
                SupportedType::U128 => {
                    let s2: u64 = s1.wrapping_mul(FUZZER_MUL).wrapping_add(FUZZER_INC);
                    out.push((s1 as u128) * 0x1_0000_0000_0000_0000 + (s2 as u128));
                    state = s2;
                },
            }
            i = i + 1;
        }
        proof {
            assert(self.arg_types@.subrange(0, n as int) =~= self.arg_types@);
        }
        self.state = state;
        out
    }
}

/// Determinism of the fuzzer: two generators over the same types and in the
/// same state draw the same argument tuple and land in the same state,
/// independently of everything else.
pub proof fn lemma_fuzzer_determinism(a: RandomFuzzer, b: RandomFuzzer)
    requires
        a.state == b.state,
        a.arg_types@ == b.arg_types@,
    ensures
        spec_next_args(a.arg_types@, a.state) == spec_next_args(b.arg_types@, b.state),
{
}

} // verus!
