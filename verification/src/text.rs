use vstd::prelude::*;
use vstd::string::StrSliceExecFns;

verus! {

/// Whether `a` equals `b` once an ASCII upper-case `a` is folded to lower
/// case; `b` is expected to be lower case already.
pub open spec fn char_lower_eq(a: char, b: char) -> bool {
    a == b || ('A' as int <= a as int && a as int <= 'Z' as int && a as int + 32 == b as int)
}

/// Case-insensitive match of `s` against a lower-case pattern `lit`, folding
/// only ASCII letters, character by character.
pub open spec fn ci_matches(s: Seq<char>, lit: Seq<char>) -> bool {
    s.len() == lit.len() && (forall|i: int| 0 <= i < s.len() ==> char_lower_eq(s[i], lit[i]))
}

/// `suffix` closes `s`.
pub open spec fn spec_ends_with(s: Seq<char>, suffix: Seq<char>) -> bool {
    suffix.len() <= s.len() && s.subrange(s.len() - suffix.len(), s.len() as int) == suffix
}

pub open spec fn is_digit(c: char) -> bool {
    '0' as int <= c as int && c as int <= '9' as int
}

/// Every character is a decimal digit and there is at least one.
pub open spec fn is_digit_seq(s: Seq<char>) -> bool {
    s.len() > 0 && (forall|i: int| 0 <= i < s.len() ==> is_digit(s[i]))
}

/// The integer a sequence of decimal digits denotes.
pub open spec fn digits_value(s: Seq<char>) -> int
    decreases s.len(),
{
    if s.len() == 0 {
        0
    } else {
        digits_value(s.drop_last()) * 10 + (s.last() as int - '0' as int)
    }
}

/// What decimal parsing into a `u64` yields: a value exactly when the text is
/// all digits, non-empty, and small enough.
pub open spec fn spec_parse_u64(s: Seq<char>) -> Option<u64> {
    if is_digit_seq(s) && digits_value(s) <= u64::MAX {
        Some(digits_value(s) as u64)
    } else {
        None
    }
}

proof fn lemma_digits_value_nonneg(s: Seq<char>)
    requires
        forall|i: int| 0 <= i < s.len() ==> is_digit(s[i]),
    ensures
        digits_value(s) >= 0,
    decreases s.len(),
{
    if s.len() > 0 {
        lemma_digits_value_nonneg(s.drop_last());
    }
}

/// Appending further digits never shrinks the denoted value.
proof fn lemma_digits_value_extend(s: Seq<char>, k: int)
    requires
        forall|i: int| 0 <= i < s.len() ==> is_digit(s[i]),
        0 <= k <= s.len(),
    ensures
        digits_value(s.subrange(0, k)) <= digits_value(s),
    decreases s.len() - k,
{
    if k < s.len() {
        let t = s.subrange(0, k + 1);
        assert(t.drop_last() =~= s.subrange(0, k));
        lemma_digits_value_nonneg(s.subrange(0, k));
        lemma_digits_value_extend(s, k + 1);
    } else {
        assert(s.subrange(0, k) =~= s);
    }
}

/// Exact equality of two string slices.
pub fn str_eq(a: &str, b: &str) -> (r: bool)
    ensures
        r == (a@ == b@),
{
    let la: usize = a.unicode_len();
    let lb: usize = b.unicode_len();
    if la != lb {
        assert(a@ != b@);
        return false;
    }
    let mut i: usize = 0;
    while i < la
        invariant
            0 <= i <= la,
            la == a@.len(),
            la == b@.len(),
            forall|j: int| 0 <= j < i ==> a@[j] == b@[j],
        decreases la - i,
    {
        let ca: char = a.get_char(i);
        let cb: char = b.get_char(i);
        if ca != cb {
            assert(a@ != b@);
            return false;
        }
        i = i + 1;
    }
    proof {
        assert(a@ =~= b@);
    }
    true
}

/// Case-insensitive equality against a lower-case ASCII pattern.
pub fn str_ci_eq(s: &str, lit: &str) -> (r: bool)
    ensures
        r == ci_matches(s@, lit@),
{
    let ls: usize = s.unicode_len();
    let ll: usize = lit.unicode_len();
    if ls != ll {
        return false;
    }
    let mut i: usize = 0;
    while i < ls
        invariant
            0 <= i <= ls,
            ls == s@.len(),
            ls == lit@.len(),
            forall|j: int| 0 <= j < i ==> char_lower_eq(s@[j], lit@[j]),
        decreases ls - i,
    {
        let ca: u32 = s.get_char(i) as u32;
        let cb: u32 = lit.get_char(i) as u32;
        let folded: bool = 'A' as u32 <= ca && ca <= 'Z' as u32 && ca + 32 == cb;
        if !(ca == cb || folded) {
            assert(!char_lower_eq(s@[i as int], lit@[i as int]));
            return false;
        }
        i = i + 1;
    }
    true
}

/// Whether `s` ends with `suffix`.
pub fn str_ends_with(s: &str, suffix: &str) -> (r: bool)
    ensures
        r == spec_ends_with(s@, suffix@),
{
    let ls: usize = s.unicode_len();
    let lf: usize = suffix.unicode_len();
    if lf > ls {
        return false;
    }
    let off: usize = ls - lf;
    let mut i: usize = 0;
    while i < lf
        invariant
            0 <= i <= lf,
            ls == s@.len(),
            lf == suffix@.len(),
            off == ls - lf,
            forall|j: int| 0 <= j < i ==> s@[off + j] == suffix@[j],
        decreases lf - i,
    {
        let ca: char = s.get_char(off + i);
        let cb: char = suffix.get_char(i);
        if ca != cb {
            assert(s@.subrange(s@.len() - suffix@.len(), s@.len() as int)[i as int] != suffix@[i as int]);
            return false;
        }
        i = i + 1;
    }
    proof {
        assert(s@.subrange(s@.len() - suffix@.len(), s@.len() as int) =~= suffix@);
    }
    true
}

/// Whether every character of `s` is a decimal digit and there is at least
/// one.
pub fn str_is_digits(s: &str) -> (r: bool)
    ensures
        r == is_digit_seq(s@),
{
    let ls: usize = s.unicode_len();
    if ls == 0 {
        return false;
    }
    let mut i: usize = 0;
    while i < ls
        invariant
            0 <= i <= ls,
            ls == s@.len(),
            forall|j: int| 0 <= j < i ==> is_digit(s@[j]),
        decreases ls - i,
    {
        let c: u32 = s.get_char(i) as u32;
        if !('0' as u32 <= c && c <= '9' as u32) {
            assert(!is_digit(s@[i as int]));
            return false;
        }
        i = i + 1;
    }
    true
}

/// Parse a non-empty all-digit decimal string into a `u64`; `None` on any
/// other character or on overflow.
pub fn parse_u64_decimal(s: &str) -> (r: Option<u64>)
    ensures
        r == spec_parse_u64(s@),
{
    let ls: usize = s.unicode_len();
    if ls == 0 {
        return None;
    }
    let mut acc: u64 = 0;
    let mut i: usize = 0;
    while i < ls
        invariant
            0 <= i <= ls,
            ls == s@.len(),
            ls > 0,
            forall|j: int| 0 <= j < i ==> is_digit(s@[j]),
            acc == digits_value(s@.subrange(0, i as int)),
        decreases ls - i,
    {
        let c: u32 = s.get_char(i) as u32;
        if !('0' as u32 <= c && c <= '9' as u32) {
            assert(!is_digit(s@[i as int]));
            return None;
        }
        let d: u64 = (c - '0' as u32) as u64;
        proof {
            assert(s@.subrange(0, i as int + 1).drop_last() =~= s@.subrange(0, i as int));
        }
        if acc > (u64::MAX - d) / 10 {
            proof {
                assert(acc * 10 + d > u64::MAX) by (nonlinear_arith)
                    requires
                        acc > (u64::MAX - d) / 10,
                        d <= 9,
                ;
                if is_digit_seq(s@) {
                    lemma_digits_value_extend(s@, i as int + 1);
                }
            }
            return None;
        }
        acc = acc * 10 + d;
        i = i + 1;
    }
    proof {
        assert(s@.subrange(0, ls as int) =~= s@);
    }
    Some(acc)
}

} // verus!
