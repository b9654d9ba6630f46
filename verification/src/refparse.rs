//! The reference parser: a free-form string becomes a typed workspace
//! reference, numeric identifier or display name.
//!
//! A string counts as numeric exactly when an unsigned 64-bit parse of
//! it succeeds: an optional leading `+`, then one or more decimal
//! digits, value within range. Anything else — including `-1`, whose
//! unsigned parse fails — falls back to a name. A workspace whose
//! display name is itself a decimal numeral is therefore
//! indistinguishable from an id reference; that ambiguity is inherent
//! to this layer.

use vstd::prelude::*;
use crate::text::{
    digit_val, digit_val_ex, is_digit, is_digit_ex, lemma_val_prefix, lemma_val_snoc, str_to_chars,
    val_digits,
};
use crate::wire::{RefV, WorkspaceReferenceArg};

verus! {

/// The string with one leading `+` sign removed, if any.
pub open spec fn stripped(s: Seq<char>) -> Seq<char> {
    if s.len() > 0 && s[0] == '+' {
        s.skip(1)
    } else {
        s
    }
}

/// Every character is a decimal digit.
pub open spec fn all_digits(s: Seq<char>) -> bool {
    forall|k: int| 0 <= k < s.len() ==> is_digit(#[trigger] s[k])
}

/// The string parses as an unsigned 64-bit integer.
pub open spec fn is_u64_numeral(s: Seq<char>) -> bool {
    stripped(s).len() > 0 && all_digits(stripped(s)) && val_digits(stripped(s)) <= u64::MAX
}

/// What parsing a reference yields: the numeric value where the string
/// is an unsigned 64-bit numeral, the string itself as a name otherwise.
pub open spec fn spec_parse_reference(s: Seq<char>) -> RefV {
    if is_u64_numeral(s) {
        RefV::Id(val_digits(stripped(s)) as u64)
    } else {
        RefV::Name(s)
    }
}

/// Parse the digits of a candidate numeral.
fn parse_u64_numeral(cs: &Vec<char>) -> (r: Option<u64>)
    ensures
        match r {
            Some(n) => is_u64_numeral(cs@) && n == val_digits(stripped(cs@)),
            None => !is_u64_numeral(cs@),
        },
{
    let n: usize = cs.len();
    let start: usize = if n > 0 && cs[0] == '+' {
        1
    } else {
        0
    };
    let ghost t = stripped(cs@);
    proof {
        assert(t =~= cs@.skip(start as int));
    }
    if n == start {
        assert(t.len() == 0);
        return None;
    }
    let mut acc: u64 = 0;
    let mut k: usize = start;
    while k < n
        invariant
            start <= k <= n,
            n == cs@.len(),
            t == stripped(cs@),
            t == cs@.skip(start as int),
            t.len() == n - start,
            forall|m: int| 0 <= m < k - start ==> is_digit(#[trigger] t[m]),
            acc == val_digits(t.take(k - start)),
        decreases n - k,
    {
        let c: char = cs[k];
        assert(t[k - start] == cs@[k as int]);
        if !is_digit_ex(c) {
            assert(!all_digits(t));
            return None;
        }
        let d: u32 = digit_val_ex(c);
        proof {
            assert(t.take(k - start + 1) =~= t.take(k - start).push(t[k - start]));
            lemma_val_snoc(t.take(k - start), t[k - start]);
        }
        let acc2: u64 = match acc.checked_mul(10) {
            Some(m) => match m.checked_add(d as u64) {
                Some(a2) => a2,
                None => {
                    proof {
                        if is_u64_numeral(cs@) {
                            lemma_val_prefix(t, k - start + 1);
                        }
                    }
                    return None;
                },
            },
            None => {
                proof {
                    if is_u64_numeral(cs@) {
                        lemma_val_prefix(t, k - start + 1);
                    }
                }
                return None;
            },
        };
        acc = acc2;
        k = k + 1;
    }
    proof {
        assert(t.take(k - start) =~= t);
    }
    Some(acc)
}

impl WorkspaceReferenceArg {
    /// Parse a workspace reference from a string. A string that parses
    /// as an unsigned 64-bit integer names a workspace by id; every
    /// other string names it by display name. Never fails.
    pub fn from_str(s: &str) -> (r: Result<WorkspaceReferenceArg, &'static str>)
        ensures
            r matches Ok(v) && v@ == spec_parse_reference(s@),
    {
        let cs: Vec<char> = str_to_chars(s);
        match parse_u64_numeral(&cs) {
            Some(n) => Ok(WorkspaceReferenceArg::Id(n)),
            None => Ok(WorkspaceReferenceArg::Name(s.to_owned())),
        }
    }
}

} // verus!
