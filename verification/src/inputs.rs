//! The fixed input sequences that the candidates are run over.

use vstd::prelude::*;
use crate::pow2_vs_shift::{in_domain, MAX_EXPONENT};

verus! {

/// The first integer of the input sequence for the sibling and the halving candidates.
pub const FIRST_INTEGER: u64 = 1;

/// The end of that sequence: the first integer that is no longer part of it.
pub const END_INTEGER: u64 = 1_000_000;

/// The integers from `FIRST_INTEGER` up to, not including, `END_INTEGER`, in ascending
/// order.
pub open spec fn integer_seq() -> Seq<u64> {
    Seq::new((END_INTEGER - FIRST_INTEGER) as nat, |i: int| (FIRST_INTEGER + i) as u64)
}

/// The exponents from 0 up to and including `MAX_EXPONENT`, in ascending order.
pub open spec fn exponent_seq() -> Seq<u32> {
    Seq::new((MAX_EXPONENT + 1) as nat, |i: int| i as u32)
}

/// Every exponent of the fixed sequence has a power that fits in 64 bits, so the
/// sequence may be handed to either power-of-two candidate.
pub proof fn lemma_exponents_in_domain()
    ensures
        in_domain(exponent_seq()),
{
}

/// Builds the input sequence for the sibling and the halving candidates.
pub fn integers() -> (v: Vec<u64>)
    ensures
        v@ == integer_seq(),
{
    let mut v: Vec<u64> = Vec::with_capacity((END_INTEGER - FIRST_INTEGER) as usize);
    let mut x: u64 = FIRST_INTEGER;
    while x < END_INTEGER
        invariant
            FIRST_INTEGER <= x <= END_INTEGER,
            v@ == Seq::new((x - FIRST_INTEGER) as nat, |i: int| (FIRST_INTEGER + i) as u64),
        decreases END_INTEGER - x,
    {
        v.push(x);
        x += 1;
    }
    v
}

/// Builds the input sequence for the power-of-two candidates.
pub fn exponents() -> (v: Vec<u32>)
    ensures
        v@ == exponent_seq(),
        in_domain(v@),
{
    let mut v: Vec<u32> = Vec::with_capacity((MAX_EXPONENT + 1) as usize);
    let mut exp: u32 = 0;
    while exp <= MAX_EXPONENT
        invariant
            exp <= MAX_EXPONENT + 1,
            v@ == Seq::new(exp as nat, |i: int| i as u32),
        decreases MAX_EXPONENT + 1 - exp,
    {
        v.push(exp);
        exp += 1;
    }
    proof {
        lemma_exponents_in_domain();
    }
    v
}

} // verus!
