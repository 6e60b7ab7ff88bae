//! Halving an unsigned integer: by division, and by a right shift.

use vstd::prelude::*;
use criterion::black_box;

verus! {

/// Half of `x`, rounded down.
pub open spec fn halve(x: nat) -> nat {
    x / 2
}

/// Shifting `x` one bit to the right halves it, so the two candidates return the same
/// value on every 64-bit input.
pub proof fn lemma_shr_one_is_halve(x: u64)
    ensures
        (x >> 1) == halve(x as nat),
{
    assert(x >> 1 == x / 2) by (bit_vector);
}

/// Halves `x` with an integer division.
pub fn a_halve_div(x: u64) -> (r: u64)
    ensures
        r == halve(x as nat),
{
    x / 2
}

/// Halves `x` by shifting it one bit to the right.
pub fn b_halve_shr(x: u64) -> (r: u64)
    ensures
        r == halve(x as nat),
        r == x >> 1,
{
    proof {
        lemma_shr_one_is_halve(x);
    }
    x >> 1
}

/// One pass of the dividing candidate over `inputs`: each input goes through the
/// barrier and then into the candidate, and the result is dropped.
pub fn run_halve_div(inputs: &[u64]) {
    for x in inputs.iter() {
        let _ = a_halve_div(black_box(*x));
    }
}

/// One pass of the shifting candidate over `inputs`: each input goes through the
/// barrier and then into the candidate, and the result is dropped.
pub fn run_halve_shr(inputs: &[u64]) {
    for x in inputs.iter() {
        let _ = b_halve_shr(black_box(*x));
    }
}

} // verus!
