//! The sibling of a node index: by a branch on parity, and by an exclusive or.
//!
//! In a binary tree whose nodes are numbered level by level, the two children of one
//! parent carry the numbers `2k` and `2k + 1`. The sibling of a node is the other
//! child of its parent.

use vstd::prelude::*;
use criterion::black_box;

verus! {

/// The sibling of `x`: the other member of the pair `{2k, 2k + 1}` that `x` belongs to.
/// An odd number's sibling is the number below it, an even number's the number above it.
pub open spec fn sibling(x: nat) -> nat {
    if x % 2 == 1 {
        (x - 1) as nat
    } else {
        x + 1
    }
}

/// Flipping the lowest bit of `x` gives its sibling, so the two candidates return the
/// same value on every 64-bit input.
pub proof fn lemma_xor_one_is_sibling(x: u64)
    ensures
        (x ^ 1) == sibling(x as nat),
{
    assert(x % 2 == 1 ==> x ^ 1 == x - 1) by (bit_vector);
    assert(x % 2 == 0 ==> x ^ 1 == x + 1) by (bit_vector);
}

/// A number and its sibling differ in the lowest bit and in nothing else: they have
/// the same half and opposite parities.
pub proof fn lemma_sibling_differs_in_lowest_bit(x: nat)
    ensures
        sibling(x) / 2 == x / 2,
        sibling(x) % 2 != x % 2,
{
}

/// The sibling of the sibling of `x` is `x`.
pub proof fn lemma_sibling_involution(x: nat)
    ensures
        sibling(sibling(x)) == x,
{
}

/// Returns the sibling of `x`, choosing between `x - 1` and `x + 1` with a branch on
/// the lowest bit.
pub fn a_sibling_if(x: u64) -> (r: u64)
    ensures
        r == sibling(x as nat),
{
    assert(x & 1 == x % 2) by (bit_vector);
    if (x & 1) == 1 {
        x - 1
    } else {
        x + 1
    }
}

/// Returns the sibling of `x` without a branch, by flipping the lowest bit.
pub fn b_sibling_xor(x: u64) -> (r: u64)
    ensures
        r == sibling(x as nat),
        r == x ^ 1,
{
    proof {
        lemma_xor_one_is_sibling(x);
    }
    x ^ 1
}

/// One pass of the branching candidate over `inputs`: each input goes through the
/// barrier and then into the candidate, and the result is dropped.
pub fn run_sibling_if(inputs: &[u64]) {
    for x in inputs.iter() {
        let _ = a_sibling_if(black_box(*x));
    }
}

/// One pass of the branchless candidate over `inputs`: each input goes through the
/// barrier and then into the candidate, and the result is dropped.
pub fn run_sibling_xor(inputs: &[u64]) {
    for x in inputs.iter() {
        let _ = b_sibling_xor(black_box(*x));
    }
}

} // verus!
