//! A power of two: by integer exponentiation, and by a left shift.
//!
//! The result is a 64-bit integer, so both candidates are defined for the exponents
//! 0 to 63 and for no others.

use vstd::prelude::*;
use vstd::arithmetic::power::pow;
use vstd::arithmetic::power2::{lemma2_to64, lemma_pow2, lemma_pow2_strictly_increases, pow2};
use vstd::bits::{lemma_u64_pow2_no_overflow, lemma_u64_shl_is_mul};
use criterion::black_box;

verus! {

/// The largest exponent whose power of two fits in 64 bits.
pub const MAX_EXPONENT: u32 = 63;

/// Whether every exponent in `exps` is one that the candidates are defined for.
pub open spec fn in_domain(exps: Seq<u32>) -> bool {
    forall|i: int| 0 <= i < exps.len() ==> exps[i] <= MAX_EXPONENT
}

/// `u64::pow` of the standard library: `base` raised to the power `exp`. The contract
/// leaves out the inputs whose power does not fit in 64 bits, on which the standard
/// library overflows.
pub assume_specification[ u64::pow ](base: u64, exp: u32) -> (r: u64)
    requires
        pow(base as int, exp as nat) <= u64::MAX,
    ensures
        r == pow(base as int, exp as nat),
;

/// Two to the power `exp` fits in 64 bits exactly when `exp` is at most
/// `MAX_EXPONENT`: this is why the candidates' domain ends there.
pub proof fn lemma_pow2_fits(exp: nat)
    ensures
        pow2(exp) <= u64::MAX <==> exp <= MAX_EXPONENT,
{
    if exp <= MAX_EXPONENT {
        lemma_u64_pow2_no_overflow(exp);
    } else {
        lemma2_to64();
        if exp > 64 {
            lemma_pow2_strictly_increases(64, exp);
        }
    }
}

/// Shifting a one left by `exp` bits gives two to the power `exp`, so the two
/// candidates return the same value on every exponent of their domain.
pub proof fn lemma_shl_one_is_pow2(exp: u32)
    requires
        exp <= MAX_EXPONENT,
    ensures
        (1u64 << exp) == pow2(exp as nat),
{
    let wide: u64 = exp as u64;
    lemma_u64_pow2_no_overflow(exp as nat);
    lemma_u64_shl_is_mul(1, wide);
    assert(1u64 << exp == 1u64 << wide) by (bit_vector)
        requires
            wide == exp,
    ;
}

/// Returns two to the power `exp`, computed by integer exponentiation.
pub fn a_pow2_pow(exp: u32) -> (r: u64)
    requires
        exp <= MAX_EXPONENT,
    ensures
        r == pow2(exp as nat),
{
    proof {
        lemma_pow2_fits(exp as nat);
        lemma_pow2(exp as nat);
    }
    2u64.pow(exp)
}

/// Returns two to the power `exp`, computed by shifting a one left by `exp` bits.
pub fn b_pow2_shift(exp: u32) -> (r: u64)
    requires
        exp <= MAX_EXPONENT,
    ensures
        r == pow2(exp as nat),
        r == 1u64 << exp,
{
    proof {
        lemma_shl_one_is_pow2(exp);
    }
    1u64 << exp
}

/// One pass of the exponentiation candidate over `inputs`: each exponent goes through
/// the barrier and then into the candidate, and the result is dropped.
pub fn run_pow2_pow(inputs: &[u32])
    requires
        in_domain(inputs@),
{
    for exp in inputs.iter()
        invariant
            in_domain(inputs@),
    {
        let _ = a_pow2_pow(black_box(*exp));
    }
}

/// One pass of the shifting candidate over `inputs`: each exponent goes through the
/// barrier and then into the candidate, and the result is dropped.
pub fn run_pow2_shift(inputs: &[u32])
    requires
        in_domain(inputs@),
{
    for exp in inputs.iter()
        invariant
            in_domain(inputs@),
    {
        let _ = b_pow2_shift(black_box(*exp));
    }
}

} // verus!
