//! Pairs of functions that compute the same small arithmetic result, once with
//! ordinary arithmetic and once with a bitwise operation, each pair proved to agree.

pub mod barrier;
pub mod branching_vs_xor;
pub mod div_vs_shift;
pub mod inputs;
pub mod pow2_vs_shift;
