//! The optimisation barrier that a timed pass puts in front of every call.

use vstd::prelude::*;

verus! {

/// `criterion::black_box`: hands its argument back unchanged. It is there to hide the
/// value from the optimiser, so that the call that takes it is not folded away; the
/// contract states that the value comes back as it went in.
pub assume_specification<T>[ criterion::black_box::<T> ](dummy: T) -> (r: T)
    ensures
        r == dummy,
;

} // verus!
