//! Thin trusted wrappers over the process-wide random number generator.

use vstd::prelude::*;

verus! {

/// Relies on rand::random_range over `0..n`: it returns a value drawn from
/// the range and panics only when the range is empty, which `n >= 1` rules
/// out. Nothing more is promised: the draw is random.
#[verifier::external_body]
pub(crate) fn random_below(n: usize) -> (r: usize)
    requires
        n >= 1,
    ensures
        r < n,
{
    rand::random_range(0..n)
}

/// Relies on rand::random::<bool>: a coin flip. Nothing is promised of the
/// result.
#[verifier::external_body]
pub(crate) fn random_flag() -> bool {
    rand::random::<bool>()
}

} // verus!
