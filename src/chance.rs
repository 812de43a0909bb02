//! Random draws used to place new actors.

use vstd::prelude::*;

verus! {

/// Relies on `rand::Rng::gen_range` for `i64` (rand 0.7) on the thread's
/// generator: a value in `[low, high)`; it panics when `low >= high`.
#[verifier::external_body]
pub(crate) fn random_in(low: i64, high: i64) -> (r: i64)
    requires
        low < high,
    ensures
        low <= r < high,
{
    rand::Rng::gen_range(&mut rand::thread_rng(), low, high)
}

} // verus!
