use vstd::prelude::*;

verus! {

/// Relies on `rand::Rng::gen_range` drawn from `rand::thread_rng()`: the value
/// lies in the half-open range `lo..hi`; `gen_range` panics on an empty range,
/// which `requires` leaves out.
#[verifier::external_body]
pub(crate) fn random_in_range(lo: i64, hi: i64) -> (r: i64)
    requires
        lo < hi,
    ensures
        lo <= r < hi,
{
    rand::Rng::gen_range(&mut rand::thread_rng(), lo..hi)
}

} // verus!
