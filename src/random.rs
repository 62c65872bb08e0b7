use vstd::prelude::*;
use rand::Rng;

verus! {

/// Relies on `rand::random::<bool>`: a fair coin from the thread-local
/// generator. Nothing can be promised of its value.
#[verifier::external_body]
pub(crate) fn coin() -> (r: bool) {
    rand::random::<bool>()
}

/// Relies on `rand::Rng::gen_range` over `lower..=upper` on the thread-local
/// generator: an integer drawn uniformly from the inclusive range. The range
/// must not be empty, or `gen_range` panics.
#[verifier::external_body]
pub(crate) fn random_integer(lower: i64, upper: i64) -> (r: i64)
    requires
        lower <= upper,
    ensures
        lower <= r <= upper,
{
    rand::thread_rng().gen_range(lower..=upper)
}

} // verus!
