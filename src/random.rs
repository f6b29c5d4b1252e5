use vstd::prelude::*;
use rand::Rng;
use rand::rngs::StdRng;

verus! {

#[verifier::external_type_specification]
#[verifier::external_body]
pub struct ExStdRng(StdRng);

/// Relies on rand's `Rng::gen_range`: a value in `[low, high)`. It panics
/// where `low >= high`, which `requires` leaves out.
#[verifier::external_body]
pub(crate) fn random_in_range(rng: &mut StdRng, low: i32, high: i32) -> (r: i32)
    requires
        low < high,
    ensures
        low <= r < high,
{
    rng.gen_range(low, high)
}

/// Relies on rand's `Rng::gen::<bool>`: a coin toss; either value may come.
#[verifier::external_body]
pub(crate) fn random_bool(rng: &mut StdRng) -> (r: bool) {
    rng.gen::<bool>()
}

} // verus!
