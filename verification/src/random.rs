//! The calls into the `rand` crate. Verus takes the contracts in this module on
//! trust; everything else in the library is proved from them.

use vstd::prelude::*;
use rand::distributions::Uniform;
use rand::rngs::StdRng;
use rand::{Rng, RngCore, SeedableRng};

verus! {

/// `rand::rngs::StdRng`, a deterministic generator whose state Verus does not
/// look into.
#[verifier::external_type_specification]
#[verifier::external_body]
pub struct ExStdRng(StdRng);

/// Fills a 32-byte seed from `rand::thread_rng()` with `RngCore::fill_bytes`.
///
/// The bytes come from the operating system's entropy, so nothing is claimed
/// of them. `thread_rng` panics where the system offers no entropy at all,
/// which no argument of this function decides.
#[verifier::external_body]
pub(crate) fn generate_seed() -> (seed: [u8; 32]) {
    let mut seed = [0u8; 32];
    rand::thread_rng().fill_bytes(&mut seed);
    seed
}

/// Makes a generator from a seed with `StdRng::from_seed`.
///
/// The generator is opaque, so nothing is claimed of it.
#[verifier::external_body]
pub(crate) fn rng_from_seed(seed: [u8; 32]) -> (rng: StdRng) {
    StdRng::from_seed(seed)
}

/// Draws an integer with `Rng::sample` from `Uniform::new(low, high)`.
///
/// `Uniform::new` panics on an empty range, which `requires` rules out. The
/// claim is the one its documentation makes of every sample: it lies in the
/// half-open range from `low` to `high`. How the generator moves on is not
/// described.
#[verifier::external_body]
pub(crate) fn sample_between(rng: &mut StdRng, low: usize, high: usize) -> (drawn: usize)
    requires
        low < high,
    ensures
        low <= drawn < high,
{
    rng.sample(Uniform::new(low, high))
}

} // verus!
