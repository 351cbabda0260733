use rand::rngs::StdRng;
use rand::Rng;
use vstd::prelude::*;

verus! {

/// The exclusive upper bound, in milliseconds, of the probe's delay.
pub const UPPER_RANGE: u16 = 1000;

/// Relies on rand's `Rng::random_range`, which draws uniformly from the
/// half-open range `0..upper` and panics only when that range is empty.
/// Every draw takes at least one word from the generator's block buffer,
/// which moves its index or refills it, so the generator always advances.
#[verifier::external_body]
fn random_below(rng: &mut StdRng, upper: u16) -> (r: u16)
    requires
        0 < upper,
    ensures
        r < upper,
        *final(rng) != *old(rng),
{
    rng.random_range(0..upper)
}

/// The artificial delay of one latency probe, drawn from `rng`: always
/// under `UPPER_RANGE` milliseconds. The draw advances the generator, so the
/// next probe does not draw from the same state.
pub fn latency_millis(rng: &mut StdRng) -> (r: u64)
    ensures
        r < UPPER_RANGE,
        *final(rng) != *old(rng),
{
    let millis = random_below(rng, UPPER_RANGE);
    millis as u64
}

} // verus!
