use rand::rngs::StdRng;
use rand::Rng;
use rand::SeedableRng;
use vstd::prelude::*;

verus! {

/// `rand::rngs::StdRng`, the seeded generator that a session owns. Nothing of
/// its inner state is visible to proofs.
#[verifier::external_type_specification]
#[verifier::external_body]
pub struct ExStdRng(StdRng);

/// Calls `SeedableRng::seed_from_u64` of `StdRng`. Nothing is claimed of the
/// generator that comes back.
#[verifier::external_body]
pub(crate) fn seeded(seed: u64) -> StdRng {
    StdRng::seed_from_u64(seed)
}

/// Calls `Rng::random_ratio`, which answers `true` with a chance of
/// `numerator` in `denominator`. Claimed, as documented there: equal
/// numbers always give `true`, a zero numerator always gives `false`. The
/// call panics on a zero denominator or a numerator above it, so both are
/// excluded.
#[verifier::external_body]
pub(crate) fn draw_ratio(rng: &mut StdRng, numerator: u32, denominator: u32) -> (hit: bool)
    requires
        denominator > 0,
        numerator <= denominator,
    ensures
        numerator == denominator ==> hit,
        numerator == 0 ==> !hit,
{
    rng.random_ratio(numerator, denominator)
}

/// Calls `Rng::random_range` on the inclusive range from zero to `max`.
/// Claimed: the number drawn lies in that range.
#[verifier::external_body]
pub(crate) fn draw_up_to(rng: &mut StdRng, max: u32) -> (n: u32)
    ensures
        n <= max,
{
    rng.random_range(0..=max)
}

} // verus!
