use rand::Rng;
use vstd::prelude::*;

verus! {

/// The seedable generator that drives every random choice of the scheduler.
#[verifier::external_type_specification]
#[verifier::external_body]
pub struct ExStdRng(rand::rngs::StdRng);

/// Relies on `rand::Rng::gen_range` over the inclusive range `lo..=hi`: it
/// returns a value of that range, and panics only on an empty one, which
/// `lo <= hi` rules out.
#[verifier::external_body]
pub(crate) fn draw_between(rng: &mut rand::rngs::StdRng, lo: usize, hi: usize) -> (r: usize)
    requires
        lo <= hi,
    ensures
        lo <= r <= hi,
{
    rng.gen_range(lo..=hi)
}

/// Relies on `rand::Rng::gen::<bool>`: a fair coin. Nothing is promised of
/// which side comes up.
#[verifier::external_body]
pub(crate) fn flip_coin(rng: &mut rand::rngs::StdRng) -> (r: bool) {
    rng.gen::<bool>()
}

} // verus!
