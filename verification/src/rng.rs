//! Seeded pseudo-random source for spawn placement, size and rare-variant
//! selection.
//!
//! All non-determinism in the library flows through this module: a single
//! seeded generator and one uniform-range draw. Contracts promise only what
//! holds of every outcome — the draw lies inside the requested half-open
//! range — so everything computed from a draw is verified for every value
//! the generator could produce.

use vstd::prelude::*;
use rand::Rng;
use rand::SeedableRng;

verus! {

/// Declares `rand::rngs::StdRng` so it can stand in fields and signatures.
/// The generator is opaque to verification; nothing is assumed of its state.
#[verifier::external_type_specification]
#[verifier::external_body]
pub struct ExStdRng(rand::rngs::StdRng);

/// Relies on `rand::SeedableRng::seed_from_u64`: builds a generator from a
/// seed. Nothing is claimed of the generator's future output.
#[verifier::external_body]
pub(crate) fn seed_rng(seed: u64) -> rand::rngs::StdRng {
    rand::rngs::StdRng::seed_from_u64(seed)
}

/// Relies on `rand::Rng::gen_range` over `lo..hi`: returns a value drawn
/// uniformly from the half-open range `[lo, hi)`, and panics only when the
/// range is empty, which the precondition rules out.
#[verifier::external_body]
pub(crate) fn rand_range(rng: &mut rand::rngs::StdRng, lo: i64, hi: i64) -> (r: i64)
    requires
        lo < hi,
    ensures
        lo <= r < hi,
{
    rng.gen_range(lo..hi)
}

} // verus!
