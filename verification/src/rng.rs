//! Trusted boundary to the `rand` crate.
//!
//! The engine needs a source of randomness for picking fuzz targets and for
//! building randomized inputs. Everything that actually draws from `rand`
//! lives here, behind small wrappers whose contracts state only what holds of
//! every outcome.

use vstd::prelude::*;
use rand::Rng;
use rand::RngCore;

verus! {

#[verifier::external_type_specification]
#[verifier::external_body]
pub struct ExStdRng(rand::rngs::StdRng);

/// Relies on rand's `Rng::gen_range` over `lo..hi`: the result is drawn from
/// the half-open range. rand panics on an empty range; `requires` keeps that
/// input out.
#[verifier::external_body]
pub(crate) fn rand_range_u64(rng: &mut rand::rngs::StdRng, lo: u64, hi: u64) -> (r: u64)
    requires
        lo < hi,
    ensures
        lo <= r < hi,
{
    rng.gen_range(lo..hi)
}

/// Relies on rand's `Rng::gen_range` over `lo..hi`, as `rand_range_u64` does,
/// for drawing an index.
#[verifier::external_body]
pub(crate) fn rand_index(rng: &mut rand::rngs::StdRng, lo: usize, hi: usize) -> (r: usize)
    requires
        lo < hi,
    ensures
        lo <= r < hi,
{
    rng.gen_range(lo..hi)
}

/// Relies on rand's `Rng::gen::<u64>`: nothing can be promised of the value.
#[verifier::external_body]
pub(crate) fn rand_u64(rng: &mut rand::rngs::StdRng) -> u64 {
    rng.gen::<u64>()
}

/// Relies on rand's `Rng::gen::<usize>`: nothing can be promised of the value.
#[verifier::external_body]
pub(crate) fn rand_usize(rng: &mut rand::rngs::StdRng) -> usize {
    rng.gen::<usize>()
}

/// Relies on rand_core's `RngCore::fill_bytes`: it fills the whole buffer, so
/// the result has exactly the requested length.
#[verifier::external_body]
pub(crate) fn rand_bytes(rng: &mut rand::rngs::StdRng, len: usize) -> (r: Vec<u8>)
    ensures
        r@.len() == len,
{
    let mut buf = vec![0u8; len];
    rng.fill_bytes(&mut buf);
    buf
}

} // verus!
