//! Noise source of the simulated environment: random sensor samples and
//! random frame contents, drawn from the thread-local `rand` generator.
use vstd::prelude::*;

verus! {

/// One 16-bit noise sample — a placeholder for simulated sensor frames.
///
/// Trusted: `rand::rng().random::<u16>()`. Any `u16` may come back, so nothing
/// is stated of the result.
#[verifier::external_body]
pub fn noise_sample() -> u16 {
    rand::Rng::random(&mut rand::rng())
}

/// Fill the first `len` bytes of `buf` with random noise.
///
/// Trusted: `rand::Rng::fill` on `&mut buf[..len]` with the thread-local
/// generator. The random bytes themselves are left unsaid; what is stated is
/// that the slice keeps its length and that the bytes from `len` on are left
/// as they were.
#[verifier::external_body]
pub(crate) fn fill_noise(buf: &mut [u8], len: usize)
    requires
        len <= old(buf)@.len(),
    ensures
        final(buf)@.len() == old(buf)@.len(),
        forall|i: int| len <= i < old(buf)@.len() ==> #[trigger] final(buf)@[i] == old(buf)@[i],
{
    rand::Rng::fill(&mut rand::rng(), &mut buf[..len])
}

} // verus!
