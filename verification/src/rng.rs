use vstd::prelude::*;

verus! {

/// The source of randomness that the calldata generator consumes.
///
/// The handle is opaque: nothing is ever assumed about the values it yields,
/// so every function that consumes random bytes is verified for all of them.
#[verifier::external_type_specification]
#[verifier::external_body]
pub struct ExThreadRng(rand::rngs::ThreadRng);

/// Relies on rand::rng: a handle to the thread-local generator.
/// (It panics only if the operating system cannot seed the generator.)
#[verifier::external_body]
pub fn fresh_rng() -> rand::rngs::ThreadRng {
    rand::rng()
}

/// Relies on rand's Rng::fill_bytes: it fills the buffer completely,
/// so the result has exactly the requested length.
#[verifier::external_body]
pub fn random_bytes(rng: &mut rand::rngs::ThreadRng, n: usize) -> (r: Vec<u8>)
    ensures
        r@.len() == n,
{
    let mut buf = vec![0u8; n];
    rand::Rng::fill_bytes(rng, buf.as_mut_slice());
    buf
}

/// Relies on rand's RngExt::random_range: the result lies in the given
/// half-open range, which must not be empty (it panics on an empty range).
#[verifier::external_body]
pub fn random_index(rng: &mut rand::rngs::ThreadRng, n: usize) -> (r: usize)
    requires
        n > 0,
    ensures
        r < n,
{
    rand::RngExt::random_range(rng, 0..n)
}

} // verus!
