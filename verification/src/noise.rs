//! The random keys that the sort is fed with.
use vstd::prelude::*;

verus! {

/// Bytes of random data: 4096 words of 4 bytes, that is the 2048 key pairs
/// of the sort.
pub const NOISE_BYTES: usize = 16384;

/// `rand::thread_rng().fill_bytes(..)` on the whole of `buf`. The bytes that
/// come back are random, so nothing is stated of them; the buffer keeps its
/// length. The call panics when the operating system's generator fails,
/// either when `thread_rng` first seeds the thread's generator or when the
/// generator later reseeds itself; that depends on the environment, not on
/// the arguments, and is outside this contract.
#[verifier::external_body]
fn fill_with_random_bytes(buf: &mut Vec<u8>)
    ensures
        final(buf)@.len() == old(buf)@.len(),
{
    rand::RngCore::fill_bytes(&mut rand::thread_rng(), buf.as_mut_slice());
}

/// A fresh block of `NOISE_BYTES` random bytes: a zeroed buffer of that size
/// filled by the thread's random generator.
pub fn random_key_bytes() -> (bytes: Vec<u8>)
    ensures
        bytes@.len() == NOISE_BYTES,
{
    let mut bytes: Vec<u8> = Vec::new();
    let mut k: usize = 0;
    while k < NOISE_BYTES
        invariant
            k <= NOISE_BYTES,
            bytes@.len() == k,
        decreases NOISE_BYTES - k,
    {
        bytes.push(0u8);
        k = k + 1;
    }
    fill_with_random_bytes(&mut bytes);
    bytes
}

} // verus!
