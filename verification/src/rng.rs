//! The random source: a cryptographically secure supplier of small
//! uniform values, backed by the operating system's entropy pool.

use crate::errors::GeneratorError;
use vstd::prelude::*;

verus! {

/// Relies on ring::rand::SystemRandom::fill: fills four bytes from the
/// OS entropy source, or reports failure. Nothing is promised of the
/// value itself.
#[verifier::external_body]
fn fill_random_u32() -> (r: Result<u32, GeneratorError>)
    ensures
        r matches Err(e) ==> e is RandomBytesError,
{
    let rng = ring::rand::SystemRandom::new();
    let mut bytes = [0u8; 4];
    match ring::rand::SecureRandom::fill(&rng, &mut bytes) {
        Ok(()) => Ok(u32::from_be_bytes(bytes)),
        Err(e) => Err(GeneratorError::RandomBytesError(format!(
            "Failed to fill random bytes: {}",
            e
        ))),
    }
}

/// A fresh random value in `[0, modulus)`: four random bytes read as a
/// big-endian integer, reduced modulo `modulus`. The reduction leaves a
/// negligible bias at the modulus sizes used here.
pub fn next_uniform(modulus: usize) -> (r: Result<usize, GeneratorError>)
    requires
        0 < modulus,
    ensures
        r matches Ok(v) ==> v < modulus,
        r matches Err(e) ==> e is RandomBytesError,
{
    match fill_random_u32() {
        Ok(x) => Ok((x as usize) % modulus),
        Err(e) => Err(e),
    }
}

} // verus!
