//! Keyed derivation: an extract-then-expand derivation from seed
//! material to deterministic 32-byte blocks, and the big-endian
//! encoding of the retry counter that is bound into each block's info
//! label.

use crate::errors::GeneratorError;
use vstd::prelude::*;

verus! {

/// What the HKDF-SHA-256 extract-then-expand derivation returns for
/// the given extraction salt, input key material and info label: a
/// 32-byte block that is a function of the three arguments alone.
pub uninterp spec fn hkdf_sha256_block(salt: Seq<u8>, ikm: Seq<u8>, info: Seq<u8>) -> Seq<u8>;

/// Relies on ring::hkdf (Salt::new, Salt::extract, Prk::expand,
/// Okm::fill with HKDF-SHA-256): the 32-byte output is a function of
/// salt, input key material and info label alone. Neither step can
/// fail here: expand fails only for outputs over 255 hash lengths, and
/// fill fails only when the buffer length differs from the requested
/// length; both are fixed at 32 bytes.
#[verifier::external_body]
pub fn hkdf_derive_block(salt: &Vec<u8>, ikm: &Vec<u8>, info: &Vec<u8>) -> (r: Result<
    Vec<u8>,
    GeneratorError,
>)
    ensures
        r is Ok,
        r matches Ok(block) ==> block@ == hkdf_sha256_block(salt@, ikm@, info@) && block@.len()
            == 32,
{
    let salt_key = ring::hkdf::Salt::new(ring::hkdf::HKDF_SHA256, salt.as_slice());
    let prk = salt_key.extract(ikm.as_slice());
    let info_parts = [info.as_slice()];
    let okm = match prk.expand(&info_parts, ring::hkdf::HKDF_SHA256) {
        Ok(okm) => okm,
        Err(_) => {
            return Err(GeneratorError::HkdfExpandError);
        },
    };
    let mut block = vec![0u8; 32];
    match okm.fill(block.as_mut_slice()) {
        Ok(()) => Ok(block),
        Err(_) => Err(GeneratorError::HkdfFillError),
    }
}

/// The four bytes of `x`, most significant first.
pub open spec fn be_bytes_u32(x: u32) -> Seq<u8> {
    seq![
        (x / 0x1000000) as u8,
        ((x / 0x10000) % 0x100) as u8,
        ((x / 0x100) % 0x100) as u8,
        (x % 0x100) as u8,
    ]
}

/// The big-endian byte encoding of `x` (executable form).
pub fn be_bytes(x: u32) -> (v: Vec<u8>)
    ensures
        v@ == be_bytes_u32(x),
{
    let mut v: Vec<u8> = Vec::new();
    v.push((x / 0x1000000) as u8);
    v.push(((x / 0x10000) % 0x100) as u8);
    v.push(((x / 0x100) % 0x100) as u8);
    v.push((x % 0x100) as u8);
    proof {
        assert(v@ =~= be_bytes_u32(x));
    }
    v
}

} // verus!
