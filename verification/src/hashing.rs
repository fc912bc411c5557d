//! The fixed-output cryptographic digest used throughout the protocol.

use vstd::prelude::*;
use fastcrypto::hash::{Blake2b256, HashFunction};

verus! {

/// The 32-byte Blake2b-256 digest of a byte sequence, as computed by
/// `fastcrypto::hash::Blake2b256`. The digest is a function of the input
/// bytes alone; its value is not modelled here.
pub uninterp spec fn blake2b256_of(data: Seq<u8>) -> Seq<u8>;

/// Relies on `fastcrypto::hash::Blake2b256` (`HashFunction::digest`): a
/// deterministic hash of the input bytes with a 32-byte output.
#[verifier::external_body]
pub(crate) fn digest(data: &[u8]) -> (r: Vec<u8>)
    ensures
        r@ == blake2b256_of(data@),
        r@.len() == 32,
{
    Blake2b256::digest(data).digest.to_vec()
}

} // verus!
