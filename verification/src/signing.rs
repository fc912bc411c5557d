//! The Ed25519 signature engine and the enclave's own key pair.

use vstd::prelude::*;
use fastcrypto::ed25519::{Ed25519KeyPair, Ed25519PublicKey, Ed25519Signature};
use fastcrypto::traits::{KeyPair, Signer, ToFromBytes, VerifyingKey};

verus! {

/// Whether 32 bytes are the well-formed encoding of an Ed25519 public key,
/// that is, whether they decompress to a valid curve point.
pub uninterp spec fn ed25519_pk_wellformed(pk: Seq<u8>) -> bool;

/// Whether an Ed25519 signature is cryptographically valid for a message
/// under a public key. A deterministic function of the three byte
/// sequences; its value is not modelled here.
pub uninterp spec fn ed25519_verifies(pk: Seq<u8>, msg: Seq<u8>, sig: Seq<u8>) -> bool;

/// The 64 signature bytes that deterministic Ed25519 signing produces from
/// a 32-byte private seed and a message.
pub uninterp spec fn ed25519_signature_of(seed: Seq<u8>, msg: Seq<u8>) -> Seq<u8>;

/// The 32 public-key bytes derived from a 32-byte private seed.
pub uninterp spec fn ed25519_public_of(seed: Seq<u8>) -> Seq<u8>;

/// Relies on `fastcrypto::ed25519::Ed25519PublicKey::from_bytes`
/// (`ed25519_consensus::VerificationKey::try_from`): it succeeds exactly
/// when the bytes are a well-formed public-key encoding, a property of the
/// bytes alone.
#[verifier::external_body]
pub(crate) fn check_public_key(pk: &[u8]) -> (r: bool)
    ensures
        r == ed25519_pk_wellformed(pk@),
{
    Ed25519PublicKey::from_bytes(pk).is_ok()
}

/// Relies on `fastcrypto::ed25519::Ed25519PublicKey::verify` and on the
/// two `from_bytes` parsers that rebuild its arguments: parsing a
/// well-formed key cannot fail, parsing 64 signature bytes cannot fail,
/// and verification is a deterministic function of key, message and
/// signature bytes.
#[verifier::external_body]
pub(crate) fn verify_ed25519(pk: &[u8], msg: &[u8], sig: &[u8]) -> (r: bool)
    requires
        ed25519_pk_wellformed(pk@),
        sig@.len() == 64,
    ensures
        r == ed25519_verifies(pk@, msg@, sig@),
{
    let key = match Ed25519PublicKey::from_bytes(pk) {
        Ok(k) => k,
        Err(_) => return false,
    };
    let signature = match Ed25519Signature::from_bytes(sig) {
        Ok(s) => s,
        Err(_) => return false,
    };
    key.verify(msg, &signature).is_ok()
}

/// Relies on `fastcrypto::ed25519::Ed25519KeyPair::from_bytes`: any 32
/// bytes are a valid private seed, and the derived public key is a
/// well-formed 32-byte encoding that is a function of the seed alone.
#[verifier::external_body]
pub(crate) fn derive_public_key(seed: &[u8]) -> (r: Vec<u8>)
    requires
        seed@.len() == 32,
    ensures
        r@ == ed25519_public_of(seed@),
        r@.len() == 32,
        ed25519_pk_wellformed(r@),
{
    let kp = Ed25519KeyPair::from_bytes(seed).expect("seed has length 32");
    kp.public().as_ref().to_vec()
}

/// Relies on `fastcrypto::ed25519::Ed25519KeyPair::sign`
/// (`ed25519_consensus`, deterministic per RFC 8032): the 64 signature
/// bytes are a function of seed and message alone, and the produced
/// signature verifies under the key pair's public key.
#[verifier::external_body]
pub(crate) fn sign_ed25519(seed: &[u8], msg: &[u8]) -> (r: Vec<u8>)
    requires
        seed@.len() == 32,
    ensures
        r@ == ed25519_signature_of(seed@, msg@),
        r@.len() == 64,
        ed25519_verifies(ed25519_public_of(seed@), msg@, r@),
{
    let kp = Ed25519KeyPair::from_bytes(seed).expect("seed has length 32");
    let signature = kp.sign(msg);
    signature.as_ref().to_vec()
}

/// The enclave's long-lived signing key pair, held as plain bytes: a
/// 32-byte private seed and the public key derived from it. It is
/// constructed once at process start and only ever read afterwards; it
/// signs outbound responses and never takes part in verifying inbound
/// requests.
pub struct EnclaveKeyPair {
    /// The 32-byte Ed25519 private seed.
    pub seed: Vec<u8>,
    /// The 32-byte public key derived from `seed`.
    pub public: Vec<u8>,
}

impl EnclaveKeyPair {
    /// The public key really is the one derived from the seed.
    pub open spec fn wf(&self) -> bool {
        &&& self.seed@.len() == 32
        &&& self.public@ == ed25519_public_of(self.seed@)
        &&& self.public@.len() == 32
        &&& ed25519_pk_wellformed(self.public@)
    }

    /// Builds the key pair belonging to a 32-byte private seed.
    pub fn from_seed(seed: Vec<u8>) -> (r: EnclaveKeyPair)
        requires
            seed@.len() == 32,
        ensures
            r.wf(),
            r.seed@ == seed@,
    {
        let public = derive_public_key(seed.as_slice());
        EnclaveKeyPair { seed, public }
    }
}

} // verus!
