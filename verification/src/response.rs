//! Producing the enclave-signed, timestamped response envelope.

use vstd::prelude::*;
use vstd::string::*;
use crate::codec;
use crate::hashing;
use crate::hexstr;
use crate::intent;
use crate::intent::IntentScope;
use crate::signing;
use crate::signing::EnclaveKeyPair;

verus! {

/// The payload of a processed request: the generated image, the prompt
/// that produced it, and the seed used.
pub struct ImageGenResponse {
    /// The generated image, Base64 text.
    pub image: String,
    /// The final prompt the image was generated from.
    pub prompt: String,
    /// The generation seed.
    pub seed: u32,
}

/// The canonical encoding of the response payload: its fields in order.
pub open spec fn payload_encoding(image: Seq<char>, prompt: Seq<char>, seed: u32) -> Seq<u8> {
    codec::string_encoding(image) + codec::string_encoding(prompt) + codec::u32_le_of(seed)
}

/// The bytes the enclave signs for a response: the intent header under
/// `scope`, then the payload fields, then the timestamp. Both the payload
/// and the timestamp sit under the signature, so altering either
/// invalidates it.
pub open spec fn response_signing_encoding(
    scope: u8,
    image: Seq<char>,
    prompt: Seq<char>,
    seed: u32,
    timestamp_ms: u64,
) -> Seq<u8> {
    seq![scope, intent::INTENT_VERSION, intent::INTENT_APP_ID] + payload_encoding(
        image,
        prompt,
        seed,
    ) + codec::u64_le_of(timestamp_ms)
}

/// The digest the enclave signs for a response.
pub open spec fn response_digest_of(
    scope: u8,
    image: Seq<char>,
    prompt: Seq<char>,
    seed: u32,
    timestamp_ms: u64,
) -> Seq<u8> {
    hashing::blake2b256_of(response_signing_encoding(scope, image, prompt, seed, timestamp_ms))
}

/// The signed bytes pin the response: under one scope, two
/// payload-and-timestamp pairs with the same signing encoding are the
/// same pair. Altering the image, the prompt, the seed or the timestamp
/// therefore always changes the bytes the enclave signed.
pub proof fn lemma_response_encoding_injective(
    scope: u8,
    image1: Seq<char>,
    prompt1: Seq<char>,
    seed1: u32,
    ts1: u64,
    image2: Seq<char>,
    prompt2: Seq<char>,
    seed2: u32,
    ts2: u64,
)
    requires
        response_signing_encoding(scope, image1, prompt1, seed1, ts1)
            == response_signing_encoding(scope, image2, prompt2, seed2, ts2),
    ensures
        image1 == image2,
        prompt1 == prompt2,
        seed1 == seed2,
        ts1 == ts2,
{
    let iu1 = vstd::utf8::encode_utf8(image1);
    let iu2 = vstd::utf8::encode_utf8(image2);
    let pu1 = vstd::utf8::encode_utf8(prompt1);
    let pu2 = vstd::utf8::encode_utf8(prompt2);
    let tail1 = codec::bytes_encoding(pu1) + (codec::u32_le_of(seed1) + codec::u64_le_of(ts1));
    let tail2 = codec::bytes_encoding(pu2) + (codec::u32_le_of(seed2) + codec::u64_le_of(ts2));
    assert(response_signing_encoding(scope, image1, prompt1, seed1, ts1).skip(3)
        =~= codec::bytes_encoding(iu1) + tail1);
    assert(response_signing_encoding(scope, image2, prompt2, seed2, ts2).skip(3)
        =~= codec::bytes_encoding(iu2) + tail2);
    codec::lemma_bytes_encoding_prefix_free(iu1, tail1, iu2, tail2);
    vstd::utf8::encode_utf8_decode_utf8(image1);
    vstd::utf8::encode_utf8_decode_utf8(image2);
    let rest1 = codec::u32_le_of(seed1) + codec::u64_le_of(ts1);
    let rest2 = codec::u32_le_of(seed2) + codec::u64_le_of(ts2);
    codec::lemma_bytes_encoding_prefix_free(pu1, rest1, pu2, rest2);
    vstd::utf8::encode_utf8_decode_utf8(prompt1);
    vstd::utf8::encode_utf8_decode_utf8(prompt2);
    assert(codec::u32_le_of(seed1) =~= rest1.take(4));
    assert(codec::u32_le_of(seed2) =~= rest2.take(4));
    codec::lemma_u32_le_injective(seed1, seed2);
    assert(codec::u64_le_of(ts1) =~= rest1.skip(4));
    assert(codec::u64_le_of(ts2) =~= rest2.skip(4));
    codec::lemma_u64_le_injective(ts1, ts2);
}

/// An outbound response: the payload, the millisecond timestamp at which
/// it was produced, and the enclave's signature over both. Built once and
/// never mutated.
pub struct SignedResponseEnvelope {
    /// The structured response value.
    pub payload: ImageGenResponse,
    /// Milliseconds since the Unix epoch at signing time.
    pub timestamp_ms: u64,
    /// The enclave's 64-byte Ed25519 signature.
    pub signature: Vec<u8>,
}

impl SignedResponseEnvelope {
    /// The signature bytes as lowercase hexadecimal text, a lossless
    /// reversible rendering for the outbound channel.
    pub fn signature_hex(&self) -> (r: String)
        ensures
            r@ == hexstr::hex_chars_of(self.signature@),
    {
        hexstr::hex_string_of(self.signature.as_slice())
    }
}

/// Signs `payload` with the enclave key pair under `scope`, binding the
/// timestamp into the signed bytes.
///
/// Signing with a valid local key pair cannot fail. The contract carries
/// the attestation property: the signature verifies under the enclave's
/// public key against the digest of the canonically re-encoded payload
/// and timestamp, so any independent verifier that rebuilds those bytes
/// accepts the envelope.
pub fn to_signed_response(
    kp: &EnclaveKeyPair,
    payload: ImageGenResponse,
    timestamp_ms: u64,
    scope: IntentScope,
) -> (r: SignedResponseEnvelope)
    requires
        kp.wf(),
    ensures
        r.payload.image@ == payload.image@,
        r.payload.prompt@ == payload.prompt@,
        r.payload.seed == payload.seed,
        r.timestamp_ms == timestamp_ms,
        r.signature@ == signing::ed25519_signature_of(
            kp.seed@,
            response_digest_of(
                intent::scope_tag_of(scope),
                payload.image@,
                payload.prompt@,
                payload.seed,
                timestamp_ms,
            ),
        ),
        signing::ed25519_verifies(
            kp.public@,
            response_digest_of(
                intent::scope_tag_of(scope),
                payload.image@,
                payload.prompt@,
                payload.seed,
                timestamp_ms,
            ),
            r.signature@,
        ),
{
    let mut bytes = intent::intent_header(scope);
    let image_bytes = payload.image.as_str().as_bytes_vec();
    codec::append_bytes_encoding(&mut bytes, image_bytes.as_slice());
    let prompt_bytes = payload.prompt.as_str().as_bytes_vec();
    codec::append_bytes_encoding(&mut bytes, prompt_bytes.as_slice());
    let seed_bytes = codec::encode_u32_le(payload.seed);
    bytes.extend_from_slice(seed_bytes.as_slice());
    let ts_bytes = codec::encode_u64_le(timestamp_ms);
    bytes.extend_from_slice(ts_bytes.as_slice());
    proof {
        assert(bytes@ =~= response_signing_encoding(
            intent::scope_tag_of(scope),
            payload.image@,
            payload.prompt@,
            payload.seed,
            timestamp_ms,
        ));
    }
    let digest = hashing::digest(bytes.as_slice());
    let signature = signing::sign_ed25519(kp.seed.as_slice(), digest.as_slice());
    SignedResponseEnvelope { payload, timestamp_ms, signature }
}

} // verus!
