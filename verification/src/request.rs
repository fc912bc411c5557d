//! Authenticating an inbound request from its compact signature blob.
//!
//! The blob packs `scheme(1) || signature(64) || public_key(32)` into 97
//! bytes, carried as Base64 text. Verification rebuilds the signed bytes
//! from the caller-supplied date — template message, intent envelope,
//! digest — checks the signature against them, and derives the signer's
//! account address.

use vstd::prelude::*;
use vstd::slice::slice_subrange;
use vstd::string::*;
use crate::address;
use crate::b64;
use crate::errors::AuthError;
use crate::hashing;
use crate::intent;
use crate::intent::IntentScope;
use crate::signing;

verus! {

/// The digest a signer commits to for `date`: the Blake2b-256 hash of the
/// personal message for `date`, UTF-8 encoded and wrapped in the inbound
/// intent envelope.
pub open spec fn request_digest_of(date: Seq<char>) -> Seq<u8> {
    hashing::blake2b256_of(
        intent::intent_encoding(
            intent::scope_tag_of(IntentScope::PersonalMessage),
            intent::INTENT_VERSION,
            intent::INTENT_APP_ID,
            vstd::utf8::encode_utf8(intent::personal_message_of(date)),
        ),
    )
}

/// The exact outcome of verifying a decoded compact signature blob (or a
/// failed decoding) against a date: which error each malformed shape
/// earns, and the derived address on success.
pub open spec fn verification_outcome(blob: Option<Seq<u8>>, date: Seq<char>) -> Result<
    Seq<char>,
    AuthError,
> {
    match blob {
        Option::None => Result::Err(AuthError::MalformedSignature),
        Option::Some(b) => {
            if b.len() != 97 {
                Result::Err(AuthError::MalformedSignature)
            } else if b[0] != 0 {
                Result::Err(AuthError::UnsupportedScheme)
            } else if !signing::ed25519_pk_wellformed(b.subrange(65, 97)) {
                Result::Err(AuthError::InvalidKeyMaterial)
            } else if !signing::ed25519_verifies(
                b.subrange(65, 97),
                request_digest_of(date),
                b.subrange(1, 65),
            ) {
                Result::Err(AuthError::SignatureMismatch)
            } else {
                Result::Ok(
                    address::address_chars_of(address::ED25519_ADDRESS_FLAG, b.subrange(65, 97)),
                )
            }
        },
    }
}

/// Verifies an inbound compact signature blob against the date it is
/// bound to, returning the signer's account address.
///
/// The check is pure and idempotent: the same inputs always yield the
/// same outcome, and no step but the final cryptographic comparison may
/// reject based on signature content.
pub fn verify_signature(signature: &str, date: &str) -> (r: Result<String, AuthError>)
    ensures
        match r {
            Ok(a) => verification_outcome(b64::base64_decoding(signature@), date@) == Result::<
                Seq<char>,
                AuthError,
            >::Ok(a@),
            Err(e) => verification_outcome(b64::base64_decoding(signature@), date@) == Result::<
                Seq<char>,
                AuthError,
            >::Err(e),
        },
{
    let decoded = match b64::base64_decode(signature) {
        Some(v) => v,
        None => {
            return Err(AuthError::MalformedSignature);
        },
    };
    if decoded.len() != 97 {
        return Err(AuthError::MalformedSignature);
    }
    let scheme = decoded[0];
    if scheme != 0 {
        return Err(AuthError::UnsupportedScheme);
    }
    let sig_bytes = slice_subrange(decoded.as_slice(), 1, 65);
    let pk_bytes = slice_subrange(decoded.as_slice(), 65, 97);
    if !signing::check_public_key(pk_bytes) {
        return Err(AuthError::InvalidKeyMaterial);
    }
    let message = intent::build_personal_message(date);
    let message_bytes = message.as_str().as_bytes_vec();
    let envelope = intent::encode_intent_message(
        IntentScope::PersonalMessage,
        message_bytes.as_slice(),
    );
    let digest = hashing::digest(envelope.as_slice());
    if !signing::verify_ed25519(pk_bytes, digest.as_slice(), sig_bytes) {
        return Err(AuthError::SignatureMismatch);
    }
    Ok(address::derive_address(address::ED25519_ADDRESS_FLAG, pk_bytes))
}

/// Signs the personal message for `date` with a 32-byte private seed and
/// packs the result into the Base64 compact blob that `verify_signature`
/// accepts.
///
/// Its contract is the signing-side half of the protocol's round trip:
/// verifying the produced blob against the same date succeeds and yields
/// exactly the address derived from the seed's public key.
pub fn sign_personal_request(seed: &[u8], date: &str) -> (r: String)
    requires
        seed@.len() == 32,
    ensures
        verification_outcome(b64::base64_decoding(r@), date@) == Result::<
            Seq<char>,
            AuthError,
        >::Ok(
            address::address_chars_of(
                address::ED25519_ADDRESS_FLAG,
                signing::ed25519_public_of(seed@),
            ),
        ),
{
    let public = signing::derive_public_key(seed);
    let message = intent::build_personal_message(date);
    let message_bytes = message.as_str().as_bytes_vec();
    let envelope = intent::encode_intent_message(
        IntentScope::PersonalMessage,
        message_bytes.as_slice(),
    );
    let digest = hashing::digest(envelope.as_slice());
    let sig = signing::sign_ed25519(seed, digest.as_slice());
    let mut blob: Vec<u8> = Vec::new();
    blob.push(0);
    blob.extend_from_slice(sig.as_slice());
    blob.extend_from_slice(public.as_slice());
    proof {
        assert(blob@.len() == 97);
        assert(blob@[0] == 0);
        assert(blob@.subrange(1, 65) =~= sig@);
        assert(blob@.subrange(65, 97) =~= public@);
    }
    b64::base64_encode(blob.as_slice())
}

/// A blob that does not decode, or whose decoded length is anything but
/// 97 bytes, is rejected as malformed — never partially trusted.
pub proof fn lemma_wrong_length_is_malformed(blob: Option<Seq<u8>>, date: Seq<char>)
    requires
        match blob {
            Option::None => true,
            Option::Some(b) => b.len() != 97,
        },
    ensures
        verification_outcome(blob, date) == Result::<Seq<char>, AuthError>::Err(
            AuthError::MalformedSignature,
        ),
{
}

/// Verification never succeeds silently: an `Ok` outcome can only arise
/// from a 97-byte blob whose scheme byte names Ed25519, whose public key
/// is well-formed, and whose signature cryptographically verifies against
/// the digest reconstructed for this very date — and then the result is
/// exactly the address derived from that public key.
pub proof fn lemma_success_requires_valid_signature(b: Seq<u8>, date: Seq<char>)
    requires
        verification_outcome(Some(b), date) is Ok,
    ensures
        b.len() == 97,
        b[0] == 0,
        signing::ed25519_pk_wellformed(b.subrange(65, 97)),
        signing::ed25519_verifies(b.subrange(65, 97), request_digest_of(date), b.subrange(1, 65)),
        verification_outcome(Some(b), date) == Result::<Seq<char>, AuthError>::Ok(
            address::address_chars_of(address::ED25519_ADDRESS_FLAG, b.subrange(65, 97)),
        ),
{
}

/// A 97-byte blob whose scheme byte was altered away from the Ed25519 tag
/// is rejected as carrying an unsupported scheme.
pub proof fn lemma_altered_scheme_rejected(b: Seq<u8>, date: Seq<char>)
    requires
        b.len() == 97,
        b[0] != 0,
    ensures
        verification_outcome(Some(b), date) == Result::<Seq<char>, AuthError>::Err(
            AuthError::UnsupportedScheme,
        ),
{
}

} // verus!
