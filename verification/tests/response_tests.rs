use enclave_auth::intent::IntentScope;
use enclave_auth::response::{to_signed_response, ImageGenResponse, SignedResponseEnvelope};
use enclave_auth::signing::EnclaveKeyPair;
use fastcrypto::ed25519::{Ed25519PublicKey, Ed25519Signature};
use fastcrypto::encoding::{Encoding, Hex};
use fastcrypto::hash::{Blake2b256, HashFunction};
use fastcrypto::traits::{KeyPair, ToFromBytes, VerifyingKey};

fn sample_payload() -> ImageGenResponse {
    ImageGenResponse {
        image: String::from("aW1hZ2UtYnl0ZXM="),
        prompt: String::from("a cat in the rain"),
        seed: 42,
    }
}

fn signing_bytes(payload: &ImageGenResponse, timestamp_ms: u64) -> Vec<u8> {
    // Rebuilt independently of the library: intent header, then the
    // payload fields, then the timestamp, with bcs supplying the
    // length-prefixed string encodings.
    let mut bytes = vec![1u8, 0, 0];
    bytes.extend_from_slice(&bcs::to_bytes(&payload.image.as_bytes().to_vec()).unwrap());
    bytes.extend_from_slice(&bcs::to_bytes(&payload.prompt.as_bytes().to_vec()).unwrap());
    bytes.extend_from_slice(&bcs::to_bytes(&payload.seed).unwrap());
    bytes.extend_from_slice(&bcs::to_bytes(&timestamp_ms).unwrap());
    bytes
}

fn reconstructed_verifies(envelope: &SignedResponseEnvelope, public: &[u8]) -> bool {
    let digest = Blake2b256::digest(&signing_bytes(&envelope.payload, envelope.timestamp_ms));
    let pk = Ed25519PublicKey::from_bytes(public).unwrap();
    let sig = Ed25519Signature::from_bytes(&envelope.signature).unwrap();
    pk.verify(&digest.digest, &sig).is_ok()
}

#[test]
fn signed_envelope_reconstructs_and_verifies() {
    let kp = EnclaveKeyPair::from_seed(vec![11u8; 32]);
    let timestamp_ms: u64 = 1700000000000;
    let envelope = to_signed_response(&kp, sample_payload(), timestamp_ms, IntentScope::ProcessData);
    assert_eq!(envelope.timestamp_ms, timestamp_ms);
    assert_eq!(envelope.payload.image, sample_payload().image);
    assert_eq!(envelope.payload.prompt, sample_payload().prompt);
    assert_eq!(envelope.payload.seed, 42);
    assert_eq!(envelope.signature.len(), 64);
    assert!(reconstructed_verifies(&envelope, &kp.public));
}

#[test]
fn mutated_payload_or_timestamp_invalidates() {
    let kp = EnclaveKeyPair::from_seed(vec![11u8; 32]);
    let envelope = to_signed_response(&kp, sample_payload(), 1700000000000, IntentScope::ProcessData);

    let mut altered = SignedResponseEnvelope {
        payload: ImageGenResponse {
            image: envelope.payload.image.clone(),
            prompt: String::from("a dog in the rain"),
            seed: envelope.payload.seed,
        },
        timestamp_ms: envelope.timestamp_ms,
        signature: envelope.signature.clone(),
    };
    assert!(!reconstructed_verifies(&altered, &kp.public));

    altered.payload.prompt = envelope.payload.prompt.clone();
    altered.timestamp_ms = envelope.timestamp_ms + 1;
    assert!(!reconstructed_verifies(&altered, &kp.public));

    altered.timestamp_ms = envelope.timestamp_ms;
    altered.payload.seed = envelope.payload.seed + 1;
    assert!(!reconstructed_verifies(&altered, &kp.public));
}

#[test]
fn signing_is_deterministic() {
    let kp = EnclaveKeyPair::from_seed(vec![4u8; 32]);
    let a = to_signed_response(&kp, sample_payload(), 1234, IntentScope::ProcessData);
    let b = to_signed_response(&kp, sample_payload(), 1234, IntentScope::ProcessData);
    assert_eq!(a.signature, b.signature);
}

#[test]
fn outbound_scope_differs_from_inbound() {
    let kp = EnclaveKeyPair::from_seed(vec![4u8; 32]);
    let under_response_scope =
        to_signed_response(&kp, sample_payload(), 1234, IntentScope::ProcessData);
    let under_message_scope =
        to_signed_response(&kp, sample_payload(), 1234, IntentScope::PersonalMessage);
    assert_ne!(
        under_response_scope.signature,
        under_message_scope.signature
    );
}

#[test]
fn signature_hex_is_lossless() {
    let kp = EnclaveKeyPair::from_seed(vec![8u8; 32]);
    let envelope = to_signed_response(&kp, sample_payload(), 99, IntentScope::ProcessData);
    let hex = envelope.signature_hex();
    assert_eq!(hex.len(), 128);
    assert_eq!(Hex::decode(&hex).unwrap(), envelope.signature);
}

#[test]
fn enclave_public_key_matches_seed() {
    let kp = EnclaveKeyPair::from_seed(vec![11u8; 32]);
    let reference = fastcrypto::ed25519::Ed25519KeyPair::from_bytes(&[11u8; 32]).unwrap();
    assert_eq!(kp.public, reference.public().as_ref().to_vec());
}
