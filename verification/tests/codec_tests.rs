use enclave_auth::codec::{
    decode_bytes, decode_u32_le, decode_u64_le, decode_uleb128, encode_u32_le, encode_u64_le,
    encode_uleb128,
};
use enclave_auth::intent::{decode_intent_message, encode_intent_message, IntentScope};

#[test]
fn uleb128_exact_bytes() {
    assert_eq!(encode_uleb128(0), vec![0]);
    assert_eq!(encode_uleb128(127), vec![127]);
    assert_eq!(encode_uleb128(128), vec![0x80, 0x01]);
    assert_eq!(encode_uleb128(300), vec![0xac, 0x02]);
    assert_eq!(encode_uleb128(16384), vec![0x80, 0x80, 0x01]);
}

#[test]
fn uleb128_roundtrip() {
    for v in [0u64, 1, 127, 128, 255, 300, 16383, 16384, 1 << 32, u64::MAX] {
        let enc = encode_uleb128(v);
        let (dec, used) = decode_uleb128(&enc, 0).expect("canonical encoding decodes");
        assert_eq!(dec, v);
        assert_eq!(used, enc.len());
    }
}

#[test]
fn uleb128_decode_rejects_truncation() {
    assert_eq!(decode_uleb128(&[], 0), None);
    assert_eq!(decode_uleb128(&[0x80], 0), None);
    assert_eq!(decode_uleb128(&[0x80, 0x80], 0), None);
}

#[test]
fn uleb128_matches_bcs_length_prefix() {
    let payload: Vec<u8> = vec![7u8; 300];
    let via_bcs = bcs::to_bytes(&payload).expect("bcs serializes a byte vector");
    let mut via_lib = encode_uleb128(300);
    via_lib.extend_from_slice(&payload);
    assert_eq!(via_lib, via_bcs);
}

#[test]
fn fixed_width_exact_bytes_and_bcs_agreement() {
    assert_eq!(encode_u32_le(0x01020304), vec![4, 3, 2, 1]);
    assert_eq!(
        encode_u32_le(0xdeadbeef),
        bcs::to_bytes(&0xdeadbeefu32).unwrap()
    );
    assert_eq!(
        encode_u64_le(0x1122334455667788),
        vec![0x88, 0x77, 0x66, 0x55, 0x44, 0x33, 0x22, 0x11]
    );
    assert_eq!(
        encode_u64_le(1700000000000),
        bcs::to_bytes(&1700000000000u64).unwrap()
    );
}

#[test]
fn fixed_width_roundtrip() {
    let mut buf = encode_u32_le(0xcafebabe);
    buf.extend_from_slice(&encode_u64_le(u64::MAX - 3));
    let (v32, p) = decode_u32_le(&buf, 0).unwrap();
    assert_eq!(v32, 0xcafebabe);
    assert_eq!(p, 4);
    let (v64, p) = decode_u64_le(&buf, 4).unwrap();
    assert_eq!(v64, u64::MAX - 3);
    assert_eq!(p, 12);
    assert_eq!(decode_u32_le(&buf, 10), None);
    assert_eq!(decode_u64_le(&buf, 5), None);
}

#[test]
fn bytes_roundtrip_with_prefix() {
    let mut buf = vec![0xffu8, 0xee];
    let payload = b"some raw bytes".to_vec();
    let mut enc = encode_uleb128(payload.len() as u64);
    enc.extend_from_slice(&payload);
    buf.extend_from_slice(&enc);
    let (value, end) = decode_bytes(&buf, 2).unwrap();
    assert_eq!(value, payload);
    assert_eq!(end, buf.len());
}

#[test]
fn bytes_decode_rejects_short_input() {
    // Length prefix says five bytes but only three follow.
    assert_eq!(decode_bytes(&[5, 1, 2, 3], 0), None);
}

#[test]
fn intent_envelope_matches_bcs() {
    let message = b"I support AI model creators! 2024-01-01".to_vec();
    let via_lib = encode_intent_message(IntentScope::PersonalMessage, &message);
    let via_bcs = bcs::to_bytes(&(3u8, 0u8, 0u8, message.clone())).unwrap();
    assert_eq!(via_lib, via_bcs);
}

#[test]
fn intent_envelope_roundtrip() {
    let value = b"wrapped value".to_vec();
    let enc = encode_intent_message(IntentScope::ProcessData, &value);
    let (scope, version, app_id, decoded) = decode_intent_message(&enc).unwrap();
    assert_eq!(scope, 1);
    assert_eq!(version, 0);
    assert_eq!(app_id, 0);
    assert_eq!(decoded, value);
}

#[test]
fn intent_decode_rejects_trailing_bytes() {
    let mut enc = encode_intent_message(IntentScope::PersonalMessage, b"x");
    enc.push(0);
    assert_eq!(decode_intent_message(&enc), None);
    assert_eq!(decode_intent_message(&[3, 0]), None);
}

#[test]
fn inbound_and_outbound_scopes_differ() {
    let enc_in = encode_intent_message(IntentScope::PersonalMessage, b"v");
    let enc_out = encode_intent_message(IntentScope::ProcessData, b"v");
    assert_ne!(enc_in[0], enc_out[0]);
    assert_eq!(enc_in[0], 3);
    assert_eq!(enc_out[0], 1);
}
