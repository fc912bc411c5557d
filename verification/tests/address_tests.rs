use enclave_auth::address::derive_address;
use fastcrypto::encoding::{Encoding, Hex};
use fastcrypto::hash::{Blake2b256, HashFunction};

#[test]
fn address_is_deterministic() {
    let pk = [0xabu8; 32];
    assert_eq!(derive_address(0, &pk), derive_address(0, &pk));
}

#[test]
fn distinct_keys_give_distinct_addresses() {
    let a = derive_address(0, &[1u8; 32]);
    let b = derive_address(0, &[2u8; 32]);
    assert_ne!(a, b);
}

#[test]
fn scheme_flag_is_part_of_the_derivation() {
    let pk = [9u8; 32];
    assert_ne!(derive_address(0, &pk), derive_address(1, &pk));
}

#[test]
fn address_matches_reference_digest() {
    let pk = [0x42u8; 32];
    let mut data = vec![0u8];
    data.extend_from_slice(&pk);
    let expected = format!("0x{}", Hex::encode(Blake2b256::digest(&data).digest));
    let address = derive_address(0, &pk);
    assert_eq!(address, expected);
    assert!(address.starts_with("0x"));
    assert_eq!(address.len(), 66);
}
