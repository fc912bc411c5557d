//! Deriving an account address from a public key.

use vstd::prelude::*;
use vstd::string::*;
use crate::hashing;
use crate::hexstr;

verus! {

/// The scheme flag that prefixes an Ed25519 public key when its address
/// is derived.
pub const ED25519_ADDRESS_FLAG: u8 = 0;

/// The textual account address bound to a public key under a scheme flag:
/// `0x` followed by the lowercase hexadecimal digest of the flag byte
/// concatenated with the key bytes.
pub open spec fn address_chars_of(flag: u8, pk: Seq<u8>) -> Seq<char> {
    "0x"@ + hexstr::hex_chars_of(hashing::blake2b256_of(seq![flag] + pk))
}

/// Derives the account address of a public key: a pure function, so the
/// same flag and key always map to the same address.
pub fn derive_address(flag: u8, pk: &[u8]) -> (r: String)
    ensures
        r@ == address_chars_of(flag, pk@),
{
    let mut data: Vec<u8> = Vec::new();
    data.push(flag);
    data.extend_from_slice(pk);
    proof {
        assert(data@ =~= seq![flag] + pk@);
    }
    let digest_bytes = hashing::digest(data.as_slice());
    let hex = hexstr::hex_string_of(digest_bytes.as_slice());
    let mut r = String::from_str("0x");
    r.append(hex.as_str());
    r
}

} // verus!
