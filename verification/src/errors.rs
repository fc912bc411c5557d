//! Failure taxonomy of the authentication core.

use vstd::prelude::*;

verus! {

/// Why a request was rejected or a response could not be produced.
///
/// Every variant is terminal for the request at hand: retrying a
/// cryptographic check on identical inputs cannot change its outcome.
#[derive(Clone, Copy, Debug, PartialEq, Eq, Structural)]
pub enum AuthError {
    /// The compact signature blob was not valid Base64, or its decoded
    /// length was not exactly 97 bytes.
    MalformedSignature,
    /// The leading scheme byte of the blob named a signature scheme other
    /// than Ed25519.
    UnsupportedScheme,
    /// The public-key bytes did not parse into a valid curve point.
    InvalidKeyMaterial,
    /// The signature was well-formed but cryptographically invalid for the
    /// reconstructed message digest.
    SignatureMismatch,
    /// The wall-clock timestamp for an outbound response could not be read.
    ClockError,
}

} // verus!
