//! Request authentication and response attestation for an enclave service.
//!
//! Inbound requests carry a compact signature blob over an intent-tagged,
//! canonically encoded message; verifying it yields the signer's account
//! address. Outbound responses are wrapped in an intent envelope, hashed and
//! signed with the enclave's own key so a remote party can check both the
//! payload and the timestamp.

pub mod address;
pub mod b64;
pub mod codec;
pub mod errors;
pub mod hashing;
pub mod hexstr;
pub mod intent;
pub mod orchestration;
pub mod response;
pub mod signing;
pub mod request;
