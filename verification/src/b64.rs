//! Base64 transport encoding of the compact signature blob.

use vstd::prelude::*;
use fastcrypto::encoding::{Base64, Encoding};

verus! {

/// The standard padded Base64 text of a byte sequence, as produced by
/// `fastcrypto::encoding::Base64`.
pub uninterp spec fn base64_text_of(data: Seq<u8>) -> Seq<char>;

/// What Base64 decoding yields on a piece of text: the decoded bytes, or
/// nothing when the text is not valid standard padded Base64.
pub uninterp spec fn base64_decoding(text: Seq<char>) -> Option<Seq<u8>>;

/// Relies on `fastcrypto::encoding::Base64::encode` (strict, padded
/// standard Base64 via `base64ct`): encoding is a function of the bytes
/// alone, and decoding its output returns exactly those bytes.
#[verifier::external_body]
pub(crate) fn base64_encode(data: &[u8]) -> (r: String)
    ensures
        r@ == base64_text_of(data@),
        base64_decoding(r@) == Some(data@),
{
    Base64::encode(data)
}

/// Relies on `fastcrypto::encoding::Base64::decode` (`base64ct`'s strict
/// decoder): it is a function of the text alone and rejects text that is
/// not canonical padded Base64.
#[verifier::external_body]
pub(crate) fn base64_decode(text: &str) -> (r: Option<Vec<u8>>)
    ensures
        match r {
            Some(v) => base64_decoding(text@) == Some(v@),
            None => base64_decoding(text@) is None,
        },
{
    match Base64::decode(text) {
        Ok(v) => Some(v),
        Err(_) => None,
    }
}

} // verus!
