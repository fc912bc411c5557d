//! Intent envelopes: the tagged wrapping of a value before it is signed.
//!
//! A three-byte tag of scope, version and application id precedes every
//! signed encoding, so that bytes signed for one message class can never
//! be replayed as another. Inbound requests are verified under the
//! personal-message scope; outbound responses are signed under the
//! distinct process-data scope.

use vstd::prelude::*;
use vstd::string::*;
use crate::codec;

verus! {

/// The encoding version of every envelope this protocol produces.
pub const INTENT_VERSION: u8 = 0;

/// The application id of every envelope this protocol produces.
pub const INTENT_APP_ID: u8 = 0;

/// The message classes that may be signed. The scope under which inbound
/// requests are verified differs from the scope under which outbound
/// responses are signed; mixing them is a protocol violation.
#[derive(Clone, Copy, Debug, PartialEq, Eq, Structural)]
pub enum IntentScope {
    /// A user-signed personal message: the inbound verification scope.
    PersonalMessage,
    /// An enclave-signed response: the outbound signing scope.
    ProcessData,
}

/// The tag byte of a scope.
pub open spec fn scope_tag_of(scope: IntentScope) -> u8 {
    match scope {
        IntentScope::PersonalMessage => 3,
        IntentScope::ProcessData => 1,
    }
}

/// Returns the tag byte of `scope`.
pub fn scope_tag(scope: IntentScope) -> (r: u8)
    ensures
        r == scope_tag_of(scope),
{
    match scope {
        IntentScope::PersonalMessage => 3,
        IntentScope::ProcessData => 1,
    }
}

/// The canonical encoding of an intent envelope whose value is a byte
/// string: the three tag bytes followed by the length-prefixed value.
pub open spec fn intent_encoding(scope: u8, version: u8, app_id: u8, value: Seq<u8>) -> Seq<u8> {
    seq![scope, version, app_id] + codec::bytes_encoding(value)
}

/// The three tag bytes that open every envelope encoding.
pub fn intent_header(scope: IntentScope) -> (r: Vec<u8>)
    ensures
        r@ == seq![scope_tag_of(scope), INTENT_VERSION, INTENT_APP_ID],
{
    let r: Vec<u8> = vec![scope_tag(scope), INTENT_VERSION, INTENT_APP_ID];
    proof {
        assert(r@ =~= seq![scope_tag_of(scope), INTENT_VERSION, INTENT_APP_ID]);
    }
    r
}

/// Encodes an envelope wrapping a byte-string value under `scope`.
pub fn encode_intent_message(scope: IntentScope, value: &[u8]) -> (r: Vec<u8>)
    ensures
        r@ == intent_encoding(scope_tag_of(scope), INTENT_VERSION, INTENT_APP_ID, value@),
{
    let mut out = intent_header(scope);
    codec::append_bytes_encoding(&mut out, value);
    proof {
        assert(out@ =~= intent_encoding(
            scope_tag_of(scope),
            INTENT_VERSION,
            INTENT_APP_ID,
            value@,
        ));
    }
    out
}

/// Decoding of an envelope with a byte-string value: the three tag bytes
/// and the value, provided the input is consumed exactly.
pub open spec fn intent_decode(bytes: Seq<u8>) -> Option<(u8, u8, u8, Seq<u8>)> {
    if bytes.len() < 3 {
        None
    } else {
        match codec::bytes_decode(bytes.skip(3)) {
            None => None,
            Some(p) => if p.1 + 3 == bytes.len() {
                Some((bytes[0], bytes[1], bytes[2], p.0))
            } else {
                None
            },
        }
    }
}

/// Decoding inverts encoding for intent envelopes.
pub proof fn lemma_intent_roundtrip(scope: u8, version: u8, app_id: u8, value: Seq<u8>)
    ensures
        intent_decode(intent_encoding(scope, version, app_id, value)) == Some(
            (scope, version, app_id, value),
        ),
{
    let enc = intent_encoding(scope, version, app_id, value);
    assert(enc.skip(3) =~= codec::bytes_encoding(value) + Seq::<u8>::empty());
    codec::lemma_bytes_roundtrip(value, Seq::<u8>::empty());
}

/// Envelope encoding never collides: two envelopes with the same bytes
/// carry the same tags and the same value.
pub proof fn lemma_intent_encoding_injective(
    scope1: u8,
    version1: u8,
    app_id1: u8,
    value1: Seq<u8>,
    scope2: u8,
    version2: u8,
    app_id2: u8,
    value2: Seq<u8>,
)
    requires
        intent_encoding(scope1, version1, app_id1, value1) == intent_encoding(
            scope2,
            version2,
            app_id2,
            value2,
        ),
    ensures
        scope1 == scope2,
        version1 == version2,
        app_id1 == app_id2,
        value1 == value2,
{
    lemma_intent_roundtrip(scope1, version1, app_id1, value1);
    lemma_intent_roundtrip(scope2, version2, app_id2, value2);
}

/// Decodes an envelope with a byte-string value, rejecting input with
/// trailing bytes.
pub fn decode_intent_message(input: &[u8]) -> (r: Option<(u8, u8, u8, Vec<u8>)>)
    ensures
        match intent_decode(input@) {
            None => r is None,
            Some(p) => r matches Some(q) && q.0 == p.0 && q.1 == p.1 && q.2 == p.2 && q.3@ == p.3,
        },
{
    if input.len() < 3 {
        return None;
    }
    proof {
        assert(input@.skip(3) =~= input@.subrange(3, input@.len() as int));
    }
    match codec::decode_bytes(input, 3) {
        None => {
            proof {
                let sub = input@.skip(3);
                assert(codec::bytes_decode(input@.skip(3 as usize as int)) == codec::bytes_decode(
                    sub,
                ));
            }
            None
        },
        Some((value, end)) => {
            if end != input.len() {
                return None;
            }
            Some((input[0], input[1], input[2], value))
        },
    }
}

/// The fixed template that couples a caller-supplied date into the signed
/// personal message.
pub open spec fn personal_message_of(date: Seq<char>) -> Seq<char> {
    "I support AI model creators! "@ + date
}

/// The template couples the date into the signed message without
/// ambiguity: two dates that yield the same personal message are the same
/// date, so bytes signed for one date can never stand for another.
pub proof fn lemma_personal_message_injective(date1: Seq<char>, date2: Seq<char>)
    requires
        personal_message_of(date1) == personal_message_of(date2),
    ensures
        date1 == date2,
{
    let prefix = "I support AI model creators! "@;
    assert(date1 =~= personal_message_of(date1).skip(prefix.len() as int));
    assert(date2 =~= personal_message_of(date2).skip(prefix.len() as int));
}

/// Builds the personal message for `date` by interpolating it into the
/// fixed template.
pub fn build_personal_message(date: &str) -> (r: String)
    ensures
        r@ == personal_message_of(date@),
{
    let mut r = String::from_str("I support AI model creators! ");
    r.append(date);
    r
}

} // verus!
