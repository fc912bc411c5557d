//! Canonical binary encoding of the values that get signed.
//!
//! The wire format is the canonical serialization shared with every
//! verifier: fixed-width unsigned integers in little-endian order, byte
//! sequences and strings prefixed with their ULEB128-encoded length, and
//! structs as the plain concatenation of their fields. Each semantic value
//! has exactly one byte representation, so signer and verifier can rebuild
//! the same bytes independently.

use vstd::prelude::*;
use vstd::arithmetic::div_mod::lemma_fundamental_div_mod;

verus! {

/// ULEB128 encoding of a natural number: seven low bits per byte, least
/// significant group first, the high bit marking that more bytes follow.
pub open spec fn uleb128_of(n: nat) -> Seq<u8>
    decreases n,
{
    if n < 128 {
        seq![n as u8]
    } else {
        seq![(128 + n % 128) as u8] + uleb128_of(n / 128)
    }
}

/// Little-endian encoding of a 32-bit unsigned integer.
pub open spec fn u32_le_of(v: u32) -> Seq<u8> {
    seq![
        (v & 0xff) as u8,
        ((v >> 8) & 0xff) as u8,
        ((v >> 16) & 0xff) as u8,
        ((v >> 24) & 0xff) as u8,
    ]
}

/// Little-endian encoding of a 64-bit unsigned integer.
pub open spec fn u64_le_of(v: u64) -> Seq<u8> {
    seq![
        (v & 0xff) as u8,
        ((v >> 8) & 0xff) as u8,
        ((v >> 16) & 0xff) as u8,
        ((v >> 24) & 0xff) as u8,
        ((v >> 32) & 0xff) as u8,
        ((v >> 40) & 0xff) as u8,
        ((v >> 48) & 0xff) as u8,
        ((v >> 56) & 0xff) as u8,
    ]
}

/// A byte sequence is encoded as its ULEB128 length followed by the raw
/// bytes.
pub open spec fn bytes_encoding(b: Seq<u8>) -> Seq<u8> {
    uleb128_of(b.len()) + b
}

/// A UTF-8 string is encoded as the byte sequence of its UTF-8 form.
pub open spec fn string_encoding(s: Seq<char>) -> Seq<u8> {
    bytes_encoding(vstd::utf8::encode_utf8(s))
}

/// Encodes `n` in ULEB128.
pub fn encode_uleb128(n: u64) -> (r: Vec<u8>)
    ensures
        r@ == uleb128_of(n as nat),
{
    let mut r: Vec<u8> = Vec::new();
    let mut v: u64 = n;
    while v >= 128
        invariant
            r@ + uleb128_of(v as nat) == uleb128_of(n as nat),
        decreases v,
    {
        let byte: u8 = (128 + (v % 128)) as u8;
        proof {
            assert(uleb128_of(v as nat) == seq![byte] + uleb128_of((v as nat) / 128));
            assert(r@ + (seq![byte] + uleb128_of((v as nat) / 128)) =~= (r@ + seq![byte])
                + uleb128_of((v as nat) / 128));
            assert(r@.push(byte) =~= r@ + seq![byte]);
            assert((v as nat) / 128 == (v / 128) as nat);
        }
        r.push(byte);
        v = v / 128;
    }
    proof {
        assert(uleb128_of(v as nat) =~= seq![v as u8]);
        assert(r@.push(v as u8) =~= r@ + seq![v as u8]);
    }
    r.push(v as u8);
    r
}

/// Encodes `v` as four little-endian bytes.
pub fn encode_u32_le(v: u32) -> (r: Vec<u8>)
    ensures
        r@ == u32_le_of(v),
{
    let r: Vec<u8> = vec![
        (v & 0xff) as u8,
        ((v >> 8) & 0xff) as u8,
        ((v >> 16) & 0xff) as u8,
        ((v >> 24) & 0xff) as u8,
    ];
    proof {
        assert(r@ =~= u32_le_of(v));
    }
    r
}

/// Encodes `v` as eight little-endian bytes.
pub fn encode_u64_le(v: u64) -> (r: Vec<u8>)
    ensures
        r@ == u64_le_of(v),
{
    let r: Vec<u8> = vec![
        (v & 0xff) as u8,
        ((v >> 8) & 0xff) as u8,
        ((v >> 16) & 0xff) as u8,
        ((v >> 24) & 0xff) as u8,
        ((v >> 32) & 0xff) as u8,
        ((v >> 40) & 0xff) as u8,
        ((v >> 48) & 0xff) as u8,
        ((v >> 56) & 0xff) as u8,
    ];
    proof {
        assert(r@ =~= u64_le_of(v));
    }
    r
}

/// Appends the length-prefixed encoding of `b` to `out`.
pub fn append_bytes_encoding(out: &mut Vec<u8>, b: &[u8])
    ensures
        final(out)@ == old(out)@ + bytes_encoding(b@),
{
    let len_bytes = encode_uleb128(b.len() as u64);
    out.extend_from_slice(len_bytes.as_slice());
    out.extend_from_slice(b);
    proof {
        assert(out@ =~= old(out)@ + bytes_encoding(b@));
    }
}

/// ULEB128 decoding of a byte sequence read from its front: the decoded
/// value together with the number of bytes consumed.
pub open spec fn uleb128_decode(bytes: Seq<u8>) -> Option<(nat, int)>
    decreases bytes.len(),
{
    if bytes.len() == 0 {
        None
    } else if bytes[0] < 128 {
        Some((bytes[0] as nat, 1))
    } else {
        match uleb128_decode(bytes.drop_first()) {
            None => None,
            Some(p) => Some((((bytes[0] as int - 128) + 128 * p.0) as nat, p.1 + 1)),
        }
    }
}

/// A successful ULEB128 decoding consumes at least one byte and no more
/// than the whole input.
pub proof fn lemma_uleb128_decode_used(bytes: Seq<u8>)
    ensures
        match uleb128_decode(bytes) {
            None => true,
            Some(p) => 1 <= p.1 <= bytes.len(),
        },
    decreases bytes.len(),
{
    if bytes.len() > 0 && bytes[0] >= 128 {
        lemma_uleb128_decode_used(bytes.drop_first());
    }
}

/// Decoding inverts encoding: the ULEB128 bytes of `n`, whatever follows
/// them, decode back to `n`.
pub proof fn lemma_uleb128_roundtrip(n: nat, rest: Seq<u8>)
    ensures
        uleb128_decode(uleb128_of(n) + rest) == Some((n, uleb128_of(n).len() as int)),
    decreases n,
{
    let enc = uleb128_of(n) + rest;
    if n < 128 {
        assert(enc[0] == n as u8);
    } else {
        let first: u8 = (128 + n % 128) as u8;
        assert(enc[0] == first);
        assert(first >= 128);
        assert(enc.drop_first() =~= uleb128_of(n / 128) + rest);
        lemma_uleb128_roundtrip(n / 128, rest);
        lemma_fundamental_div_mod(n as int, 128);
        assert((first as int - 128) + 128 * (n / 128) == n as int);
    }
}

/// Decodes a ULEB128 value starting at `pos`, returning the value and the
/// position just past it, or `None` when the input is exhausted before the
/// final group or the value does not fit in 64 bits.
pub fn decode_uleb128(input: &[u8], pos: usize) -> (r: Option<(u64, usize)>)
    requires
        pos <= input@.len(),
    ensures
        match uleb128_decode(input@.skip(pos as int)) {
            None => r is None,
            Some(p) => if p.0 <= u64::MAX {
                r == Some((p.0 as u64, (pos + p.1) as usize)) && pos + p.1 <= input@.len()
            } else {
                r is None
            },
        },
    decreases input@.len() - pos,
{
    let tail = Ghost(input@.skip(pos as int));
    if pos >= input.len() {
        return None;
    }
    let b = input[pos];
    proof {
        assert(tail@[0] == b);
    }
    if b < 128 {
        Some((b as u64, pos + 1))
    } else {
        proof {
            assert(tail@.drop_first() =~= input@.skip(pos as int + 1));
        }
        match decode_uleb128(input, pos + 1) {
            None => None,
            Some((v, next)) => {
                let low: u64 = (b - 128) as u64;
                match v.checked_mul(128) {
                    None => None,
                    Some(high) => match high.checked_add(low) {
                        None => None,
                        Some(value) => Some((value, next)),
                    },
                }
            },
        }
    }
}

/// Decodes four little-endian bytes starting at `pos`.
pub fn decode_u32_le(input: &[u8], pos: usize) -> (r: Option<(u32, usize)>)
    ensures
        match r {
            Some(p) => pos + 4 <= input@.len() && u32_le_of(p.0)
                == input@.subrange(pos as int, pos as int + 4) && p.1 == pos + 4,
            None => pos + 4 > input@.len(),
        },
{
    if pos >= input.len() || input.len() - pos < 4 {
        return None;
    }
    let b0 = input[pos];
    let b1 = input[pos + 1];
    let b2 = input[pos + 2];
    let b3 = input[pos + 3];
    let v: u32 = (b0 as u32) | ((b1 as u32) << 8) | ((b2 as u32) << 16) | ((b3 as u32) << 24);
    proof {
        assert((v & 0xff) as u8 == b0 && ((v >> 8) & 0xff) as u8 == b1 && ((v >> 16) & 0xff) as u8
            == b2 && ((v >> 24) & 0xff) as u8 == b3) by (bit_vector)
            requires
                v == (b0 as u32) | ((b1 as u32) << 8) | ((b2 as u32) << 16) | ((b3 as u32) << 24),
        ;
        assert(u32_le_of(v) =~= input@.subrange(pos as int, pos as int + 4));
    }
    Some((v, pos + 4))
}

/// Decodes eight little-endian bytes starting at `pos`.
pub fn decode_u64_le(input: &[u8], pos: usize) -> (r: Option<(u64, usize)>)
    ensures
        match r {
            Some(p) => pos + 8 <= input@.len() && u64_le_of(p.0)
                == input@.subrange(pos as int, pos as int + 8) && p.1 == pos + 8,
            None => pos + 8 > input@.len(),
        },
{
    if pos >= input.len() || input.len() - pos < 8 {
        return None;
    }
    let b0 = input[pos];
    let b1 = input[pos + 1];
    let b2 = input[pos + 2];
    let b3 = input[pos + 3];
    let b4 = input[pos + 4];
    let b5 = input[pos + 5];
    let b6 = input[pos + 6];
    let b7 = input[pos + 7];
    let v: u64 = (b0 as u64) | ((b1 as u64) << 8) | ((b2 as u64) << 16) | ((b3 as u64) << 24) | (
    (b4 as u64) << 32) | ((b5 as u64) << 40) | ((b6 as u64) << 48) | ((b7 as u64) << 56);
    proof {
        assert((v & 0xff) as u8 == b0 && ((v >> 8) & 0xff) as u8 == b1 && ((v >> 16) & 0xff) as u8
            == b2 && ((v >> 24) & 0xff) as u8 == b3 && ((v >> 32) & 0xff) as u8 == b4 && ((v >> 40)
            & 0xff) as u8 == b5 && ((v >> 48) & 0xff) as u8 == b6 && ((v >> 56) & 0xff) as u8 == b7)
            by (bit_vector)
            requires
                v == (b0 as u64) | ((b1 as u64) << 8) | ((b2 as u64) << 16) | ((b3 as u64) << 24) |
                ((b4 as u64) << 32) | ((b5 as u64) << 40) | ((b6 as u64) << 48) | ((b7 as u64)
                << 56),
        ;
        assert(u64_le_of(v) =~= input@.subrange(pos as int, pos as int + 8));
    }
    Some((v, pos + 8))
}

/// Little-endian 32-bit encoding loses nothing: two values with the same
/// bytes are the same value.
pub proof fn lemma_u32_le_injective(a: u32, b: u32)
    requires
        u32_le_of(a) == u32_le_of(b),
    ensures
        a == b,
{
    assert(a == b) by (bit_vector)
        requires
            (a & 0xff) as u8 == (b & 0xff) as u8 && ((a >> 8) & 0xff) as u8 == ((b >> 8)
                & 0xff) as u8 && ((a >> 16) & 0xff) as u8 == ((b >> 16) & 0xff) as u8 && ((a >> 24)
                & 0xff) as u8 == ((b >> 24) & 0xff) as u8,
    ;
}

/// Little-endian 64-bit encoding loses nothing.
pub proof fn lemma_u64_le_injective(a: u64, b: u64)
    requires
        u64_le_of(a) == u64_le_of(b),
    ensures
        a == b,
{
    assert(a == b) by (bit_vector)
        requires
            (a & 0xff) as u8 == (b & 0xff) as u8 && ((a >> 8) & 0xff) as u8 == ((b >> 8)
                & 0xff) as u8 && ((a >> 16) & 0xff) as u8 == ((b >> 16) & 0xff) as u8 && ((a >> 24)
                & 0xff) as u8 == ((b >> 24) & 0xff) as u8 && ((a >> 32) & 0xff) as u8 == ((b >> 32)
                & 0xff) as u8 && ((a >> 40) & 0xff) as u8 == ((b >> 40) & 0xff) as u8 && ((a >> 48)
                & 0xff) as u8 == ((b >> 48) & 0xff) as u8 && ((a >> 56) & 0xff) as u8 == ((b >> 56)
                & 0xff) as u8,
    ;
}

/// Decoding of a length-prefixed byte sequence read from the front of
/// `bytes`: the payload together with the number of bytes consumed.
pub open spec fn bytes_decode(bytes: Seq<u8>) -> Option<(Seq<u8>, int)> {
    match uleb128_decode(bytes) {
        None => None,
        Some(p) => if p.0 + p.1 <= bytes.len() {
            Some((bytes.subrange(p.1, p.1 + p.0 as int), p.1 + p.0 as int))
        } else {
            None
        },
    }
}

/// Decoding inverts encoding for length-prefixed byte sequences.
pub proof fn lemma_bytes_roundtrip(b: Seq<u8>, rest: Seq<u8>)
    ensures
        bytes_decode(bytes_encoding(b) + rest) == Some((b, bytes_encoding(b).len() as int)),
{
    let enc = bytes_encoding(b) + rest;
    assert(enc =~= uleb128_of(b.len()) + (b + rest));
    lemma_uleb128_roundtrip(b.len(), b + rest);
    let used = uleb128_of(b.len()).len() as int;
    assert(enc.subrange(used, used + b.len() as int) =~= b);
}

/// Length-prefixed encodings are self-delimiting: when two of them open
/// the same byte stream, the payloads and the remainders both agree, so
/// adjacent fields can never bleed into one another.
pub proof fn lemma_bytes_encoding_prefix_free(a: Seq<u8>, ra: Seq<u8>, b: Seq<u8>, rb: Seq<u8>)
    requires
        bytes_encoding(a) + ra == bytes_encoding(b) + rb,
    ensures
        a == b,
        ra == rb,
{
    lemma_bytes_roundtrip(a, ra);
    lemma_bytes_roundtrip(b, rb);
    assert(bytes_decode(bytes_encoding(a) + ra) == bytes_decode(bytes_encoding(b) + rb));
    let la = bytes_encoding(a).len() as int;
    assert(bytes_encoding(b).len() as int == la);
    assert(ra =~= (bytes_encoding(a) + ra).skip(la));
    assert(rb =~= (bytes_encoding(b) + rb).skip(la));
}

/// Decoding inverts encoding for strings as well: the length-prefixed
/// UTF-8 bytes of a character sequence decode back to those bytes, and
/// decoding the UTF-8 yields the original characters.
pub proof fn lemma_string_roundtrip(s: Seq<char>, rest: Seq<u8>)
    ensures
        bytes_decode(string_encoding(s) + rest) == Some(
            (vstd::utf8::encode_utf8(s), string_encoding(s).len() as int),
        ),
        vstd::utf8::decode_utf8(vstd::utf8::encode_utf8(s)) == s,
{
    lemma_bytes_roundtrip(vstd::utf8::encode_utf8(s), rest);
    vstd::utf8::encode_utf8_decode_utf8(s);
}

/// Decodes a length-prefixed byte sequence starting at `pos`, returning
/// the payload and the position just past it.
pub fn decode_bytes(input: &[u8], pos: usize) -> (r: Option<(Vec<u8>, usize)>)
    requires
        pos <= input@.len(),
    ensures
        match bytes_decode(input@.skip(pos as int)) {
            None => r is None,
            Some(p) => r matches Some(q) && q.0@ == p.0 && q.1 == pos + p.1,
        },
{
    let ghost tail = input@.skip(pos as int);
    let input_len: usize = input.len();
    match decode_uleb128(input, pos) {
        None => {
            proof {
                if uleb128_decode(tail) is Some {
                    let p = uleb128_decode(tail)->Some_0;
                    lemma_uleb128_decode_used(tail);
                    assert(p.0 > u64::MAX);
                    assert(tail.len() <= input_len <= u64::MAX);
                    assert(p.0 + p.1 > tail.len());
                }
            }
            None
        },
        Some((len, after_len)) => {
            proof {
                let p = uleb128_decode(tail)->Some_0;
                lemma_uleb128_decode_used(tail);
                assert(pos + p.1 <= input_len);
                assert(len == p.0 && after_len == pos + p.1);
            }
            if len > (input_len - after_len) as u64 {
                proof {
                    let p = uleb128_decode(tail)->Some_0;
                    assert(p.0 + p.1 > tail.len());
                }
                return None;
            }
            let len_usize: usize = len as usize;
            let mut value: Vec<u8> = Vec::new();
            let mut i: usize = 0;
            while i < len_usize
                invariant
                    after_len + len_usize <= input@.len(),
                    input@.len() <= usize::MAX,
                    i <= len_usize,
                    value@ =~= input@.subrange(after_len as int, after_len as int + i as int),
                decreases len_usize - i,
            {
                value.push(input[after_len + i]);
                i = i + 1;
                proof {
                    assert(value@ =~= input@.subrange(
                        after_len as int,
                        after_len as int + i as int,
                    ));
                }
            }
            proof {
                let p = uleb128_decode(tail)->Some_0;
                assert(value@ =~= tail.subrange(p.1, p.1 + p.0 as int));
            }
            Some((value, after_len + len_usize))
        },
    }
}

} // verus!
