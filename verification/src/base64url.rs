//! The URL-safe base64 encoding without padding (RFC 4648, section 5).
//!
//! The encoder is the `base64` crate's. This module states what it returns and
//! proves what the rest of the library needs of that: how long an encoding is,
//! and that two encodings are equal only if the bytes are.

use base64::engine::general_purpose::URL_SAFE_NO_PAD;
use base64::Engine;
use vstd::prelude::*;

verus! {

/// The character that stands for a six-bit value.
pub open spec fn symbol(value: u8) -> char {
    if value < 26 {
        (value + 65) as char
    } else if value < 52 {
        (value + 71) as char
    } else if value < 62 {
        (value - 4) as char
    } else if value == 62 {
        '-'
    } else {
        '_'
    }
}

/// The encoding of `bytes`: each three bytes give four characters, and a last
/// one or two bytes give two or three.
pub open spec fn encode(bytes: Seq<u8>) -> Seq<char>
    decreases bytes.len(),
{
    if bytes.len() == 0 {
        Seq::empty()
    } else if bytes.len() == 1 {
        seq![symbol(bytes[0] >> 2), symbol((bytes[0] & 0x03) << 4)]
    } else if bytes.len() == 2 {
        seq![
            symbol(bytes[0] >> 2),
            symbol(((bytes[0] & 0x03) << 4) | (bytes[1] >> 4)),
            symbol((bytes[1] & 0x0f) << 2),
        ]
    } else {
        seq![
            symbol(bytes[0] >> 2),
            symbol(((bytes[0] & 0x03) << 4) | (bytes[1] >> 4)),
            symbol(((bytes[1] & 0x0f) << 2) | (bytes[2] >> 6)),
            symbol(bytes[2] & 0x3f),
        ] + encode(bytes.skip(3))
    }
}

/// The length of the encoding of `len` bytes.
pub open spec fn encoded_len(len: nat) -> nat {
    ((4 * len + 2) / 3) as nat
}

/// An encoding is four characters for each three bytes, rounded up.
pub proof fn lemma_encode_len(bytes: Seq<u8>)
    ensures
        encode(bytes).len() == encoded_len(bytes.len()),
    decreases bytes.len(),
{
    if bytes.len() >= 3 {
        lemma_encode_len(bytes.skip(3));
    }
}

/// Different six-bit values have different characters.
proof fn lemma_symbol_injective(x: u8, y: u8)
    requires
        x < 64,
        y < 64,
        symbol(x) == symbol(y),
    ensures
        x == y,
{
}

/// The six-bit values of one byte determine it.
proof fn lemma_one_byte(a: u8, b: u8)
    by (bit_vector)
    requires
        a >> 2 == b >> 2,
        (a & 0x03) << 4 == (b & 0x03) << 4,
    ensures
        a == b,
{
}

/// The six-bit values of two bytes determine them.
proof fn lemma_two_bytes(a0: u8, a1: u8, b0: u8, b1: u8)
    by (bit_vector)
    requires
        a0 >> 2 == b0 >> 2,
        ((a0 & 0x03) << 4) | (a1 >> 4) == ((b0 & 0x03) << 4) | (b1 >> 4),
        (a1 & 0x0f) << 2 == (b1 & 0x0f) << 2,
    ensures
        a0 == b0,
        a1 == b1,
{
}

/// The six-bit values of three bytes determine them.
proof fn lemma_three_bytes(a0: u8, a1: u8, a2: u8, b0: u8, b1: u8, b2: u8)
    by (bit_vector)
    requires
        a0 >> 2 == b0 >> 2,
        ((a0 & 0x03) << 4) | (a1 >> 4) == ((b0 & 0x03) << 4) | (b1 >> 4),
        ((a1 & 0x0f) << 2) | (a2 >> 6) == ((b1 & 0x0f) << 2) | (b2 >> 6),
        a2 & 0x3f == b2 & 0x3f,
    ensures
        a0 == b0,
        a1 == b1,
        a2 == b2,
{
}

/// Every value that the encoding looks up is a six-bit value.
proof fn lemma_six_bits(a0: u8, a1: u8, a2: u8)
    by (bit_vector)
    ensures
        a0 >> 2 < 64,
        (a0 & 0x03) << 4 < 64,
        ((a0 & 0x03) << 4) | (a1 >> 4) < 64,
        (a1 & 0x0f) << 2 < 64,
        ((a1 & 0x0f) << 2) | (a2 >> 6) < 64,
        a2 & 0x3f < 64,
{
}

/// The encoding loses nothing: bytes with the same encoding are the same.
pub proof fn encode_is_injective(first: Seq<u8>, second: Seq<u8>)
    requires
        encode(first) == encode(second),
    ensures
        first == second,
    decreases first.len(),
{
    lemma_encode_len(first);
    lemma_encode_len(second);
    assert(first.len() == second.len());
    let a = encode(first);
    let b = encode(second);
    if first.len() == 0 {
        assert(first =~= second);
    } else if first.len() == 1 {
        lemma_six_bits(first[0], 0, 0);
        lemma_six_bits(second[0], 0, 0);
        assert(a[0] == b[0] && a[1] == b[1]);
        lemma_symbol_injective(first[0] >> 2, second[0] >> 2);
        lemma_symbol_injective((first[0] & 0x03) << 4, (second[0] & 0x03) << 4);
        lemma_one_byte(first[0], second[0]);
        assert(first =~= second);
    } else if first.len() == 2 {
        lemma_six_bits(first[0], first[1], 0);
        lemma_six_bits(second[0], second[1], 0);
        assert(a[0] == b[0] && a[1] == b[1] && a[2] == b[2]);
        lemma_symbol_injective(first[0] >> 2, second[0] >> 2);
        lemma_symbol_injective(
            ((first[0] & 0x03) << 4) | (first[1] >> 4),
            ((second[0] & 0x03) << 4) | (second[1] >> 4),
        );
        lemma_symbol_injective((first[1] & 0x0f) << 2, (second[1] & 0x0f) << 2);
        lemma_two_bytes(first[0], first[1], second[0], second[1]);
        assert(first =~= second);
    } else {
        lemma_six_bits(first[0], first[1], first[2]);
        lemma_six_bits(second[0], second[1], second[2]);
        let rest_a = encode(first.skip(3));
        let rest_b = encode(second.skip(3));
        assert(a[0] == b[0] && a[1] == b[1] && a[2] == b[2] && a[3] == b[3]);
        lemma_symbol_injective(first[0] >> 2, second[0] >> 2);
        lemma_symbol_injective(
            ((first[0] & 0x03) << 4) | (first[1] >> 4),
            ((second[0] & 0x03) << 4) | (second[1] >> 4),
        );
        lemma_symbol_injective(
            ((first[1] & 0x0f) << 2) | (first[2] >> 6),
            ((second[1] & 0x0f) << 2) | (second[2] >> 6),
        );
        lemma_symbol_injective(first[2] & 0x3f, second[2] & 0x3f);
        lemma_three_bytes(first[0], first[1], first[2], second[0], second[1], second[2]);
        assert(rest_a =~= a.subrange(4, a.len() as int));
        assert(rest_b =~= b.subrange(4, b.len() as int));
        encode_is_injective(first.skip(3), second.skip(3));
        assert(first =~= seq![first[0], first[1], first[2]] + first.skip(3));
        assert(second =~= seq![second[0], second[1], second[2]] + second.skip(3));
    }
}

/// Encodes `bytes` with `Engine::encode` of the `base64` crate, on its
/// `URL_SAFE_NO_PAD` engine. The contract is the definition of the encoding in
/// RFC 4648, which the engine implements; nothing here checks it. The engine
/// panics when the encoded length does not fit in `usize`, so such inputs are
/// left out.
#[verifier::external_body]
pub(crate) fn encode_url_safe(bytes: &[u8]) -> (text: String)
    requires
        4 * (bytes@.len() / 3) + 3 <= usize::MAX,
    ensures
        text@ == encode(bytes@),
{
    URL_SAFE_NO_PAD.encode(bytes)
}

} // verus!
