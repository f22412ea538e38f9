//! Numbers, byte strings and text on the wire.
//!
//! For every kind of value there is its byte form, the reading of a value off
//! the front of some bytes, which also gives the bytes that follow it, and the
//! proof that reading the byte form gives the value back.

use vstd::prelude::*;
use vstd::bytes::*;
use vstd::utf8::encode_utf8;
use crate::text::text_of;

verus! {

/// Joining three runs of bytes gives the same whichever two are joined first.
pub proof fn lemma_assoc(a: Seq<u8>, b: Seq<u8>, c: Seq<u8>)
    ensures
        (a + b) + c == a + (b + c),
{
    assert((a + b) + c =~= a + (b + c));
}

/// The byte form of a byte.
pub open spec fn ser_u8(x: u8) -> Seq<u8> {
    seq![x]
}

/// The byte at the front of `b`.
pub open spec fn parse_u8(b: Seq<u8>) -> Option<(u8, Seq<u8>)> {
    if b.len() >= 1 {
        Some((b[0], b.skip(1)))
    } else {
        None
    }
}

/// Reading the byte form of a byte gives it back, and the bytes that
/// followed it.
pub proof fn lemma_u8(x: u8, rest: Seq<u8>)
    ensures
        parse_u8(ser_u8(x) + rest) == Some((x, rest)),
{
    assert((ser_u8(x) + rest).skip(1) =~= rest);
}

/// The byte form of a 16-bit number.
pub open spec fn ser_u16(x: u16) -> Seq<u8> {
    spec_u16_to_le_bytes(x)
}

/// The 16-bit number at the front of `b`.
pub open spec fn parse_u16(b: Seq<u8>) -> Option<(u16, Seq<u8>)> {
    if b.len() >= 2 {
        Some((spec_u16_from_le_bytes(b.subrange(0, 2)), b.skip(2)))
    } else {
        None
    }
}

/// Reading the byte form of a 16-bit number gives it back, and the bytes that
/// followed it.
pub proof fn lemma_u16(x: u16, rest: Seq<u8>)
    ensures
        ser_u16(x).len() == 2,
        parse_u16(ser_u16(x) + rest) == Some((x, rest)),
{
    lemma_auto_spec_u16_to_from_le_bytes();
    assert((ser_u16(x) + rest).subrange(0, 2) =~= ser_u16(x));
    assert((ser_u16(x) + rest).skip(2) =~= rest);
}

/// The byte form of a 32-bit number.
pub open spec fn ser_u32(x: u32) -> Seq<u8> {
    spec_u32_to_le_bytes(x)
}

/// The 32-bit number at the front of `b`.
pub open spec fn parse_u32(b: Seq<u8>) -> Option<(u32, Seq<u8>)> {
    if b.len() >= 4 {
        Some((spec_u32_from_le_bytes(b.subrange(0, 4)), b.skip(4)))
    } else {
        None
    }
}

/// Reading the byte form of a 32-bit number gives it back, and the bytes that
/// followed it.
pub proof fn lemma_u32(x: u32, rest: Seq<u8>)
    ensures
        ser_u32(x).len() == 4,
        parse_u32(ser_u32(x) + rest) == Some((x, rest)),
{
    lemma_auto_spec_u32_to_from_le_bytes();
    assert((ser_u32(x) + rest).subrange(0, 4) =~= ser_u32(x));
    assert((ser_u32(x) + rest).skip(4) =~= rest);
}

/// The byte form of a 64-bit number.
pub open spec fn ser_u64(x: u64) -> Seq<u8> {
    spec_u64_to_le_bytes(x)
}

/// The 64-bit number at the front of `b`.
pub open spec fn parse_u64(b: Seq<u8>) -> Option<(u64, Seq<u8>)> {
    if b.len() >= 8 {
        Some((spec_u64_from_le_bytes(b.subrange(0, 8)), b.skip(8)))
    } else {
        None
    }
}

/// Reading the byte form of a 64-bit number gives it back, and the bytes that
/// followed it.
pub proof fn lemma_u64(x: u64, rest: Seq<u8>)
    ensures
        ser_u64(x).len() == 8,
        parse_u64(ser_u64(x) + rest) == Some((x, rest)),
{
    lemma_auto_spec_u64_to_from_le_bytes();
    assert((ser_u64(x) + rest).subrange(0, 8) =~= ser_u64(x));
    assert((ser_u64(x) + rest).skip(8) =~= rest);
}

/// The byte form of a signed 32-bit number: that of its two's complement.
pub open spec fn ser_i32(x: i32) -> Seq<u8> {
    ser_u32(x as u32)
}

/// The signed 32-bit number at the front of `b`.
pub open spec fn parse_i32(b: Seq<u8>) -> Option<(i32, Seq<u8>)> {
    match parse_u32(b) {
        Some((x, rest)) => Some((x as i32, rest)),
        None => None,
    }
}

/// Reading the byte form of a signed 32-bit number gives it back, and the bytes that
/// followed it.
pub proof fn lemma_i32(x: i32, rest: Seq<u8>)
    ensures
        ser_i32(x).len() == 4,
        parse_i32(ser_i32(x) + rest) == Some((x, rest)),
{
    lemma_u32(x as u32, rest);
    assert((x as u32) as i32 == x) by (bit_vector);
}

/// The byte form of a signed 64-bit number: that of its two's complement.
pub open spec fn ser_i64(x: i64) -> Seq<u8> {
    ser_u64(x as u64)
}

/// The signed 64-bit number at the front of `b`.
pub open spec fn parse_i64(b: Seq<u8>) -> Option<(i64, Seq<u8>)> {
    match parse_u64(b) {
        Some((x, rest)) => Some((x as i64, rest)),
        None => None,
    }
}

/// Reading the byte form of a signed 64-bit number gives it back, and the bytes that
/// followed it.
pub proof fn lemma_i64(x: i64, rest: Seq<u8>)
    ensures
        ser_i64(x).len() == 8,
        parse_i64(ser_i64(x) + rest) == Some((x, rest)),
{
    lemma_u64(x as u64, rest);
    assert((x as u64) as i64 == x) by (bit_vector);
}

/// The byte form of a byte string: its length, then its bytes.
pub open spec fn ser_bytes(data: Seq<u8>) -> Seq<u8> {
    ser_u64(data.len() as u64) + data
}

/// The byte string at the front of `b`.
pub open spec fn parse_bytes(b: Seq<u8>) -> Option<(Seq<u8>, Seq<u8>)> {
    match parse_u64(b) {
        Some((n, rest)) => if rest.len() >= n {
            Some((rest.subrange(0, n as int), rest.skip(n as int)))
        } else {
            None
        },
        None => None,
    }
}

/// Reading the byte form of a byte string gives it back, and the bytes that
/// followed it.
pub proof fn lemma_bytes(data: Seq<u8>, rest: Seq<u8>)
    requires
        data.len() <= u64::MAX,
    ensures
        parse_bytes(ser_bytes(data) + rest) == Some((data, rest)),
{
    let n = data.len() as u64;
    assert(ser_bytes(data) + rest =~= ser_u64(n) + (data + rest));
    lemma_u64(n, data + rest);
    assert((data + rest).subrange(0, n as int) =~= data);
    assert((data + rest).skip(n as int) =~= rest);
}

/// The byte form of text: its UTF-8 encoding as a byte string.
pub open spec fn ser_text(text: Seq<char>) -> Seq<u8> {
    ser_bytes(encode_utf8(text))
}

/// The text at the front of `b`.
pub open spec fn parse_text(b: Seq<u8>) -> Option<(Seq<char>, Seq<u8>)> {
    match parse_bytes(b) {
        Some((raw, rest)) => match text_of(raw) {
            Some(text) => Some((text, rest)),
            None => None,
        },
        None => None,
    }
}

/// Text whose encoding is short enough for its length to be written down.
pub open spec fn text_fits(text: Seq<char>) -> bool {
    encode_utf8(text).len() <= u64::MAX
}

/// Reading the byte form of a text gives it back, and the bytes that
/// followed it.
pub proof fn lemma_text(text: Seq<char>, rest: Seq<u8>)
    requires
        text_fits(text),
    ensures
        parse_text(ser_text(text) + rest) == Some((text, rest)),
{
    lemma_bytes(encode_utf8(text), rest);
    vstd::utf8::encode_utf8_valid_utf8(text);
    vstd::utf8::encode_utf8_decode_utf8(text);
}

} // verus!
