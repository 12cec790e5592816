//! Little-endian integers as byte sequences.
//!
//! Every multi-byte integer on the wire is little-endian, whatever the host.
//! The layouts are stated arithmetically, byte by byte, so that a contract
//! that mentions them can be evaluated by hand.
//!
//! A number's bytes are its digits in base 256. The digit function,
//! [`le_digit`], is opaque: it divides, and division is best kept out of
//! proofs that only pass bytes along. To compute with bytes, `reveal` it.

use vstd::prelude::*;

verus! {

/// The digit of `x` in base 256 at the place that counts `unit`s: the
/// remainder by 256 of `x / unit`.
#[verifier::opaque]
pub open spec fn le_digit(x: nat, unit: nat) -> u8 {
    (x / unit % 256) as u8
}

/// The two bytes of `x`, least significant first.
pub open spec fn le_bytes_u16(x: u16) -> Seq<u8> {
    seq![le_digit(x as nat, 1), le_digit(x as nat, 256)]
}

/// The number that two bytes spell, least significant first.
pub open spec fn le_value_u16(s: Seq<u8>) -> u16
    recommends
        s.len() == 2,
{
    (s[0] + 256 * s[1]) as u16
}

/// The four bytes of `x`, least significant first.
pub open spec fn le_bytes_u32(x: u32) -> Seq<u8> {
    seq![
        le_digit(x as nat, 1),
        le_digit(x as nat, 256),
        le_digit(x as nat, 65536),
        le_digit(x as nat, 16777216),
    ]
}

/// The number that four bytes spell, least significant first.
pub open spec fn le_value_u32(s: Seq<u8>) -> u32
    recommends
        s.len() == 4,
{
    (s[0] + 256 * s[1] + 65536 * s[2] + 16777216 * s[3]) as u32
}

/// The eight bytes of `x`, least significant first.
pub open spec fn le_bytes_u64(x: u64) -> Seq<u8> {
    seq![
        le_digit(x as nat, 1),
        le_digit(x as nat, 256),
        le_digit(x as nat, 65536),
        le_digit(x as nat, 16777216),
        le_digit(x as nat, 4294967296),
        le_digit(x as nat, 1099511627776),
        le_digit(x as nat, 281474976710656),
        le_digit(x as nat, 72057594037927936),
    ]
}

/// The number that eight bytes spell, least significant first.
pub open spec fn le_value_u64(s: Seq<u8>) -> u64
    recommends
        s.len() == 8,
{
    (s[0] + 256 * s[1] + 65536 * s[2] + 16777216 * s[3] + 4294967296 * s[4] + 1099511627776
        * s[5] + 281474976710656 * s[6] + 72057594037927936 * s[7]) as u64
}

/// Reading back the bytes of a `u16` gives the number.
pub proof fn lemma_le_u16_value_of_bytes(x: u16)
    ensures
        le_bytes_u16(x).len() == 2,
        le_value_u16(le_bytes_u16(x)) == x,
{
    reveal(le_digit);
    assert(x == (x % 256) + 256 * (x / 256)) by (bit_vector);
}

/// Reading back the bytes of a `u32` gives the number.
pub proof fn lemma_le_u32_value_of_bytes(x: u32)
    ensures
        le_bytes_u32(x).len() == 4,
        le_value_u32(le_bytes_u32(x)) == x,
{
    reveal(le_digit);
    assert(x == (x % 256) + 256 * (x / 256 % 256) + 65536 * (x / 65536 % 256) + 16777216 * (x
        / 16777216)) by (bit_vector);
}

/// Four bytes are the bytes of the number they spell.
pub proof fn lemma_le_u32_bytes_of_value(s: Seq<u8>)
    requires
        s.len() == 4,
    ensures
        le_bytes_u32(le_value_u32(s)) == s,
{
    reveal(le_digit);
    let (b0, b1, b2, b3) = (s[0], s[1], s[2], s[3]);
    let x = le_value_u32(s);
    assert(x % 256 == b0 && x / 256 % 256 == b1 && x / 65536 % 256 == b2 && x / 16777216 == b3)
        by (bit_vector)
        requires
            x == b0 + 256 * b1 + 65536 * b2 + 16777216 * b3,
    ;
    assert(le_bytes_u32(x) =~= s);
}

/// Reading back the bytes of a `u64` gives the number.
pub proof fn lemma_le_u64_value_of_bytes(x: u64)
    ensures
        le_bytes_u64(x).len() == 8,
        le_value_u64(le_bytes_u64(x)) == x,
{
    reveal(le_digit);
    assert(x == (x % 256) + 256 * (x / 256 % 256) + 65536 * (x / 65536 % 256) + 16777216 * (x
        / 16777216 % 256) + 4294967296 * (x / 4294967296 % 256) + 1099511627776 * (x
        / 1099511627776 % 256) + 281474976710656 * (x / 281474976710656 % 256)
        + 72057594037927936 * (x / 72057594037927936)) by (bit_vector);
}

/// Appends the two bytes of `x`.
pub fn put_u16_le(out: &mut Vec<u8>, x: u16)
    ensures
        final(out)@ == old(out)@ + le_bytes_u16(x),
{
    out.push((x % 256) as u8);
    out.push((x / 256) as u8);
    proof {
        reveal(le_digit);
    }
    assert(out@ =~= old(out)@ + le_bytes_u16(x));
}

/// Appends the four bytes of `x`.
pub fn put_u32_le(out: &mut Vec<u8>, x: u32)
    ensures
        final(out)@ == old(out)@ + le_bytes_u32(x),
{
    out.push((x % 256) as u8);
    out.push((x / 256 % 256) as u8);
    out.push((x / 65536 % 256) as u8);
    out.push((x / 16777216) as u8);
    proof {
        reveal(le_digit);
    }
    assert(out@ =~= old(out)@ + le_bytes_u32(x));
}

/// Appends the eight bytes of `x`.
pub fn put_u64_le(out: &mut Vec<u8>, x: u64)
    ensures
        final(out)@ == old(out)@ + le_bytes_u64(x),
{
    out.push((x % 256) as u8);
    out.push((x / 256 % 256) as u8);
    out.push((x / 65536 % 256) as u8);
    out.push((x / 16777216 % 256) as u8);
    out.push((x / 4294967296 % 256) as u8);
    out.push((x / 1099511627776 % 256) as u8);
    out.push((x / 281474976710656 % 256) as u8);
    out.push((x / 72057594037927936) as u8);
    proof {
        reveal(le_digit);
    }
    assert(out@ =~= old(out)@ + le_bytes_u64(x));
}

/// Reads the `u16` that starts at `at`.
pub fn get_u16_le(bytes: &[u8], at: usize) -> (x: u16)
    requires
        at + 2 <= bytes@.len(),
    ensures
        x == le_value_u16(bytes@.subrange(at as int, at + 2)),
{
    let b0: u16 = bytes[at] as u16;
    let b1: u16 = bytes[at + 1] as u16;
    b0 + 256 * b1
}

/// Reads the `u32` that starts at `at`.
pub fn get_u32_le(bytes: &[u8], at: usize) -> (x: u32)
    requires
        at + 4 <= bytes@.len(),
    ensures
        x == le_value_u32(bytes@.subrange(at as int, at + 4)),
{
    let b0: u32 = bytes[at] as u32;
    let b1: u32 = bytes[at + 1] as u32;
    let b2: u32 = bytes[at + 2] as u32;
    let b3: u32 = bytes[at + 3] as u32;
    b0 + 256 * b1 + 65536 * b2 + 16777216 * b3
}

/// Reads the `u64` that starts at `at`.
pub fn get_u64_le(bytes: &[u8], at: usize) -> (x: u64)
    requires
        at + 8 <= bytes@.len(),
    ensures
        x == le_value_u64(bytes@.subrange(at as int, at + 8)),
{
    let b0: u64 = bytes[at] as u64;
    let b1: u64 = bytes[at + 1] as u64;
    let b2: u64 = bytes[at + 2] as u64;
    let b3: u64 = bytes[at + 3] as u64;
    let b4: u64 = bytes[at + 4] as u64;
    let b5: u64 = bytes[at + 5] as u64;
    let b6: u64 = bytes[at + 6] as u64;
    let b7: u64 = bytes[at + 7] as u64;
    b0 + 256 * b1 + 65536 * b2 + 16777216 * b3 + 4294967296 * b4 + 1099511627776 * b5
        + 281474976710656 * b6 + 72057594037927936 * b7
}

} // verus!
