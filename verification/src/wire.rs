//! Little-endian byte-level codec.
//!
//! Every fixed-width value on the wire is stored least-significant byte
//! first. The spec functions here define the byte layout as base-256
//! digits; the executable readers and writers are proved against them,
//! and the lemmas state that reading back what was written yields the
//! original value.

use vstd::prelude::*;

verus! {

// Composition of unsigned values from their little-endian bytes.

pub open spec fn u16_from_bytes(b0: u8, b1: u8) -> u16 {
    (b0 + 0x100 * b1) as u16
}

pub open spec fn u32_from_bytes(b0: u8, b1: u8, b2: u8, b3: u8) -> u32 {
    (b0 + 0x100 * b1 + 0x1_0000 * b2 + 0x100_0000 * b3) as u32
}

pub open spec fn u64_from_bytes(
    b0: u8,
    b1: u8,
    b2: u8,
    b3: u8,
    b4: u8,
    b5: u8,
    b6: u8,
    b7: u8,
) -> u64 {
    (b0 + 0x100 * b1 + 0x1_0000 * b2 + 0x100_0000 * b3 + 0x1_0000_0000 * b4 + 0x100_0000_0000 * b5
        + 0x1_0000_0000_0000 * b6 + 0x100_0000_0000_0000 * b7) as u64
}

// Reinterpretation of an unsigned value as the signed value with the
// same bit pattern (two's complement).

pub open spec fn as_signed_8(u: u8) -> i8 {
    if u < 0x80 {
        u as i8
    } else {
        (u - 0x100) as i8
    }
}

pub open spec fn as_signed_16(u: u16) -> i16 {
    if u < 0x8000 {
        u as i16
    } else {
        (u - 0x1_0000) as i16
    }
}

pub open spec fn as_signed_32(u: u32) -> i32 {
    if u < 0x8000_0000 {
        u as i32
    } else {
        (u - 0x1_0000_0000) as i32
    }
}

pub open spec fn as_signed_64(u: u64) -> i64 {
    if u < 0x8000_0000_0000_0000 {
        u as i64
    } else {
        (u - 0x1_0000_0000_0000_0000) as i64
    }
}

// The unsigned value with the same bit pattern as a signed value.

pub open spec fn as_unsigned_8(x: i8) -> u8 {
    if x >= 0 {
        x as u8
    } else {
        (x + 0x100) as u8
    }
}

pub open spec fn as_unsigned_16(x: i16) -> u16 {
    if x >= 0 {
        x as u16
    } else {
        (x + 0x1_0000) as u16
    }
}

pub open spec fn as_unsigned_32(x: i32) -> u32 {
    if x >= 0 {
        x as u32
    } else {
        (x + 0x1_0000_0000) as u32
    }
}

pub open spec fn as_unsigned_64(x: i64) -> u64 {
    if x >= 0 {
        x as u64
    } else {
        (x + 0x1_0000_0000_0000_0000) as u64
    }
}

// Decomposition of unsigned values into their little-endian bytes.

pub open spec fn le_bytes_2(x: u16) -> Seq<u8> {
    seq![(x % 0x100) as u8, (x / 0x100) as u8]
}

pub open spec fn le_bytes_4(x: u32) -> Seq<u8> {
    seq![
        (x % 0x100) as u8,
        ((x / 0x100) % 0x100) as u8,
        ((x / 0x1_0000) % 0x100) as u8,
        (x / 0x100_0000) as u8,
    ]
}

pub open spec fn le_bytes_8(x: u64) -> Seq<u8> {
    seq![
        (x % 0x100) as u8,
        ((x / 0x100) % 0x100) as u8,
        ((x / 0x1_0000) % 0x100) as u8,
        ((x / 0x100_0000) % 0x100) as u8,
        ((x / 0x1_0000_0000) % 0x100) as u8,
        ((x / 0x100_0000_0000) % 0x100) as u8,
        ((x / 0x1_0000_0000_0000) % 0x100) as u8,
        (x / 0x100_0000_0000_0000) as u8,
    ]
}

// Reading back the bytes of a value yields the value.

pub proof fn lemma_u16_le_round_trip(x: u16)
    ensures
        u16_from_bytes(le_bytes_2(x)[0], le_bytes_2(x)[1]) == x,
{
    assert((x % 0x100) + 0x100 * (x / 0x100) == x) by (bit_vector);
}

pub proof fn lemma_u32_le_round_trip(x: u32)
    ensures
        u32_from_bytes(le_bytes_4(x)[0], le_bytes_4(x)[1], le_bytes_4(x)[2], le_bytes_4(x)[3])
            == x,
{
    assert((x % 0x100) + 0x100 * ((x / 0x100) % 0x100) + 0x1_0000 * ((x / 0x1_0000) % 0x100)
        + 0x100_0000 * (x / 0x100_0000) == x) by (bit_vector);
}

pub proof fn lemma_u64_le_round_trip(x: u64)
    ensures
        u64_from_bytes(
            le_bytes_8(x)[0],
            le_bytes_8(x)[1],
            le_bytes_8(x)[2],
            le_bytes_8(x)[3],
            le_bytes_8(x)[4],
            le_bytes_8(x)[5],
            le_bytes_8(x)[6],
            le_bytes_8(x)[7],
        ) == x,
{
    assert((x % 0x100) + 0x100 * ((x / 0x100) % 0x100) + 0x1_0000 * ((x / 0x1_0000) % 0x100)
        + 0x100_0000 * ((x / 0x100_0000) % 0x100) + 0x1_0000_0000 * ((x / 0x1_0000_0000) % 0x100)
        + 0x100_0000_0000 * ((x / 0x100_0000_0000) % 0x100) + 0x1_0000_0000_0000 * ((x
        / 0x1_0000_0000_0000) % 0x100) + 0x100_0000_0000_0000 * (x / 0x100_0000_0000_0000) == x)
        by (bit_vector);
}

// Signed reinterpretation is inverse to the unsigned representation.

pub proof fn lemma_signed_8_round_trip(x: i8)
    ensures
        as_signed_8(as_unsigned_8(x)) == x,
{
}

pub proof fn lemma_signed_16_round_trip(x: i16)
    ensures
        as_signed_16(as_unsigned_16(x)) == x,
{
}

pub proof fn lemma_signed_32_round_trip(x: i32)
    ensures
        as_signed_32(as_unsigned_32(x)) == x,
{
}

pub proof fn lemma_signed_64_round_trip(x: i64)
    ensures
        as_signed_64(as_unsigned_64(x)) == x,
{
}

// Executable readers.

pub fn read_u16(b0: u8, b1: u8) -> (r: u16)
    ensures
        r == u16_from_bytes(b0, b1),
{
    b0 as u16 + 0x100 * (b1 as u16)
}

pub fn read_u32(b0: u8, b1: u8, b2: u8, b3: u8) -> (r: u32)
    ensures
        r == u32_from_bytes(b0, b1, b2, b3),
{
    b0 as u32 + 0x100 * (b1 as u32) + 0x1_0000 * (b2 as u32) + 0x100_0000 * (b3 as u32)
}

pub fn read_u64(b0: u8, b1: u8, b2: u8, b3: u8, b4: u8, b5: u8, b6: u8, b7: u8) -> (r: u64)
    ensures
        r == u64_from_bytes(b0, b1, b2, b3, b4, b5, b6, b7),
{
    b0 as u64 + 0x100 * (b1 as u64) + 0x1_0000 * (b2 as u64) + 0x100_0000 * (b3 as u64)
        + 0x1_0000_0000 * (b4 as u64) + 0x100_0000_0000 * (b5 as u64) + 0x1_0000_0000_0000 * (b6
        as u64) + 0x100_0000_0000_0000 * (b7 as u64)
}

pub fn signed_8(u: u8) -> (r: i8)
    ensures
        r == as_signed_8(u),
{
    if u < 0x80 {
        u as i8
    } else {
        ((u as i16) - 0x100) as i8
    }
}

pub fn signed_16(u: u16) -> (r: i16)
    ensures
        r == as_signed_16(u),
{
    if u < 0x8000 {
        u as i16
    } else {
        ((u as i32) - 0x1_0000) as i16
    }
}

pub fn signed_32(u: u32) -> (r: i32)
    ensures
        r == as_signed_32(u),
{
    if u < 0x8000_0000 {
        u as i32
    } else {
        ((u as i64) - 0x1_0000_0000) as i32
    }
}

pub fn signed_64(u: u64) -> (r: i64)
    ensures
        r == as_signed_64(u),
{
    if u < 0x8000_0000_0000_0000 {
        u as i64
    } else {
        ((u as i128) - 0x1_0000_0000_0000_0000) as i64
    }
}

pub fn unsigned_8(x: i8) -> (r: u8)
    ensures
        r == as_unsigned_8(x),
{
    if x >= 0 {
        x as u8
    } else {
        ((x as i16) + 0x100) as u8
    }
}

pub fn unsigned_16(x: i16) -> (r: u16)
    ensures
        r == as_unsigned_16(x),
{
    if x >= 0 {
        x as u16
    } else {
        ((x as i32) + 0x1_0000) as u16
    }
}

pub fn unsigned_32(x: i32) -> (r: u32)
    ensures
        r == as_unsigned_32(x),
{
    if x >= 0 {
        x as u32
    } else {
        ((x as i64) + 0x1_0000_0000) as u32
    }
}

pub fn unsigned_64(x: i64) -> (r: u64)
    ensures
        r == as_unsigned_64(x),
{
    if x >= 0 {
        x as u64
    } else {
        ((x as i128) + 0x1_0000_0000_0000_0000) as u64
    }
}

// Executable writers: each appends the little-endian bytes of a value.

pub fn push_le_2(out: &mut Vec<u8>, x: u16)
    ensures
        final(out)@ == old(out)@ + le_bytes_2(x),
{
    out.push((x % 0x100) as u8);
    out.push((x / 0x100) as u8);
    assert(out@ =~= old(out)@ + le_bytes_2(x));
}

pub fn push_le_4(out: &mut Vec<u8>, x: u32)
    ensures
        final(out)@ == old(out)@ + le_bytes_4(x),
{
    out.push((x % 0x100) as u8);
    out.push(((x / 0x100) % 0x100) as u8);
    out.push(((x / 0x1_0000) % 0x100) as u8);
    out.push((x / 0x100_0000) as u8);
    assert(out@ =~= old(out)@ + le_bytes_4(x));
}

pub fn push_le_8(out: &mut Vec<u8>, x: u64)
    ensures
        final(out)@ == old(out)@ + le_bytes_8(x),
{
    out.push((x % 0x100) as u8);
    out.push(((x / 0x100) % 0x100) as u8);
    out.push(((x / 0x1_0000) % 0x100) as u8);
    out.push(((x / 0x100_0000) % 0x100) as u8);
    out.push(((x / 0x1_0000_0000) % 0x100) as u8);
    out.push(((x / 0x100_0000_0000) % 0x100) as u8);
    out.push(((x / 0x1_0000_0000_0000) % 0x100) as u8);
    out.push((x / 0x100_0000_0000_0000) as u8);
    assert(out@ =~= old(out)@ + le_bytes_8(x));
}

} // verus!
