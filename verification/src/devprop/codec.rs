//! The typed property decode engine and its inverse.
//!
//! [`decode_property`] dispatches on a runtime type code and reinterprets
//! a raw byte buffer as the corresponding strongly-typed value. The
//! dispatch is a closed table: every recognized combination of scalar
//! type and array modifier has exactly one decoding, and anything else
//! falls through to the `Unsupported` variant carrying the raw code, so
//! that unknown property types never abort an enumeration.
//!
//! Before any reinterpretation the buffer length is validated: a scalar
//! buffer must have exactly the scalar's width, an array buffer must be
//! an exact multiple of the element width, and a string buffer must be
//! an even number of bytes ending in a terminator unit. Any violation is
//! a [`DecodeFault`], never a truncated or partially-filled value.
//!
//! [`encode_property`] writes a value back into the same wire format,
//! and the round-trip lemma states that decoding what was encoded
//! reproduces the value exactly.

use vstd::prelude::*;

use crate::devprop::DevProperty;
use crate::devprop::Guid;
use crate::devprop::GuidModel;
use crate::devprop::PropValue;
use crate::devprop::DEVPROP_TRUE;
use crate::devprop::DEVPROP_TYPE_BOOLEAN;
use crate::devprop::DEVPROP_TYPE_BYTE;
use crate::devprop::DEVPROP_TYPE_DOUBLE;
use crate::devprop::DEVPROP_TYPE_EMPTY;
use crate::devprop::DEVPROP_TYPE_FLOAT;
use crate::devprop::DEVPROP_TYPE_GUID;
use crate::devprop::DEVPROP_TYPE_INT16;
use crate::devprop::DEVPROP_TYPE_INT32;
use crate::devprop::DEVPROP_TYPE_INT64;
use crate::devprop::DEVPROP_TYPE_NULL;
use crate::devprop::DEVPROP_TYPE_SBYTE;
use crate::devprop::DEVPROP_TYPE_STRING;
use crate::devprop::DEVPROP_TYPE_UINT16;
use crate::devprop::DEVPROP_TYPE_UINT32;
use crate::devprop::DEVPROP_TYPE_UINT64;
use crate::devprop::DEVPROP_TYPEMOD_ARRAY;
use crate::devprop::spec_modifier_part;
use crate::devprop::spec_scalar_width;
use crate::devprop::spec_type_part;
use crate::devprop::modifier_part;
use crate::devprop::type_part;
use crate::wire::as_signed_16;
use crate::wire::as_signed_32;
use crate::wire::as_signed_64;
use crate::wire::as_signed_8;
use crate::wire::as_unsigned_16;
use crate::wire::as_unsigned_32;
use crate::wire::as_unsigned_64;
use crate::wire::as_unsigned_8;
use crate::wire::le_bytes_2;
use crate::wire::le_bytes_4;
use crate::wire::le_bytes_8;
use crate::wire::lemma_signed_16_round_trip;
use crate::wire::lemma_signed_32_round_trip;
use crate::wire::lemma_signed_64_round_trip;
use crate::wire::lemma_signed_8_round_trip;
use crate::wire::lemma_u16_le_round_trip;
use crate::wire::lemma_u32_le_round_trip;
use crate::wire::lemma_u64_le_round_trip;
use crate::wire::push_le_2;
use crate::wire::push_le_4;
use crate::wire::push_le_8;
use crate::wire::read_u16;
use crate::wire::read_u32;
use crate::wire::read_u64;
use crate::wire::signed_16;
use crate::wire::signed_32;
use crate::wire::signed_64;
use crate::wire::signed_8;
use crate::wire::u16_from_bytes;
use crate::wire::u32_from_bytes;
use crate::wire::u64_from_bytes;
use crate::wire::unsigned_16;
use crate::wire::unsigned_32;
use crate::wire::unsigned_64;
use crate::wire::unsigned_8;

verus! {

/// A violation found while reinterpreting a raw buffer. Each fault
/// means the buffer cannot be read as the type its tag claims, and the
/// decode must not proceed.
#[derive(Clone, Copy, Debug, PartialEq, Eq, Structural)]
pub enum DecodeFault {
    /// A scalar buffer whose length differs from the scalar's width.
    ScalarSize,
    /// An array buffer whose length is not a multiple of the element
    /// width.
    ArrayRemainder,
    /// A string buffer that does not end in a terminator unit.
    StringTermination,
}

// Spec-level element decoders: each reads a whole buffer as a sequence
// of fixed-width elements.

#[verifier::opaque]
pub open spec fn units_of_le(s: Seq<u8>) -> Seq<u16> {
    Seq::new((s.len() / 2) as nat, |i: int| u16_from_bytes(s[2 * i], s[2 * i + 1]))
}

#[verifier::opaque]
pub open spec fn u32s_of_le(s: Seq<u8>) -> Seq<u32> {
    Seq::new(
        (s.len() / 4) as nat,
        |i: int| u32_from_bytes(s[4 * i], s[4 * i + 1], s[4 * i + 2], s[4 * i + 3]),
    )
}

#[verifier::opaque]
pub open spec fn u64s_of_le(s: Seq<u8>) -> Seq<u64> {
    Seq::new(
        (s.len() / 8) as nat,
        |i: int|
            u64_from_bytes(
                s[8 * i],
                s[8 * i + 1],
                s[8 * i + 2],
                s[8 * i + 3],
                s[8 * i + 4],
                s[8 * i + 5],
                s[8 * i + 6],
                s[8 * i + 7],
            ),
    )
}

#[verifier::opaque]
pub open spec fn i8s_of(s: Seq<u8>) -> Seq<i8> {
    Seq::new(s.len(), |i: int| as_signed_8(s[i]))
}

#[verifier::opaque]
pub open spec fn i16s_of_le(s: Seq<u8>) -> Seq<i16> {
    Seq::new((s.len() / 2) as nat, |i: int| as_signed_16(u16_from_bytes(s[2 * i], s[2 * i + 1])))
}

#[verifier::opaque]
pub open spec fn i32s_of_le(s: Seq<u8>) -> Seq<i32> {
    Seq::new(
        (s.len() / 4) as nat,
        |i: int| as_signed_32(u32_from_bytes(s[4 * i], s[4 * i + 1], s[4 * i + 2], s[4 * i + 3])),
    )
}

#[verifier::opaque]
pub open spec fn i64s_of_le(s: Seq<u8>) -> Seq<i64> {
    Seq::new(
        (s.len() / 8) as nat,
        |i: int|
            as_signed_64(
                u64_from_bytes(
                    s[8 * i],
                    s[8 * i + 1],
                    s[8 * i + 2],
                    s[8 * i + 3],
                    s[8 * i + 4],
                    s[8 * i + 5],
                    s[8 * i + 6],
                    s[8 * i + 7],
                ),
            ),
    )
}

/// A wire boolean is one byte; any non-zero byte reads as true.
#[verifier::opaque]
pub open spec fn bools_of(s: Seq<u8>) -> Seq<bool> {
    Seq::new(s.len(), |i: int| s[i] != 0)
}

/// A 128-bit identifier on the wire: a 32-bit field, two 16-bit fields,
/// each least-significant byte first, then eight bytes in order.
pub open spec fn guid_from_bytes(s: Seq<u8>) -> GuidModel
    recommends
        s.len() == 16,
{
    GuidModel {
        data1: u32_from_bytes(s[0], s[1], s[2], s[3]),
        data2: u16_from_bytes(s[4], s[5]),
        data3: u16_from_bytes(s[6], s[7]),
        data4: s.subrange(8, 16),
    }
}

#[verifier::opaque]
pub open spec fn guids_of_le(s: Seq<u8>) -> Seq<GuidModel> {
    Seq::new((s.len() / 16) as nat, |i: int| guid_from_bytes(s.subrange(16 * i, 16 * i + 16)))
}

// The decode table, in spec form.

/// What decoding a terminated UTF-16 payload yields: the code units
/// with the trailing terminator stripped, or a fault if the payload is
/// odd-sized or lacks its terminator.
pub open spec fn spec_utf16_units(raw: Seq<u8>) -> Result<Seq<u16>, DecodeFault> {
    if raw.len() % 2 != 0 {
        Err(DecodeFault::ArrayRemainder)
    } else {
        let units = units_of_le(raw);
        if units.len() == 0 || units[units.len() - 1] != 0 {
            Err(DecodeFault::StringTermination)
        } else {
            Ok(units.drop_last())
        }
    }
}

/// The string row of the decode table, over [`spec_utf16_units`].
pub open spec fn spec_decode_string(raw: Seq<u8>) -> Result<PropValue, DecodeFault> {
    match spec_utf16_units(raw) {
        Ok(units) => Ok(PropValue::Utf16(units)),
        Err(e) => Err(e),
    }
}

/// What decoding a fixed-width scalar buffer of exactly the right
/// length yields.
pub open spec fn spec_decode_fixed(t: u32, raw: Seq<u8>) -> PropValue
    recommends
        spec_scalar_width(t) > 0,
        raw.len() == spec_scalar_width(t),
{
    if t == DEVPROP_TYPE_SBYTE {
        PropValue::I8(as_signed_8(raw[0]))
    } else if t == DEVPROP_TYPE_BYTE {
        PropValue::U8(raw[0])
    } else if t == DEVPROP_TYPE_BOOLEAN {
        PropValue::Bool(raw[0] != 0)
    } else if t == DEVPROP_TYPE_INT16 {
        PropValue::I16(as_signed_16(u16_from_bytes(raw[0], raw[1])))
    } else if t == DEVPROP_TYPE_UINT16 {
        PropValue::U16(u16_from_bytes(raw[0], raw[1]))
    } else if t == DEVPROP_TYPE_INT32 {
        PropValue::I32(as_signed_32(u32_from_bytes(raw[0], raw[1], raw[2], raw[3])))
    } else if t == DEVPROP_TYPE_UINT32 {
        PropValue::U32(u32_from_bytes(raw[0], raw[1], raw[2], raw[3]))
    } else if t == DEVPROP_TYPE_FLOAT {
        PropValue::F32Bits(u32_from_bytes(raw[0], raw[1], raw[2], raw[3]))
    } else if t == DEVPROP_TYPE_INT64 {
        PropValue::I64(
            as_signed_64(
                u64_from_bytes(raw[0], raw[1], raw[2], raw[3], raw[4], raw[5], raw[6], raw[7]),
            ),
        )
    } else if t == DEVPROP_TYPE_UINT64 {
        PropValue::U64(u64_from_bytes(raw[0], raw[1], raw[2], raw[3], raw[4], raw[5], raw[6], raw[7]))
    } else if t == DEVPROP_TYPE_DOUBLE {
        PropValue::F64Bits(
            u64_from_bytes(raw[0], raw[1], raw[2], raw[3], raw[4], raw[5], raw[6], raw[7]),
        )
    } else {
        PropValue::Guid(guid_from_bytes(raw))
    }
}

/// The scalar row of the decode table: empty and null carry no bytes,
/// strings are terminator-checked, fixed-width scalars are length-checked,
/// and every other scalar code is unsupported.
pub open spec fn spec_decode_scalar(ty: u32, t: u32, raw: Seq<u8>) -> Result<
    PropValue,
    DecodeFault,
> {
    if t == DEVPROP_TYPE_EMPTY {
        Ok(PropValue::Empty)
    } else if t == DEVPROP_TYPE_NULL {
        Ok(PropValue::Null)
    } else if t == DEVPROP_TYPE_STRING {
        spec_decode_string(raw)
    } else if spec_scalar_width(t) > 0 {
        if raw.len() == spec_scalar_width(t) {
            Ok(spec_decode_fixed(t, raw))
        } else {
            Err(DecodeFault::ScalarSize)
        }
    } else {
        Ok(PropValue::Unsupported(ty))
    }
}

/// The array row of the decode table: the buffer is reinterpreted as a
/// sequence of fixed-width elements, and a byte length that is not an
/// exact multiple of the element width is a fault. An array of bytes is
/// the binary type and passes through unchanged.
pub open spec fn spec_decode_array(ty: u32, t: u32, raw: Seq<u8>) -> Result<
    PropValue,
    DecodeFault,
> {
    if t == DEVPROP_TYPE_SBYTE {
        Ok(PropValue::I8Array(i8s_of(raw)))
    } else if t == DEVPROP_TYPE_BYTE {
        Ok(PropValue::Binary(raw))
    } else if t == DEVPROP_TYPE_BOOLEAN {
        Ok(PropValue::BoolArray(bools_of(raw)))
    } else if spec_scalar_width(t) > 0 {
        if raw.len() % spec_scalar_width(t) != 0 {
            Err(DecodeFault::ArrayRemainder)
        } else if t == DEVPROP_TYPE_INT16 {
            Ok(PropValue::I16Array(i16s_of_le(raw)))
        } else if t == DEVPROP_TYPE_UINT16 {
            Ok(PropValue::U16Array(units_of_le(raw)))
        } else if t == DEVPROP_TYPE_INT32 {
            Ok(PropValue::I32Array(i32s_of_le(raw)))
        } else if t == DEVPROP_TYPE_UINT32 {
            Ok(PropValue::U32Array(u32s_of_le(raw)))
        } else if t == DEVPROP_TYPE_FLOAT {
            Ok(PropValue::F32BitsArray(u32s_of_le(raw)))
        } else if t == DEVPROP_TYPE_INT64 {
            Ok(PropValue::I64Array(i64s_of_le(raw)))
        } else if t == DEVPROP_TYPE_UINT64 {
            Ok(PropValue::U64Array(u64s_of_le(raw)))
        } else if t == DEVPROP_TYPE_DOUBLE {
            Ok(PropValue::F64BitsArray(u64s_of_le(raw)))
        } else {
            Ok(PropValue::GuidArray(guids_of_le(raw)))
        }
    } else {
        Ok(PropValue::Unsupported(ty))
    }
}

/// The whole decode table: dispatch on the modifier part, then the
/// scalar part, of the type code. Modifiers other than "none" and
/// "array" are unsupported.
pub open spec fn spec_decode(ty: u32, raw: Seq<u8>) -> Result<PropValue, DecodeFault> {
    let t = spec_type_part(ty);
    let m = spec_modifier_part(ty);
    if m == 0 {
        spec_decode_scalar(ty, t, raw)
    } else if m == 1 {
        spec_decode_array(ty, t, raw)
    } else {
        Ok(PropValue::Unsupported(ty))
    }
}

/// The view of an executable decode result, for stating that it equals
/// the spec-level decode.
pub open spec fn view_decoded(r: Result<DevProperty, DecodeFault>) -> Result<
    PropValue,
    DecodeFault,
> {
    match r {
        Ok(v) => Ok(v@),
        Err(e) => Err(e),
    }
}

// Executable element decoders, each proved against its spec form.

fn decode_u16s(raw: &Vec<u8>) -> (out: Vec<u16>)
    requires
        raw@.len() % 2 == 0,
    ensures
        out@ == units_of_le(raw@),
{
    let n = raw.len() / 2;
    let mut out: Vec<u16> = Vec::new();
    let mut i: usize = 0;
    while i < n
        invariant
            raw@.len() % 2 == 0,
            raw@.len() <= usize::MAX,
            n == raw@.len() / 2,
            i <= n,
            out@.len() == i,
            forall|j: int| 0 <= j < i ==> out@[j] == units_of_le(raw@)[j],
        decreases n - i,
    {
        proof {
            reveal(units_of_le);
        }
        let x = read_u16(raw[2 * i], raw[2 * i + 1]);
        out.push(x);
        i = i + 1;
    }
    assert(out@ =~= units_of_le(raw@)) by {
        reveal(units_of_le);
    }
    out
}

fn decode_u32s(raw: &Vec<u8>) -> (out: Vec<u32>)
    requires
        raw@.len() % 4 == 0,
    ensures
        out@ == u32s_of_le(raw@),
{
    let n = raw.len() / 4;
    let mut out: Vec<u32> = Vec::new();
    let mut i: usize = 0;
    while i < n
        invariant
            raw@.len() % 4 == 0,
            raw@.len() <= usize::MAX,
            n == raw@.len() / 4,
            i <= n,
            out@.len() == i,
            forall|j: int| 0 <= j < i ==> out@[j] == u32s_of_le(raw@)[j],
        decreases n - i,
    {
        proof {
            reveal(u32s_of_le);
        }
        let x = read_u32(raw[4 * i], raw[4 * i + 1], raw[4 * i + 2], raw[4 * i + 3]);
        out.push(x);
        i = i + 1;
    }
    assert(out@ =~= u32s_of_le(raw@)) by {
        reveal(u32s_of_le);
    }
    out
}

fn decode_u64s(raw: &Vec<u8>) -> (out: Vec<u64>)
    requires
        raw@.len() % 8 == 0,
    ensures
        out@ == u64s_of_le(raw@),
{
    let n = raw.len() / 8;
    let mut out: Vec<u64> = Vec::new();
    let mut i: usize = 0;
    while i < n
        invariant
            raw@.len() % 8 == 0,
            raw@.len() <= usize::MAX,
            n == raw@.len() / 8,
            i <= n,
            out@.len() == i,
            forall|j: int| 0 <= j < i ==> out@[j] == u64s_of_le(raw@)[j],
        decreases n - i,
    {
        proof {
            reveal(u64s_of_le);
        }
        let x = read_u64(
            raw[8 * i],
            raw[8 * i + 1],
            raw[8 * i + 2],
            raw[8 * i + 3],
            raw[8 * i + 4],
            raw[8 * i + 5],
            raw[8 * i + 6],
            raw[8 * i + 7],
        );
        out.push(x);
        i = i + 1;
    }
    assert(out@ =~= u64s_of_le(raw@)) by {
        reveal(u64s_of_le);
    }
    out
}

fn decode_i8s(raw: &Vec<u8>) -> (out: Vec<i8>)
    ensures
        out@ == i8s_of(raw@),
{
    let mut out: Vec<i8> = Vec::new();
    let mut i: usize = 0;
    while i < raw.len()
        invariant
            i <= raw@.len(),
            out@.len() == i,
            forall|j: int| 0 <= j < i ==> out@[j] == i8s_of(raw@)[j],
        decreases raw@.len() - i,
    {
        proof {
            reveal(i8s_of);
        }
        out.push(signed_8(raw[i]));
        i = i + 1;
    }
    assert(out@ =~= i8s_of(raw@)) by {
        reveal(i8s_of);
    }
    out
}

fn decode_i16s(raw: &Vec<u8>) -> (out: Vec<i16>)
    requires
        raw@.len() % 2 == 0,
    ensures
        out@ == i16s_of_le(raw@),
{
    let n = raw.len() / 2;
    let mut out: Vec<i16> = Vec::new();
    let mut i: usize = 0;
    while i < n
        invariant
            raw@.len() % 2 == 0,
            raw@.len() <= usize::MAX,
            n == raw@.len() / 2,
            i <= n,
            out@.len() == i,
            forall|j: int| 0 <= j < i ==> out@[j] == i16s_of_le(raw@)[j],
        decreases n - i,
    {
        proof {
            reveal(i16s_of_le);
        }
        let x = signed_16(read_u16(raw[2 * i], raw[2 * i + 1]));
        out.push(x);
        i = i + 1;
    }
    assert(out@ =~= i16s_of_le(raw@)) by {
        reveal(i16s_of_le);
    }
    out
}

fn decode_i32s(raw: &Vec<u8>) -> (out: Vec<i32>)
    requires
        raw@.len() % 4 == 0,
    ensures
        out@ == i32s_of_le(raw@),
{
    let n = raw.len() / 4;
    let mut out: Vec<i32> = Vec::new();
    let mut i: usize = 0;
    while i < n
        invariant
            raw@.len() % 4 == 0,
            raw@.len() <= usize::MAX,
            n == raw@.len() / 4,
            i <= n,
            out@.len() == i,
            forall|j: int| 0 <= j < i ==> out@[j] == i32s_of_le(raw@)[j],
        decreases n - i,
    {
        proof {
            reveal(i32s_of_le);
        }
        let x = signed_32(read_u32(raw[4 * i], raw[4 * i + 1], raw[4 * i + 2], raw[4 * i + 3]));
        out.push(x);
        i = i + 1;
    }
    assert(out@ =~= i32s_of_le(raw@)) by {
        reveal(i32s_of_le);
    }
    out
}

fn decode_i64s(raw: &Vec<u8>) -> (out: Vec<i64>)
    requires
        raw@.len() % 8 == 0,
    ensures
        out@ == i64s_of_le(raw@),
{
    let n = raw.len() / 8;
    let mut out: Vec<i64> = Vec::new();
    let mut i: usize = 0;
    while i < n
        invariant
            raw@.len() % 8 == 0,
            raw@.len() <= usize::MAX,
            n == raw@.len() / 8,
            i <= n,
            out@.len() == i,
            forall|j: int| 0 <= j < i ==> out@[j] == i64s_of_le(raw@)[j],
        decreases n - i,
    {
        proof {
            reveal(i64s_of_le);
        }
        let x = signed_64(
            read_u64(
                raw[8 * i],
                raw[8 * i + 1],
                raw[8 * i + 2],
                raw[8 * i + 3],
                raw[8 * i + 4],
                raw[8 * i + 5],
                raw[8 * i + 6],
                raw[8 * i + 7],
            ),
        );
        out.push(x);
        i = i + 1;
    }
    assert(out@ =~= i64s_of_le(raw@)) by {
        reveal(i64s_of_le);
    }
    out
}

fn decode_bools(raw: &Vec<u8>) -> (out: Vec<bool>)
    ensures
        out@ == bools_of(raw@),
{
    let mut out: Vec<bool> = Vec::new();
    let mut i: usize = 0;
    while i < raw.len()
        invariant
            i <= raw@.len(),
            out@.len() == i,
            forall|j: int| 0 <= j < i ==> out@[j] == bools_of(raw@)[j],
        decreases raw@.len() - i,
    {
        proof {
            reveal(bools_of);
        }
        out.push(raw[i] != 0);
        i = i + 1;
    }
    assert(out@ =~= bools_of(raw@)) by {
        reveal(bools_of);
    }
    out
}

pub(crate) fn read_guid(raw: &Vec<u8>, off: usize) -> (g: Guid)
    requires
        off + 16 <= raw@.len(),
        raw@.len() <= usize::MAX,
    ensures
        g@ == guid_from_bytes(raw@.subrange(off as int, off as int + 16)),
{
    let data1 = read_u32(raw[off], raw[off + 1], raw[off + 2], raw[off + 3]);
    let data2 = read_u16(raw[off + 4], raw[off + 5]);
    let data3 = read_u16(raw[off + 6], raw[off + 7]);
    let data4: [u8; 8] = [
        raw[off + 8],
        raw[off + 9],
        raw[off + 10],
        raw[off + 11],
        raw[off + 12],
        raw[off + 13],
        raw[off + 14],
        raw[off + 15],
    ];
    let g = Guid { data1, data2, data3, data4 };
    proof {
        let sub = raw@.subrange(off as int, off as int + 16);
        assert(g@.data4 =~= sub.subrange(8, 16));
        assert(g@ =~= guid_from_bytes(sub));
    }
    g
}

fn decode_guids(raw: &Vec<u8>) -> (out: Vec<Guid>)
    requires
        raw@.len() % 16 == 0,
    ensures
        out@.map_values(|g: Guid| g@) == guids_of_le(raw@),
{
    let n = raw.len() / 16;
    let mut out: Vec<Guid> = Vec::new();
    let mut i: usize = 0;
    while i < n
        invariant
            raw@.len() % 16 == 0,
            raw@.len() <= usize::MAX,
            n == raw@.len() / 16,
            i <= n,
            out@.len() == i,
            forall|j: int|
                0 <= j < i ==> out@.map_values(|g: Guid| g@)[j] == guids_of_le(raw@)[j],
        decreases n - i,
    {
        proof {
            reveal(guids_of_le);
        }
        let g = read_guid(raw, 16 * i);
        out.push(g);
        i = i + 1;
    }
    assert(out@.map_values(|g: Guid| g@) =~= guids_of_le(raw@)) by {
        reveal(guids_of_le);
    }
    out
}

/// Decodes a terminated UTF-16 payload into its code units: units are
/// read least-significant byte first, and the trailing terminator unit
/// is stripped from the result.
pub fn decode_utf16_units(raw: &Vec<u8>) -> (r: Result<Vec<u16>, DecodeFault>)
    ensures
        match r {
            Ok(units) => spec_utf16_units(raw@) == Ok::<Seq<u16>, DecodeFault>(units@),
            Err(e) => spec_utf16_units(raw@) == Err::<Seq<u16>, DecodeFault>(e),
        },
{
    if raw.len() % 2 != 0 {
        return Err(DecodeFault::ArrayRemainder);
    }
    let mut units = decode_u16s(raw);
    if units.len() == 0 {
        return Err(DecodeFault::StringTermination);
    }
    let last = units[units.len() - 1];
    if last != 0 {
        return Err(DecodeFault::StringTermination);
    }
    units.pop();
    Ok(units)
}

/// Decodes a string payload into its value-model form.
fn decode_string_payload(raw: Vec<u8>) -> (r: Result<DevProperty, DecodeFault>)
    ensures
        view_decoded(r) == spec_decode_string(raw@),
{
    match decode_utf16_units(&raw) {
        Ok(units) => Ok(DevProperty::Utf16(units)),
        Err(e) => Err(e),
    }
}

/// Decodes a raw property buffer according to its runtime type code.
///
/// The result is exactly [`spec_decode`] of the type code and the bytes:
/// every recognized tag yields its strongly-typed value, every size
/// violation yields the matching [`DecodeFault`], and every unrecognized
/// tag yields `Unsupported` carrying the raw code.
pub fn decode_property(ty: u32, raw: Vec<u8>) -> (r: Result<DevProperty, DecodeFault>)
    ensures
        view_decoded(r) == spec_decode(ty, raw@),
{
    let t = type_part(ty);
    let m = modifier_part(ty);
    if m == 0 {
        if t == DEVPROP_TYPE_EMPTY {
            Ok(DevProperty::Empty)
        } else if t == DEVPROP_TYPE_NULL {
            Ok(DevProperty::Null)
        } else if t == DEVPROP_TYPE_STRING {
            decode_string_payload(raw)
        } else if t == DEVPROP_TYPE_SBYTE {
            if raw.len() == 1 {
                Ok(DevProperty::I8(signed_8(raw[0])))
            } else {
                Err(DecodeFault::ScalarSize)
            }
        } else if t == DEVPROP_TYPE_BYTE {
            if raw.len() == 1 {
                Ok(DevProperty::U8(raw[0]))
            } else {
                Err(DecodeFault::ScalarSize)
            }
        } else if t == DEVPROP_TYPE_BOOLEAN {
            if raw.len() == 1 {
                Ok(DevProperty::Bool(raw[0] != 0))
            } else {
                Err(DecodeFault::ScalarSize)
            }
        } else if t == DEVPROP_TYPE_INT16 {
            if raw.len() == 2 {
                Ok(DevProperty::I16(signed_16(read_u16(raw[0], raw[1]))))
            } else {
                Err(DecodeFault::ScalarSize)
            }
        } else if t == DEVPROP_TYPE_UINT16 {
            if raw.len() == 2 {
                Ok(DevProperty::U16(read_u16(raw[0], raw[1])))
            } else {
                Err(DecodeFault::ScalarSize)
            }
        } else if t == DEVPROP_TYPE_INT32 {
            if raw.len() == 4 {
                Ok(DevProperty::I32(signed_32(read_u32(raw[0], raw[1], raw[2], raw[3]))))
            } else {
                Err(DecodeFault::ScalarSize)
            }
        } else if t == DEVPROP_TYPE_UINT32 {
            if raw.len() == 4 {
                Ok(DevProperty::U32(read_u32(raw[0], raw[1], raw[2], raw[3])))
            } else {
                Err(DecodeFault::ScalarSize)
            }
        } else if t == DEVPROP_TYPE_FLOAT {
            if raw.len() == 4 {
                Ok(DevProperty::F32Bits(read_u32(raw[0], raw[1], raw[2], raw[3])))
            } else {
                Err(DecodeFault::ScalarSize)
            }
        } else if t == DEVPROP_TYPE_INT64 {
            if raw.len() == 8 {
                Ok(
                    DevProperty::I64(
                        signed_64(
                            read_u64(
                                raw[0],
                                raw[1],
                                raw[2],
                                raw[3],
                                raw[4],
                                raw[5],
                                raw[6],
                                raw[7],
                            ),
                        ),
                    ),
                )
            } else {
                Err(DecodeFault::ScalarSize)
            }
        } else if t == DEVPROP_TYPE_UINT64 {
            if raw.len() == 8 {
                Ok(
                    DevProperty::U64(
                        read_u64(raw[0], raw[1], raw[2], raw[3], raw[4], raw[5], raw[6], raw[7]),
                    ),
                )
            } else {
                Err(DecodeFault::ScalarSize)
            }
        } else if t == DEVPROP_TYPE_DOUBLE {
            if raw.len() == 8 {
                Ok(
                    DevProperty::F64Bits(
                        read_u64(raw[0], raw[1], raw[2], raw[3], raw[4], raw[5], raw[6], raw[7]),
                    ),
                )
            } else {
                Err(DecodeFault::ScalarSize)
            }
        } else if t == DEVPROP_TYPE_GUID {
            if raw.len() == 16 {
                let g = read_guid(&raw, 0);
                proof {
                    assert(raw@.subrange(0, 16) =~= raw@);
                }
                Ok(DevProperty::Guid(g))
            } else {
                Err(DecodeFault::ScalarSize)
            }
        } else {
            Ok(DevProperty::Unsupported(ty))
        }
    } else if m == 1 {
        if t == DEVPROP_TYPE_SBYTE {
            Ok(DevProperty::I8Array(decode_i8s(&raw)))
        } else if t == DEVPROP_TYPE_BYTE {
            Ok(DevProperty::Binary(raw))
        } else if t == DEVPROP_TYPE_BOOLEAN {
            Ok(DevProperty::BoolArray(decode_bools(&raw)))
        } else if t == DEVPROP_TYPE_INT16 {
            if raw.len() % 2 == 0 {
                Ok(DevProperty::I16Array(decode_i16s(&raw)))
            } else {
                Err(DecodeFault::ArrayRemainder)
            }
        } else if t == DEVPROP_TYPE_UINT16 {
            if raw.len() % 2 == 0 {
                Ok(DevProperty::U16Array(decode_u16s(&raw)))
            } else {
                Err(DecodeFault::ArrayRemainder)
            }
        } else if t == DEVPROP_TYPE_INT32 {
            if raw.len() % 4 == 0 {
                Ok(DevProperty::I32Array(decode_i32s(&raw)))
            } else {
                Err(DecodeFault::ArrayRemainder)
            }
        } else if t == DEVPROP_TYPE_UINT32 {
            if raw.len() % 4 == 0 {
                Ok(DevProperty::U32Array(decode_u32s(&raw)))
            } else {
                Err(DecodeFault::ArrayRemainder)
            }
        } else if t == DEVPROP_TYPE_FLOAT {
            if raw.len() % 4 == 0 {
                Ok(DevProperty::F32BitsArray(decode_u32s(&raw)))
            } else {
                Err(DecodeFault::ArrayRemainder)
            }
        } else if t == DEVPROP_TYPE_INT64 {
            if raw.len() % 8 == 0 {
                Ok(DevProperty::I64Array(decode_i64s(&raw)))
            } else {
                Err(DecodeFault::ArrayRemainder)
            }
        } else if t == DEVPROP_TYPE_UINT64 {
            if raw.len() % 8 == 0 {
                Ok(DevProperty::U64Array(decode_u64s(&raw)))
            } else {
                Err(DecodeFault::ArrayRemainder)
            }
        } else if t == DEVPROP_TYPE_DOUBLE {
            if raw.len() % 8 == 0 {
                Ok(DevProperty::F64BitsArray(decode_u64s(&raw)))
            } else {
                Err(DecodeFault::ArrayRemainder)
            }
        } else if t == DEVPROP_TYPE_GUID {
            if raw.len() % 16 == 0 {
                Ok(DevProperty::GuidArray(decode_guids(&raw)))
            } else {
                Err(DecodeFault::ArrayRemainder)
            }
        } else {
            Ok(DevProperty::Unsupported(ty))
        }
    } else {
        Ok(DevProperty::Unsupported(ty))
    }
}

// Spec-level element encoders: the inverse byte layouts. Each byte of
// the output is a digit of one element, so the definitions are indexed
// rather than recursive.

#[verifier::opaque]
pub open spec fn u16s_to_bytes(s: Seq<u16>) -> Seq<u8> {
    Seq::new(2 * s.len(), |i: int| le_bytes_2(s[i / 2])[i % 2])
}

#[verifier::opaque]
pub open spec fn u32s_to_bytes(s: Seq<u32>) -> Seq<u8> {
    Seq::new(4 * s.len(), |i: int| le_bytes_4(s[i / 4])[i % 4])
}

#[verifier::opaque]
pub open spec fn u64s_to_bytes(s: Seq<u64>) -> Seq<u8> {
    Seq::new(8 * s.len(), |i: int| le_bytes_8(s[i / 8])[i % 8])
}

#[verifier::opaque]
pub open spec fn i8s_to_bytes(s: Seq<i8>) -> Seq<u8> {
    Seq::new(s.len(), |i: int| as_unsigned_8(s[i]))
}

#[verifier::opaque]
pub open spec fn i16s_to_bytes(s: Seq<i16>) -> Seq<u8> {
    Seq::new(2 * s.len(), |i: int| le_bytes_2(as_unsigned_16(s[i / 2]))[i % 2])
}

#[verifier::opaque]
pub open spec fn i32s_to_bytes(s: Seq<i32>) -> Seq<u8> {
    Seq::new(4 * s.len(), |i: int| le_bytes_4(as_unsigned_32(s[i / 4]))[i % 4])
}

#[verifier::opaque]
pub open spec fn i64s_to_bytes(s: Seq<i64>) -> Seq<u8> {
    Seq::new(8 * s.len(), |i: int| le_bytes_8(as_unsigned_64(s[i / 8]))[i % 8])
}

#[verifier::opaque]
pub open spec fn bools_to_bytes(s: Seq<bool>) -> Seq<u8> {
    Seq::new(
        s.len(),
        |i: int|
            if s[i] {
                DEVPROP_TRUE
            } else {
                0u8
            },
    )
}

pub open spec fn guid_to_bytes(g: GuidModel) -> Seq<u8> {
    le_bytes_4(g.data1) + le_bytes_2(g.data2) + le_bytes_2(g.data3) + g.data4
}

#[verifier::opaque]
pub open spec fn guids_to_bytes(s: Seq<GuidModel>) -> Seq<u8> {
    Seq::new(16 * s.len(), |i: int| guid_to_bytes(s[i / 16])[i % 16])
}

/// The values that have a wire form: everything except the fallback
/// that only records an unrecognized tag.
pub open spec fn spec_encodable(v: PropValue) -> bool {
    match v {
        PropValue::Unsupported(_) => false,
        PropValue::Guid(g) => g.wf(),
        PropValue::GuidArray(gs) => forall|i: int| 0 <= i < gs.len() ==> gs[i].wf(),
        _ => true,
    }
}

/// The canonical type code of a value's wire form.
pub open spec fn spec_encode_tag(v: PropValue) -> u32 {
    match v {
        PropValue::Empty => DEVPROP_TYPE_EMPTY,
        PropValue::Null => DEVPROP_TYPE_NULL,
        PropValue::I8(_) => DEVPROP_TYPE_SBYTE,
        PropValue::U8(_) => DEVPROP_TYPE_BYTE,
        PropValue::I16(_) => DEVPROP_TYPE_INT16,
        PropValue::U16(_) => DEVPROP_TYPE_UINT16,
        PropValue::I32(_) => DEVPROP_TYPE_INT32,
        PropValue::U32(_) => DEVPROP_TYPE_UINT32,
        PropValue::I64(_) => DEVPROP_TYPE_INT64,
        PropValue::U64(_) => DEVPROP_TYPE_UINT64,
        PropValue::F32Bits(_) => DEVPROP_TYPE_FLOAT,
        PropValue::F64Bits(_) => DEVPROP_TYPE_DOUBLE,
        PropValue::Bool(_) => DEVPROP_TYPE_BOOLEAN,
        PropValue::Guid(_) => DEVPROP_TYPE_GUID,
        PropValue::Binary(_) => (DEVPROP_TYPEMOD_ARRAY + DEVPROP_TYPE_BYTE) as u32,
        PropValue::Utf16(_) => DEVPROP_TYPE_STRING,
        PropValue::I8Array(_) => (DEVPROP_TYPEMOD_ARRAY + DEVPROP_TYPE_SBYTE) as u32,
        PropValue::I16Array(_) => (DEVPROP_TYPEMOD_ARRAY + DEVPROP_TYPE_INT16) as u32,
        PropValue::U16Array(_) => (DEVPROP_TYPEMOD_ARRAY + DEVPROP_TYPE_UINT16) as u32,
        PropValue::I32Array(_) => (DEVPROP_TYPEMOD_ARRAY + DEVPROP_TYPE_INT32) as u32,
        PropValue::U32Array(_) => (DEVPROP_TYPEMOD_ARRAY + DEVPROP_TYPE_UINT32) as u32,
        PropValue::I64Array(_) => (DEVPROP_TYPEMOD_ARRAY + DEVPROP_TYPE_INT64) as u32,
        PropValue::U64Array(_) => (DEVPROP_TYPEMOD_ARRAY + DEVPROP_TYPE_UINT64) as u32,
        PropValue::F32BitsArray(_) => (DEVPROP_TYPEMOD_ARRAY + DEVPROP_TYPE_FLOAT) as u32,
        PropValue::F64BitsArray(_) => (DEVPROP_TYPEMOD_ARRAY + DEVPROP_TYPE_DOUBLE) as u32,
        PropValue::BoolArray(_) => (DEVPROP_TYPEMOD_ARRAY + DEVPROP_TYPE_BOOLEAN) as u32,
        PropValue::GuidArray(_) => (DEVPROP_TYPEMOD_ARRAY + DEVPROP_TYPE_GUID) as u32,
        PropValue::Unsupported(t) => t,
    }
}

/// The wire bytes of a value. Strings regain their terminator unit.
pub open spec fn spec_encode_bytes(v: PropValue) -> Seq<u8> {
    match v {
        PropValue::Empty => Seq::empty(),
        PropValue::Null => Seq::empty(),
        PropValue::I8(x) => seq![as_unsigned_8(x)],
        PropValue::U8(x) => seq![x],
        PropValue::I16(x) => le_bytes_2(as_unsigned_16(x)),
        PropValue::U16(x) => le_bytes_2(x),
        PropValue::I32(x) => le_bytes_4(as_unsigned_32(x)),
        PropValue::U32(x) => le_bytes_4(x),
        PropValue::I64(x) => le_bytes_8(as_unsigned_64(x)),
        PropValue::U64(x) => le_bytes_8(x),
        PropValue::F32Bits(x) => le_bytes_4(x),
        PropValue::F64Bits(x) => le_bytes_8(x),
        PropValue::Bool(b) => seq![
            if b {
                DEVPROP_TRUE
            } else {
                0u8
            },
        ],
        PropValue::Guid(g) => guid_to_bytes(g),
        PropValue::Binary(s) => s,
        PropValue::Utf16(u) => u16s_to_bytes(u.push(0)),
        PropValue::I8Array(s) => i8s_to_bytes(s),
        PropValue::I16Array(s) => i16s_to_bytes(s),
        PropValue::U16Array(s) => u16s_to_bytes(s),
        PropValue::I32Array(s) => i32s_to_bytes(s),
        PropValue::U32Array(s) => u32s_to_bytes(s),
        PropValue::I64Array(s) => i64s_to_bytes(s),
        PropValue::U64Array(s) => u64s_to_bytes(s),
        PropValue::F32BitsArray(s) => u32s_to_bytes(s),
        PropValue::F64BitsArray(s) => u64s_to_bytes(s),
        PropValue::BoolArray(s) => bools_to_bytes(s),
        PropValue::GuidArray(s) => guids_to_bytes(s),
        PropValue::Unsupported(_) => Seq::empty(),
    }
}

// Executable element encoders, each proved against its spec form.

fn encode_u16s(v: &Vec<u16>) -> (out: Vec<u8>)
    ensures
        out@ == u16s_to_bytes(v@),
{
    let mut out: Vec<u8> = Vec::new();
    let mut i: usize = 0;
    while i < v.len()
        invariant
            i <= v@.len(),
            out@.len() == 2 * i,
            forall|j: int| 0 <= j < out@.len() ==> out@[j] == u16s_to_bytes(v@)[j],
        decreases v@.len() - i,
    {
        push_le_2(&mut out, v[i]);
        proof {
            reveal(u16s_to_bytes);
            assert forall|j: int|
                2 * (i as int) <= j < 2 * (i as int) + 2 implies out@[j] == u16s_to_bytes(v@)[j] by {
                assert(j / 2 == i as int);
                assert(j % 2 == j - 2 * (i as int));
            }
        }
        i = i + 1;
    }
    assert(out@ =~= u16s_to_bytes(v@)) by {
        reveal(u16s_to_bytes);
    }
    out
}

fn encode_u32s(v: &Vec<u32>) -> (out: Vec<u8>)
    ensures
        out@ == u32s_to_bytes(v@),
{
    let mut out: Vec<u8> = Vec::new();
    let mut i: usize = 0;
    while i < v.len()
        invariant
            i <= v@.len(),
            out@.len() == 4 * i,
            forall|j: int| 0 <= j < out@.len() ==> out@[j] == u32s_to_bytes(v@)[j],
        decreases v@.len() - i,
    {
        push_le_4(&mut out, v[i]);
        proof {
            reveal(u32s_to_bytes);
            assert forall|j: int|
                4 * (i as int) <= j < 4 * (i as int) + 4 implies out@[j] == u32s_to_bytes(v@)[j] by {
                assert(j / 4 == i as int);
                assert(j % 4 == j - 4 * (i as int));
            }
        }
        i = i + 1;
    }
    assert(out@ =~= u32s_to_bytes(v@)) by {
        reveal(u32s_to_bytes);
    }
    out
}

fn encode_u64s(v: &Vec<u64>) -> (out: Vec<u8>)
    ensures
        out@ == u64s_to_bytes(v@),
{
    let mut out: Vec<u8> = Vec::new();
    let mut i: usize = 0;
    while i < v.len()
        invariant
            i <= v@.len(),
            out@.len() == 8 * i,
            forall|j: int| 0 <= j < out@.len() ==> out@[j] == u64s_to_bytes(v@)[j],
        decreases v@.len() - i,
    {
        push_le_8(&mut out, v[i]);
        proof {
            reveal(u64s_to_bytes);
            assert forall|j: int|
                8 * (i as int) <= j < 8 * (i as int) + 8 implies out@[j] == u64s_to_bytes(v@)[j] by {
                assert(j / 8 == i as int);
                assert(j % 8 == j - 8 * (i as int));
            }
        }
        i = i + 1;
    }
    assert(out@ =~= u64s_to_bytes(v@)) by {
        reveal(u64s_to_bytes);
    }
    out
}

fn encode_i8s(v: &Vec<i8>) -> (out: Vec<u8>)
    ensures
        out@ == i8s_to_bytes(v@),
{
    let mut out: Vec<u8> = Vec::new();
    let mut i: usize = 0;
    while i < v.len()
        invariant
            i <= v@.len(),
            out@.len() == i,
            forall|j: int| 0 <= j < out@.len() ==> out@[j] == i8s_to_bytes(v@)[j],
        decreases v@.len() - i,
    {
        proof {
            reveal(i8s_to_bytes);
        }
        out.push(unsigned_8(v[i]));
        i = i + 1;
    }
    assert(out@ =~= i8s_to_bytes(v@)) by {
        reveal(i8s_to_bytes);
    }
    out
}

fn encode_i16s(v: &Vec<i16>) -> (out: Vec<u8>)
    ensures
        out@ == i16s_to_bytes(v@),
{
    let mut out: Vec<u8> = Vec::new();
    let mut i: usize = 0;
    while i < v.len()
        invariant
            i <= v@.len(),
            out@.len() == 2 * i,
            forall|j: int| 0 <= j < out@.len() ==> out@[j] == i16s_to_bytes(v@)[j],
        decreases v@.len() - i,
    {
        push_le_2(&mut out, unsigned_16(v[i]));
        proof {
            reveal(i16s_to_bytes);
            assert forall|j: int|
                2 * (i as int) <= j < 2 * (i as int) + 2 implies out@[j] == i16s_to_bytes(v@)[j] by {
                assert(j / 2 == i as int);
                assert(j % 2 == j - 2 * (i as int));
            }
        }
        i = i + 1;
    }
    assert(out@ =~= i16s_to_bytes(v@)) by {
        reveal(i16s_to_bytes);
    }
    out
}

fn encode_i32s(v: &Vec<i32>) -> (out: Vec<u8>)
    ensures
        out@ == i32s_to_bytes(v@),
{
    let mut out: Vec<u8> = Vec::new();
    let mut i: usize = 0;
    while i < v.len()
        invariant
            i <= v@.len(),
            out@.len() == 4 * i,
            forall|j: int| 0 <= j < out@.len() ==> out@[j] == i32s_to_bytes(v@)[j],
        decreases v@.len() - i,
    {
        push_le_4(&mut out, unsigned_32(v[i]));
        proof {
            reveal(i32s_to_bytes);
            assert forall|j: int|
                4 * (i as int) <= j < 4 * (i as int) + 4 implies out@[j] == i32s_to_bytes(v@)[j] by {
                assert(j / 4 == i as int);
                assert(j % 4 == j - 4 * (i as int));
            }
        }
        i = i + 1;
    }
    assert(out@ =~= i32s_to_bytes(v@)) by {
        reveal(i32s_to_bytes);
    }
    out
}

fn encode_i64s(v: &Vec<i64>) -> (out: Vec<u8>)
    ensures
        out@ == i64s_to_bytes(v@),
{
    let mut out: Vec<u8> = Vec::new();
    let mut i: usize = 0;
    while i < v.len()
        invariant
            i <= v@.len(),
            out@.len() == 8 * i,
            forall|j: int| 0 <= j < out@.len() ==> out@[j] == i64s_to_bytes(v@)[j],
        decreases v@.len() - i,
    {
        push_le_8(&mut out, unsigned_64(v[i]));
        proof {
            reveal(i64s_to_bytes);
            assert forall|j: int|
                8 * (i as int) <= j < 8 * (i as int) + 8 implies out@[j] == i64s_to_bytes(v@)[j] by {
                assert(j / 8 == i as int);
                assert(j % 8 == j - 8 * (i as int));
            }
        }
        i = i + 1;
    }
    assert(out@ =~= i64s_to_bytes(v@)) by {
        reveal(i64s_to_bytes);
    }
    out
}

fn encode_bools(v: &Vec<bool>) -> (out: Vec<u8>)
    ensures
        out@ == bools_to_bytes(v@),
{
    let mut out: Vec<u8> = Vec::new();
    let mut i: usize = 0;
    while i < v.len()
        invariant
            i <= v@.len(),
            out@.len() == i,
            forall|j: int| 0 <= j < out@.len() ==> out@[j] == bools_to_bytes(v@)[j],
        decreases v@.len() - i,
    {
        proof {
            reveal(bools_to_bytes);
        }
        if v[i] {
            out.push(DEVPROP_TRUE);
        } else {
            out.push(0u8);
        }
        i = i + 1;
    }
    assert(out@ =~= bools_to_bytes(v@)) by {
        reveal(bools_to_bytes);
    }
    out
}

fn push_guid(out: &mut Vec<u8>, g: &Guid)
    ensures
        final(out)@ == old(out)@ + guid_to_bytes(g@),
{
    push_le_4(out, g.data1);
    push_le_2(out, g.data2);
    push_le_2(out, g.data3);
    let mut k: usize = 0;
    while k < 8
        invariant
            k <= 8,
            out@ == old(out)@ + le_bytes_4(g.data1) + le_bytes_2(g.data2) + le_bytes_2(g.data3)
                + g.data4@.subrange(0, k as int),
        decreases 8 - k,
    {
        out.push(g.data4[k]);
        proof {
            assert(g.data4@.subrange(0, k + 1) =~= g.data4@.subrange(0, k as int).push(
                g.data4@[k as int],
            ));
            assert(out@ =~= old(out)@ + le_bytes_4(g.data1) + le_bytes_2(g.data2) + le_bytes_2(
                g.data3,
            ) + g.data4@.subrange(0, k + 1));
        }
        k = k + 1;
    }
    proof {
        assert(g.data4@.subrange(0, 8) =~= g.data4@);
        assert(out@ =~= old(out)@ + guid_to_bytes(g@));
    }
}

fn encode_guids(v: &Vec<Guid>) -> (out: Vec<u8>)
    ensures
        out@ == guids_to_bytes(v@.map_values(|g: Guid| g@)),
{
    let ghost gs = v@.map_values(|g: Guid| g@);
    let mut out: Vec<u8> = Vec::new();
    let mut i: usize = 0;
    while i < v.len()
        invariant
            gs == v@.map_values(|g: Guid| g@),
            i <= v@.len(),
            out@.len() == 16 * i,
            forall|j: int| 0 <= j < out@.len() ==> out@[j] == guids_to_bytes(gs)[j],
        decreases v@.len() - i,
    {
        push_guid(&mut out, &v[i]);
        proof {
            reveal(guids_to_bytes);
            assert(guid_to_bytes(gs[i as int]).len() == 16);
            assert forall|j: int|
                16 * (i as int) <= j < 16 * (i as int) + 16 implies out@[j] == guids_to_bytes(
                gs,
            )[j] by {
                assert(j / 16 == i as int);
                assert(j % 16 == j - 16 * (i as int));
            }
        }
        i = i + 1;
    }
    assert(out@ =~= guids_to_bytes(gs)) by {
        reveal(guids_to_bytes);
    }
    out
}

/// Encodes a value into its wire form: the canonical type code and the
/// raw bytes. Returns nothing for the `Unsupported` fallback, which has
/// no wire form of its own.
pub fn encode_property(v: DevProperty) -> (r: Option<(u32, Vec<u8>)>)
    ensures
        spec_encodable(v@) ==> (r matches Some(p) && p.0 == spec_encode_tag(v@) && p.1@
            == spec_encode_bytes(v@)),
        !spec_encodable(v@) ==> r is None,
{
    match v {
        DevProperty::Empty => Some((DEVPROP_TYPE_EMPTY, Vec::new())),
        DevProperty::Null => Some((DEVPROP_TYPE_NULL, Vec::new())),
        DevProperty::I8(x) => {
            let mut out: Vec<u8> = Vec::new();
            out.push(unsigned_8(x));
            assert(out@ =~= seq![as_unsigned_8(x)]);
            Some((DEVPROP_TYPE_SBYTE, out))
        },
        DevProperty::U8(x) => {
            let mut out: Vec<u8> = Vec::new();
            out.push(x);
            assert(out@ =~= seq![x]);
            Some((DEVPROP_TYPE_BYTE, out))
        },
        DevProperty::I16(x) => {
            let mut out: Vec<u8> = Vec::new();
            push_le_2(&mut out, unsigned_16(x));
            assert(out@ =~= le_bytes_2(as_unsigned_16(x)));
            Some((DEVPROP_TYPE_INT16, out))
        },
        DevProperty::U16(x) => {
            let mut out: Vec<u8> = Vec::new();
            push_le_2(&mut out, x);
            assert(out@ =~= le_bytes_2(x));
            Some((DEVPROP_TYPE_UINT16, out))
        },
        DevProperty::I32(x) => {
            let mut out: Vec<u8> = Vec::new();
            push_le_4(&mut out, unsigned_32(x));
            assert(out@ =~= le_bytes_4(as_unsigned_32(x)));
            Some((DEVPROP_TYPE_INT32, out))
        },
        DevProperty::U32(x) => {
            let mut out: Vec<u8> = Vec::new();
            push_le_4(&mut out, x);
            assert(out@ =~= le_bytes_4(x));
            Some((DEVPROP_TYPE_UINT32, out))
        },
        DevProperty::I64(x) => {
            let mut out: Vec<u8> = Vec::new();
            push_le_8(&mut out, unsigned_64(x));
            assert(out@ =~= le_bytes_8(as_unsigned_64(x)));
            Some((DEVPROP_TYPE_INT64, out))
        },
        DevProperty::U64(x) => {
            let mut out: Vec<u8> = Vec::new();
            push_le_8(&mut out, x);
            assert(out@ =~= le_bytes_8(x));
            Some((DEVPROP_TYPE_UINT64, out))
        },
        DevProperty::F32Bits(x) => {
            let mut out: Vec<u8> = Vec::new();
            push_le_4(&mut out, x);
            assert(out@ =~= le_bytes_4(x));
            Some((DEVPROP_TYPE_FLOAT, out))
        },
        DevProperty::F64Bits(x) => {
            let mut out: Vec<u8> = Vec::new();
            push_le_8(&mut out, x);
            assert(out@ =~= le_bytes_8(x));
            Some((DEVPROP_TYPE_DOUBLE, out))
        },
        DevProperty::Bool(b) => {
            let mut out: Vec<u8> = Vec::new();
            if b {
                out.push(DEVPROP_TRUE);
            } else {
                out.push(0u8);
            }
            assert(out@ =~= spec_encode_bytes(PropValue::Bool(b)));
            Some((DEVPROP_TYPE_BOOLEAN, out))
        },
        DevProperty::Guid(g) => {
            let mut out: Vec<u8> = Vec::new();
            push_guid(&mut out, &g);
            assert(out@ =~= guid_to_bytes(g@));
            Some((DEVPROP_TYPE_GUID, out))
        },
        DevProperty::Binary(bytes) => Some((DEVPROP_TYPEMOD_ARRAY + DEVPROP_TYPE_BYTE, bytes)),
        DevProperty::Utf16(u) => {
            let mut units = u;
            units.push(0u16);
            let out = encode_u16s(&units);
            Some((DEVPROP_TYPE_STRING, out))
        },
        DevProperty::I8Array(s) => Some(
            (DEVPROP_TYPEMOD_ARRAY + DEVPROP_TYPE_SBYTE, encode_i8s(&s)),
        ),
        DevProperty::I16Array(s) => Some(
            (DEVPROP_TYPEMOD_ARRAY + DEVPROP_TYPE_INT16, encode_i16s(&s)),
        ),
        DevProperty::U16Array(s) => Some(
            (DEVPROP_TYPEMOD_ARRAY + DEVPROP_TYPE_UINT16, encode_u16s(&s)),
        ),
        DevProperty::I32Array(s) => Some(
            (DEVPROP_TYPEMOD_ARRAY + DEVPROP_TYPE_INT32, encode_i32s(&s)),
        ),
        DevProperty::U32Array(s) => Some(
            (DEVPROP_TYPEMOD_ARRAY + DEVPROP_TYPE_UINT32, encode_u32s(&s)),
        ),
        DevProperty::I64Array(s) => Some(
            (DEVPROP_TYPEMOD_ARRAY + DEVPROP_TYPE_INT64, encode_i64s(&s)),
        ),
        DevProperty::U64Array(s) => Some(
            (DEVPROP_TYPEMOD_ARRAY + DEVPROP_TYPE_UINT64, encode_u64s(&s)),
        ),
        DevProperty::F32BitsArray(s) => Some(
            (DEVPROP_TYPEMOD_ARRAY + DEVPROP_TYPE_FLOAT, encode_u32s(&s)),
        ),
        DevProperty::F64BitsArray(s) => Some(
            (DEVPROP_TYPEMOD_ARRAY + DEVPROP_TYPE_DOUBLE, encode_u64s(&s)),
        ),
        DevProperty::BoolArray(s) => Some(
            (DEVPROP_TYPEMOD_ARRAY + DEVPROP_TYPE_BOOLEAN, encode_bools(&s)),
        ),
        DevProperty::GuidArray(s) => Some(
            (DEVPROP_TYPEMOD_ARRAY + DEVPROP_TYPE_GUID, encode_guids(&s)),
        ),
        DevProperty::Unsupported(_) => None,
    }
}

// Element round trips: reading an encoded buffer back yields the
// encoded elements.

pub proof fn lemma_u16s_round_trip(s: Seq<u16>)
    ensures
        u16s_to_bytes(s).len() == 2 * s.len(),
        units_of_le(u16s_to_bytes(s)) == s,
{
    reveal(u16s_to_bytes);
    reveal(units_of_le);
    let b = u16s_to_bytes(s);
    assert forall|j: int| 0 <= j < s.len() implies units_of_le(b)[j] == s[j] by {
        assert((2 * j) / 2 == j);
        assert((2 * j) % 2 == 0);
        assert((2 * j + 1) / 2 == j);
        assert((2 * j + 1) % 2 == 1);
        assert(b[2 * j] == le_bytes_2(s[j])[0]);
        assert(b[2 * j + 1] == le_bytes_2(s[j])[1]);
        lemma_u16_le_round_trip(s[j]);
    }
    assert(units_of_le(b) =~= s);
}

pub proof fn lemma_u32s_round_trip(s: Seq<u32>)
    ensures
        u32s_to_bytes(s).len() == 4 * s.len(),
        u32s_of_le(u32s_to_bytes(s)) == s,
{
    reveal(u32s_to_bytes);
    reveal(u32s_of_le);
    let b = u32s_to_bytes(s);
    assert forall|j: int| 0 <= j < s.len() implies u32s_of_le(b)[j] == s[j] by {
        assert forall|k: int| 0 <= k < 4 implies #[trigger] b[4 * j + k] == le_bytes_4(s[j])[k] by {
            assert((4 * j + k) / 4 == j);
            assert((4 * j + k) % 4 == k);
        }
        lemma_u32_le_round_trip(s[j]);
    }
    assert(u32s_of_le(b) =~= s);
}

pub proof fn lemma_u64s_round_trip(s: Seq<u64>)
    ensures
        u64s_to_bytes(s).len() == 8 * s.len(),
        u64s_of_le(u64s_to_bytes(s)) == s,
{
    reveal(u64s_to_bytes);
    reveal(u64s_of_le);
    let b = u64s_to_bytes(s);
    assert forall|j: int| 0 <= j < s.len() implies u64s_of_le(b)[j] == s[j] by {
        assert forall|k: int| 0 <= k < 8 implies #[trigger] b[8 * j + k] == le_bytes_8(s[j])[k] by {
            assert((8 * j + k) / 8 == j);
            assert((8 * j + k) % 8 == k);
        }
        lemma_u64_le_round_trip(s[j]);
    }
    assert(u64s_of_le(b) =~= s);
}

pub proof fn lemma_i8s_round_trip(s: Seq<i8>)
    ensures
        i8s_to_bytes(s).len() == s.len(),
        i8s_of(i8s_to_bytes(s)) == s,
{
    reveal(i8s_to_bytes);
    reveal(i8s_of);
    let b = i8s_to_bytes(s);
    assert forall|j: int| 0 <= j < s.len() implies i8s_of(b)[j] == s[j] by {
        lemma_signed_8_round_trip(s[j]);
    }
    assert(i8s_of(b) =~= s);
}

pub proof fn lemma_i16s_round_trip(s: Seq<i16>)
    ensures
        i16s_to_bytes(s).len() == 2 * s.len(),
        i16s_of_le(i16s_to_bytes(s)) == s,
{
    reveal(i16s_to_bytes);
    reveal(i16s_of_le);
    let b = i16s_to_bytes(s);
    assert forall|j: int| 0 <= j < s.len() implies i16s_of_le(b)[j] == s[j] by {
        assert((2 * j) / 2 == j);
        assert((2 * j) % 2 == 0);
        assert((2 * j + 1) / 2 == j);
        assert((2 * j + 1) % 2 == 1);
        assert(b[2 * j] == le_bytes_2(as_unsigned_16(s[j]))[0]);
        assert(b[2 * j + 1] == le_bytes_2(as_unsigned_16(s[j]))[1]);
        lemma_u16_le_round_trip(as_unsigned_16(s[j]));
        lemma_signed_16_round_trip(s[j]);
    }
    assert(i16s_of_le(b) =~= s);
}

pub proof fn lemma_i32s_round_trip(s: Seq<i32>)
    ensures
        i32s_to_bytes(s).len() == 4 * s.len(),
        i32s_of_le(i32s_to_bytes(s)) == s,
{
    reveal(i32s_to_bytes);
    reveal(i32s_of_le);
    let b = i32s_to_bytes(s);
    assert forall|j: int| 0 <= j < s.len() implies i32s_of_le(b)[j] == s[j] by {
        assert forall|k: int|
            0 <= k < 4 implies #[trigger] b[4 * j + k] == le_bytes_4(as_unsigned_32(s[j]))[k] by {
            assert((4 * j + k) / 4 == j);
            assert((4 * j + k) % 4 == k);
        }
        lemma_u32_le_round_trip(as_unsigned_32(s[j]));
        lemma_signed_32_round_trip(s[j]);
    }
    assert(i32s_of_le(b) =~= s);
}

pub proof fn lemma_i64s_round_trip(s: Seq<i64>)
    ensures
        i64s_to_bytes(s).len() == 8 * s.len(),
        i64s_of_le(i64s_to_bytes(s)) == s,
{
    reveal(i64s_to_bytes);
    reveal(i64s_of_le);
    let b = i64s_to_bytes(s);
    assert forall|j: int| 0 <= j < s.len() implies i64s_of_le(b)[j] == s[j] by {
        assert forall|k: int|
            0 <= k < 8 implies #[trigger] b[8 * j + k] == le_bytes_8(as_unsigned_64(s[j]))[k] by {
            assert((8 * j + k) / 8 == j);
            assert((8 * j + k) % 8 == k);
        }
        lemma_u64_le_round_trip(as_unsigned_64(s[j]));
        lemma_signed_64_round_trip(s[j]);
    }
    assert(i64s_of_le(b) =~= s);
}

pub proof fn lemma_bools_round_trip(s: Seq<bool>)
    ensures
        bools_to_bytes(s).len() == s.len(),
        bools_of(bools_to_bytes(s)) == s,
{
    reveal(bools_to_bytes);
    reveal(bools_of);
    assert(bools_of(bools_to_bytes(s)) =~= s);
}

pub proof fn lemma_guid_round_trip(g: GuidModel)
    requires
        g.wf(),
    ensures
        guid_to_bytes(g).len() == 16,
        guid_from_bytes(guid_to_bytes(g)) == g,
{
    let b = guid_to_bytes(g);
    assert(b[0] == le_bytes_4(g.data1)[0]);
    assert(b[1] == le_bytes_4(g.data1)[1]);
    assert(b[2] == le_bytes_4(g.data1)[2]);
    assert(b[3] == le_bytes_4(g.data1)[3]);
    assert(b[4] == le_bytes_2(g.data2)[0]);
    assert(b[5] == le_bytes_2(g.data2)[1]);
    assert(b[6] == le_bytes_2(g.data3)[0]);
    assert(b[7] == le_bytes_2(g.data3)[1]);
    lemma_u32_le_round_trip(g.data1);
    lemma_u16_le_round_trip(g.data2);
    lemma_u16_le_round_trip(g.data3);
    assert(b.subrange(8, 16) =~= g.data4);
    assert(guid_from_bytes(b) =~= g);
}

pub proof fn lemma_guids_round_trip(s: Seq<GuidModel>)
    requires
        forall|i: int| 0 <= i < s.len() ==> s[i].wf(),
    ensures
        guids_to_bytes(s).len() == 16 * s.len(),
        guids_of_le(guids_to_bytes(s)) == s,
{
    reveal(guids_to_bytes);
    reveal(guids_of_le);
    let b = guids_to_bytes(s);
    assert forall|j: int| 0 <= j < s.len() implies guids_of_le(b)[j] == s[j] by {
        assert(s[j].wf());
        lemma_guid_round_trip(s[j]);
        let sub = b.subrange(16 * j, 16 * j + 16);
        assert forall|k: int| 0 <= k < 16 implies sub[k] == guid_to_bytes(s[j])[k] by {
            assert((16 * j + k) / 16 == j);
            assert((16 * j + k) % 16 == k);
            assert(sub[k] == b[16 * j + k]);
        }
        assert(sub =~= guid_to_bytes(s[j]));
    }
    assert(guids_of_le(b) =~= s);
}

/// Round trip: decoding an encoded value under its canonical type code
/// reproduces the value exactly. This holds for every value with a wire
/// form — each scalar and array width, booleans, identifiers, binary
/// blobs and strings.
// One small round-trip proof per variant keeps each case's
// unfoldings away from the others.

proof fn lemma_rt_empty()
    ensures
        spec_decode(spec_encode_tag(PropValue::Empty), spec_encode_bytes(PropValue::Empty))
            == Ok::<PropValue, DecodeFault>(PropValue::Empty),
{
}

proof fn lemma_rt_null()
    ensures
        spec_decode(spec_encode_tag(PropValue::Null), spec_encode_bytes(PropValue::Null))
            == Ok::<PropValue, DecodeFault>(PropValue::Null),
{
}

proof fn lemma_rt_i8(x: i8)
    ensures
        spec_decode(spec_encode_tag(PropValue::I8(x)), spec_encode_bytes(PropValue::I8(x)))
            == Ok::<PropValue, DecodeFault>(PropValue::I8(x)),
{
    lemma_signed_8_round_trip(x);
}

proof fn lemma_rt_u8(x: u8)
    ensures
        spec_decode(spec_encode_tag(PropValue::U8(x)), spec_encode_bytes(PropValue::U8(x)))
            == Ok::<PropValue, DecodeFault>(PropValue::U8(x)),
{
}

proof fn lemma_rt_i16(x: i16)
    ensures
        spec_decode(spec_encode_tag(PropValue::I16(x)), spec_encode_bytes(PropValue::I16(x)))
            == Ok::<PropValue, DecodeFault>(PropValue::I16(x)),
{
    lemma_u16_le_round_trip(as_unsigned_16(x));
    lemma_signed_16_round_trip(x);
}

proof fn lemma_rt_u16(x: u16)
    ensures
        spec_decode(spec_encode_tag(PropValue::U16(x)), spec_encode_bytes(PropValue::U16(x)))
            == Ok::<PropValue, DecodeFault>(PropValue::U16(x)),
{
    lemma_u16_le_round_trip(x);
}

proof fn lemma_rt_i32(x: i32)
    ensures
        spec_decode(spec_encode_tag(PropValue::I32(x)), spec_encode_bytes(PropValue::I32(x)))
            == Ok::<PropValue, DecodeFault>(PropValue::I32(x)),
{
    lemma_u32_le_round_trip(as_unsigned_32(x));
    lemma_signed_32_round_trip(x);
}

proof fn lemma_rt_u32(x: u32)
    ensures
        spec_decode(spec_encode_tag(PropValue::U32(x)), spec_encode_bytes(PropValue::U32(x)))
            == Ok::<PropValue, DecodeFault>(PropValue::U32(x)),
{
    lemma_u32_le_round_trip(x);
}

proof fn lemma_rt_i64(x: i64)
    ensures
        spec_decode(spec_encode_tag(PropValue::I64(x)), spec_encode_bytes(PropValue::I64(x)))
            == Ok::<PropValue, DecodeFault>(PropValue::I64(x)),
{
    lemma_u64_le_round_trip(as_unsigned_64(x));
    lemma_signed_64_round_trip(x);
}

proof fn lemma_rt_u64(x: u64)
    ensures
        spec_decode(spec_encode_tag(PropValue::U64(x)), spec_encode_bytes(PropValue::U64(x)))
            == Ok::<PropValue, DecodeFault>(PropValue::U64(x)),
{
    lemma_u64_le_round_trip(x);
}

proof fn lemma_rt_f32_bits(x: u32)
    ensures
        spec_decode(spec_encode_tag(PropValue::F32Bits(x)), spec_encode_bytes(PropValue::F32Bits(x)))
            == Ok::<PropValue, DecodeFault>(PropValue::F32Bits(x)),
{
    lemma_u32_le_round_trip(x);
}

proof fn lemma_rt_f64_bits(x: u64)
    ensures
        spec_decode(spec_encode_tag(PropValue::F64Bits(x)), spec_encode_bytes(PropValue::F64Bits(x)))
            == Ok::<PropValue, DecodeFault>(PropValue::F64Bits(x)),
{
    lemma_u64_le_round_trip(x);
}

proof fn lemma_rt_bool(b: bool)
    ensures
        spec_decode(spec_encode_tag(PropValue::Bool(b)), spec_encode_bytes(PropValue::Bool(b)))
            == Ok::<PropValue, DecodeFault>(PropValue::Bool(b)),
{
}

proof fn lemma_rt_guid(g: GuidModel)
    requires
        g.wf(),
    ensures
        spec_decode(spec_encode_tag(PropValue::Guid(g)), spec_encode_bytes(PropValue::Guid(g)))
            == Ok::<PropValue, DecodeFault>(PropValue::Guid(g)),
{
    lemma_guid_round_trip(g);
}

proof fn lemma_rt_binary(s: Seq<u8>)
    ensures
        spec_decode(spec_encode_tag(PropValue::Binary(s)), spec_encode_bytes(PropValue::Binary(s)))
            == Ok::<PropValue, DecodeFault>(PropValue::Binary(s)),
{
}

proof fn lemma_rt_utf16(u: Seq<u16>)
    ensures
        spec_decode(spec_encode_tag(PropValue::Utf16(u)), spec_encode_bytes(PropValue::Utf16(u)))
            == Ok::<PropValue, DecodeFault>(PropValue::Utf16(u)),
{
    lemma_u16s_round_trip(u.push(0));
    let units = units_of_le(u16s_to_bytes(u.push(0)));
    assert(units[units.len() - 1] == 0);
    assert(units.drop_last() =~= u);
}

proof fn lemma_rt_i8_array(s: Seq<i8>)
    ensures
        spec_decode(spec_encode_tag(PropValue::I8Array(s)), spec_encode_bytes(PropValue::I8Array(s)))
            == Ok::<PropValue, DecodeFault>(PropValue::I8Array(s)),
{
    lemma_i8s_round_trip(s);
}

proof fn lemma_rt_i16_array(s: Seq<i16>)
    ensures
        spec_decode(spec_encode_tag(PropValue::I16Array(s)), spec_encode_bytes(PropValue::I16Array(s)))
            == Ok::<PropValue, DecodeFault>(PropValue::I16Array(s)),
{
    lemma_i16s_round_trip(s);
}

proof fn lemma_rt_u16_array(s: Seq<u16>)
    ensures
        spec_decode(spec_encode_tag(PropValue::U16Array(s)), spec_encode_bytes(PropValue::U16Array(s)))
            == Ok::<PropValue, DecodeFault>(PropValue::U16Array(s)),
{
    lemma_u16s_round_trip(s);
}

proof fn lemma_rt_i32_array(s: Seq<i32>)
    ensures
        spec_decode(spec_encode_tag(PropValue::I32Array(s)), spec_encode_bytes(PropValue::I32Array(s)))
            == Ok::<PropValue, DecodeFault>(PropValue::I32Array(s)),
{
    lemma_i32s_round_trip(s);
}

proof fn lemma_rt_u32_array(s: Seq<u32>)
    ensures
        spec_decode(spec_encode_tag(PropValue::U32Array(s)), spec_encode_bytes(PropValue::U32Array(s)))
            == Ok::<PropValue, DecodeFault>(PropValue::U32Array(s)),
{
    lemma_u32s_round_trip(s);
}

proof fn lemma_rt_i64_array(s: Seq<i64>)
    ensures
        spec_decode(spec_encode_tag(PropValue::I64Array(s)), spec_encode_bytes(PropValue::I64Array(s)))
            == Ok::<PropValue, DecodeFault>(PropValue::I64Array(s)),
{
    lemma_i64s_round_trip(s);
}

proof fn lemma_rt_u64_array(s: Seq<u64>)
    ensures
        spec_decode(spec_encode_tag(PropValue::U64Array(s)), spec_encode_bytes(PropValue::U64Array(s)))
            == Ok::<PropValue, DecodeFault>(PropValue::U64Array(s)),
{
    lemma_u64s_round_trip(s);
}

proof fn lemma_rt_f32_bits_array(s: Seq<u32>)
    ensures
        spec_decode(spec_encode_tag(PropValue::F32BitsArray(s)), spec_encode_bytes(PropValue::F32BitsArray(s)))
            == Ok::<PropValue, DecodeFault>(PropValue::F32BitsArray(s)),
{
    lemma_u32s_round_trip(s);
}

proof fn lemma_rt_f64_bits_array(s: Seq<u64>)
    ensures
        spec_decode(spec_encode_tag(PropValue::F64BitsArray(s)), spec_encode_bytes(PropValue::F64BitsArray(s)))
            == Ok::<PropValue, DecodeFault>(PropValue::F64BitsArray(s)),
{
    lemma_u64s_round_trip(s);
}

proof fn lemma_rt_bool_array(s: Seq<bool>)
    ensures
        spec_decode(spec_encode_tag(PropValue::BoolArray(s)), spec_encode_bytes(PropValue::BoolArray(s)))
            == Ok::<PropValue, DecodeFault>(PropValue::BoolArray(s)),
{
    lemma_bools_round_trip(s);
}

proof fn lemma_rt_guid_array(s: Seq<GuidModel>)
    requires
        forall|i: int| 0 <= i < s.len() ==> s[i].wf(),
    ensures
        spec_decode(spec_encode_tag(PropValue::GuidArray(s)), spec_encode_bytes(PropValue::GuidArray(s)))
            == Ok::<PropValue, DecodeFault>(PropValue::GuidArray(s)),
{
    lemma_guids_round_trip(s);
}

/// Round trip: decoding an encoded value under its canonical type code
/// reproduces the value exactly. This holds for every value with a wire
/// form — each scalar and array width, booleans, identifiers, binary
/// blobs and strings.
pub proof fn lemma_decode_encode_round_trip(v: PropValue)
    requires
        spec_encodable(v),
    ensures
        spec_decode(spec_encode_tag(v), spec_encode_bytes(v)) == Ok::<PropValue, DecodeFault>(v),
{
    match v {
        PropValue::Empty => {
            lemma_rt_empty();
        },
        PropValue::Null => {
            lemma_rt_null();
        },
        PropValue::I8(x) => {
            lemma_rt_i8(x);
        },
        PropValue::U8(x) => {
            lemma_rt_u8(x);
        },
        PropValue::I16(x) => {
            lemma_rt_i16(x);
        },
        PropValue::U16(x) => {
            lemma_rt_u16(x);
        },
        PropValue::I32(x) => {
            lemma_rt_i32(x);
        },
        PropValue::U32(x) => {
            lemma_rt_u32(x);
        },
        PropValue::I64(x) => {
            lemma_rt_i64(x);
        },
        PropValue::U64(x) => {
            lemma_rt_u64(x);
        },
        PropValue::F32Bits(x) => {
            lemma_rt_f32_bits(x);
        },
        PropValue::F64Bits(x) => {
            lemma_rt_f64_bits(x);
        },
        PropValue::Bool(x) => {
            lemma_rt_bool(x);
        },
        PropValue::Guid(g) => {
            lemma_rt_guid(g);
        },
        PropValue::Binary(s) => {
            lemma_rt_binary(s);
        },
        PropValue::Utf16(u) => {
            lemma_rt_utf16(u);
        },
        PropValue::I8Array(s) => {
            lemma_rt_i8_array(s);
        },
        PropValue::I16Array(s) => {
            lemma_rt_i16_array(s);
        },
        PropValue::U16Array(s) => {
            lemma_rt_u16_array(s);
        },
        PropValue::I32Array(s) => {
            lemma_rt_i32_array(s);
        },
        PropValue::U32Array(s) => {
            lemma_rt_u32_array(s);
        },
        PropValue::I64Array(s) => {
            lemma_rt_i64_array(s);
        },
        PropValue::U64Array(s) => {
            lemma_rt_u64_array(s);
        },
        PropValue::F32BitsArray(s) => {
            lemma_rt_f32_bits_array(s);
        },
        PropValue::F64BitsArray(s) => {
            lemma_rt_f64_bits_array(s);
        },
        PropValue::BoolArray(s) => {
            lemma_rt_bool_array(s);
        },
        PropValue::GuidArray(s) => {
            lemma_rt_guid_array(s);
        },
        PropValue::Unsupported(_) => {},
    }
}

/// The element count of an array-like value; 0 for anything else.
pub open spec fn spec_array_len(v: PropValue) -> nat {
    match v {
        PropValue::Binary(s) => s.len(),
        PropValue::Utf16(s) => s.len(),
        PropValue::I8Array(s) => s.len(),
        PropValue::I16Array(s) => s.len(),
        PropValue::U16Array(s) => s.len(),
        PropValue::I32Array(s) => s.len(),
        PropValue::U32Array(s) => s.len(),
        PropValue::I64Array(s) => s.len(),
        PropValue::U64Array(s) => s.len(),
        PropValue::F32BitsArray(s) => s.len(),
        PropValue::F64BitsArray(s) => s.len(),
        PropValue::BoolArray(s) => s.len(),
        PropValue::GuidArray(s) => s.len(),
        _ => 0,
    }
}

/// An array-typed decode never yields a partially-filled array: under
/// the array modifier with a recognized element type of width `w`, a
/// buffer whose byte length is not a multiple of `w` is a decode fault,
/// and otherwise the decode succeeds with exactly `len / w` elements.
pub proof fn lemma_array_decode_exact(ty: u32, raw: Seq<u8>)
    requires
        spec_modifier_part(ty) == 1,
        spec_scalar_width(spec_type_part(ty)) > 0,
    ensures
        raw.len() % spec_scalar_width(spec_type_part(ty)) != 0 ==> spec_decode(ty, raw) == Err::<
            PropValue,
            DecodeFault,
        >(DecodeFault::ArrayRemainder),
        raw.len() % spec_scalar_width(spec_type_part(ty)) == 0 ==> (spec_decode(ty, raw) matches Ok(
            av,
        ) && spec_array_len(av) == raw.len() / spec_scalar_width(spec_type_part(ty))),
{
    reveal(i8s_of);
    reveal(bools_of);
    reveal(units_of_le);
    reveal(i16s_of_le);
    reveal(u32s_of_le);
    reveal(i32s_of_le);
    reveal(u64s_of_le);
    reveal(i64s_of_le);
    reveal(guids_of_le);
}

} // verus!



