//! The strongly-typed property value model.
//!
//! A device property arrives as a raw byte buffer tagged with a runtime
//! type code: a scalar type in the low bits plus a modifier in the high
//! bits, where one modifier value marks the buffer as an array of the
//! scalar type. [`DevProperty`] is the decoded form; its spec-level view
//! is [`PropValue`], which the decode and encode contracts are stated
//! over.
//!
//! Floating-point properties are carried as their raw bit patterns
//! (`F32Bits`, `F64Bits`): the wire holds exactly those bits, and the
//! library never does floating-point arithmetic on them.

use vstd::prelude::*;

pub mod codec;

verus! {

// Documented values of the platform's property-type codes. The low 12
// bits of a type code hold the scalar type, the next 4 bits hold the
// modifier.

pub const DEVPROP_TYPE_EMPTY: u32 = 0x00;
pub const DEVPROP_TYPE_NULL: u32 = 0x01;
pub const DEVPROP_TYPE_SBYTE: u32 = 0x02;
pub const DEVPROP_TYPE_BYTE: u32 = 0x03;
pub const DEVPROP_TYPE_INT16: u32 = 0x04;
pub const DEVPROP_TYPE_UINT16: u32 = 0x05;
pub const DEVPROP_TYPE_INT32: u32 = 0x06;
pub const DEVPROP_TYPE_UINT32: u32 = 0x07;
pub const DEVPROP_TYPE_INT64: u32 = 0x08;
pub const DEVPROP_TYPE_UINT64: u32 = 0x09;
pub const DEVPROP_TYPE_FLOAT: u32 = 0x0A;
pub const DEVPROP_TYPE_DOUBLE: u32 = 0x0B;
pub const DEVPROP_TYPE_GUID: u32 = 0x0D;
pub const DEVPROP_TYPE_BOOLEAN: u32 = 0x11;
pub const DEVPROP_TYPE_STRING: u32 = 0x12;

/// The modifier value that marks an array of a scalar type.
pub const DEVPROP_TYPEMOD_ARRAY: u32 = 0x1000;

/// The binary ("byte array") type code: the byte scalar under the array
/// modifier.
pub const DEVPROP_TYPE_BINARY: u32 = 0x1003;

/// The wire byte that encodes a true boolean.
pub const DEVPROP_TRUE: u8 = 0xFF;

/// The scalar-type part of a type code: its low 12 bits.
pub open spec fn spec_type_part(ty: u32) -> u32 {
    ty % 0x1000
}

/// The modifier part of a type code: the 4 bits above the scalar type,
/// as a plain value (so the array modifier appears as 1).
pub open spec fn spec_modifier_part(ty: u32) -> u32 {
    (ty / 0x1000) % 0x10
}

pub fn type_part(ty: u32) -> (t: u32)
    ensures
        t == spec_type_part(ty),
{
    ty % 0x1000
}

pub fn modifier_part(ty: u32) -> (m: u32)
    ensures
        m == spec_modifier_part(ty),
{
    (ty / 0x1000) % 0x10
}

/// A 128-bit identifier: an interface class or a property namespace.
#[derive(Clone, Copy, Debug, PartialEq, Eq)]
pub struct Guid {
    pub data1: u32,
    pub data2: u16,
    pub data3: u16,
    pub data4: [u8; 8],
}

/// Spec-level view of a [`Guid`]: the same four fields with the trailing
/// bytes as a sequence.
#[verifier::ext_equal]
pub struct GuidModel {
    pub data1: u32,
    pub data2: u16,
    pub data3: u16,
    pub data4: Seq<u8>,
}

impl GuidModel {
    /// A well-formed view always carries exactly eight trailing bytes.
    pub open spec fn wf(self) -> bool {
        self.data4.len() == 8
    }
}

impl View for Guid {
    type V = GuidModel;

    open spec fn view(&self) -> GuidModel {
        GuidModel { data1: self.data1, data2: self.data2, data3: self.data3, data4: self.data4@ }
    }
}

/// A property key: a 128-bit namespace identifier plus a numeric
/// property identifier within that namespace. Compared by structural
/// equality.
#[derive(Clone, Copy, Debug, PartialEq, Eq)]
pub struct PropertyKey {
    pub fmtid: Guid,
    pub pid: u32,
}

/// Spec-level view of a [`PropertyKey`].
pub struct PropertyKeyModel {
    pub fmtid: GuidModel,
    pub pid: u32,
}

impl View for PropertyKey {
    type V = PropertyKeyModel;

    open spec fn view(&self) -> PropertyKeyModel {
        PropertyKeyModel { fmtid: self.fmtid@, pid: self.pid }
    }
}

/// A decoded property value: one variant per recognized combination of
/// scalar type and array modifier, plus an explicit fallback that keeps
/// the raw type code of anything unrecognized.
///
/// Strings are carried as their UTF-16 code units with the wire's
/// trailing terminator already stripped.
#[derive(Clone, Debug, PartialEq)]
pub enum DevProperty {
    Empty,
    Null,
    I8(i8),
    U8(u8),
    I16(i16),
    U16(u16),
    I32(i32),
    U32(u32),
    I64(i64),
    U64(u64),
    F32Bits(u32),
    F64Bits(u64),
    Bool(bool),
    Guid(Guid),
    Binary(Vec<u8>),
    Utf16(Vec<u16>),
    I8Array(Vec<i8>),
    I16Array(Vec<i16>),
    U16Array(Vec<u16>),
    I32Array(Vec<i32>),
    U32Array(Vec<u32>),
    I64Array(Vec<i64>),
    U64Array(Vec<u64>),
    F32BitsArray(Vec<u32>),
    F64BitsArray(Vec<u64>),
    BoolArray(Vec<bool>),
    GuidArray(Vec<Guid>),
    Unsupported(u32),
}

/// Spec-level view of a [`DevProperty`]: the same variants over
/// mathematical sequences.
pub enum PropValue {
    Empty,
    Null,
    I8(i8),
    U8(u8),
    I16(i16),
    U16(u16),
    I32(i32),
    U32(u32),
    I64(i64),
    U64(u64),
    F32Bits(u32),
    F64Bits(u64),
    Bool(bool),
    Guid(GuidModel),
    Binary(Seq<u8>),
    Utf16(Seq<u16>),
    I8Array(Seq<i8>),
    I16Array(Seq<i16>),
    U16Array(Seq<u16>),
    I32Array(Seq<i32>),
    U32Array(Seq<u32>),
    I64Array(Seq<i64>),
    U64Array(Seq<u64>),
    F32BitsArray(Seq<u32>),
    F64BitsArray(Seq<u64>),
    BoolArray(Seq<bool>),
    GuidArray(Seq<GuidModel>),
    Unsupported(u32),
}

impl View for DevProperty {
    type V = PropValue;

    open spec fn view(&self) -> PropValue {
        match self {
            DevProperty::Empty => PropValue::Empty,
            DevProperty::Null => PropValue::Null,
            DevProperty::I8(x) => PropValue::I8(*x),
            DevProperty::U8(x) => PropValue::U8(*x),
            DevProperty::I16(x) => PropValue::I16(*x),
            DevProperty::U16(x) => PropValue::U16(*x),
            DevProperty::I32(x) => PropValue::I32(*x),
            DevProperty::U32(x) => PropValue::U32(*x),
            DevProperty::I64(x) => PropValue::I64(*x),
            DevProperty::U64(x) => PropValue::U64(*x),
            DevProperty::F32Bits(x) => PropValue::F32Bits(*x),
            DevProperty::F64Bits(x) => PropValue::F64Bits(*x),
            DevProperty::Bool(x) => PropValue::Bool(*x),
            DevProperty::Guid(g) => PropValue::Guid(g@),
            DevProperty::Binary(v) => PropValue::Binary(v@),
            DevProperty::Utf16(v) => PropValue::Utf16(v@),
            DevProperty::I8Array(v) => PropValue::I8Array(v@),
            DevProperty::I16Array(v) => PropValue::I16Array(v@),
            DevProperty::U16Array(v) => PropValue::U16Array(v@),
            DevProperty::I32Array(v) => PropValue::I32Array(v@),
            DevProperty::U32Array(v) => PropValue::U32Array(v@),
            DevProperty::I64Array(v) => PropValue::I64Array(v@),
            DevProperty::U64Array(v) => PropValue::U64Array(v@),
            DevProperty::F32BitsArray(v) => PropValue::F32BitsArray(v@),
            DevProperty::F64BitsArray(v) => PropValue::F64BitsArray(v@),
            DevProperty::BoolArray(v) => PropValue::BoolArray(v@),
            DevProperty::GuidArray(v) => PropValue::GuidArray(v@.map_values(|g: Guid| g@)),
            DevProperty::Unsupported(t) => PropValue::Unsupported(*t),
        }
    }
}

/// The fixed byte width of a scalar type on the wire, or 0 for types
/// that have no fixed-width scalar form.
pub open spec fn spec_scalar_width(t: u32) -> nat {
    if t == DEVPROP_TYPE_SBYTE || t == DEVPROP_TYPE_BYTE || t == DEVPROP_TYPE_BOOLEAN {
        1
    } else if t == DEVPROP_TYPE_INT16 || t == DEVPROP_TYPE_UINT16 {
        2
    } else if t == DEVPROP_TYPE_INT32 || t == DEVPROP_TYPE_UINT32 || t == DEVPROP_TYPE_FLOAT {
        4
    } else if t == DEVPROP_TYPE_INT64 || t == DEVPROP_TYPE_UINT64 || t == DEVPROP_TYPE_DOUBLE {
        8
    } else if t == DEVPROP_TYPE_GUID {
        16
    } else {
        0
    }
}

pub fn scalar_width(t: u32) -> (w: usize)
    ensures
        w == spec_scalar_width(t),
{
    if t == DEVPROP_TYPE_SBYTE || t == DEVPROP_TYPE_BYTE || t == DEVPROP_TYPE_BOOLEAN {
        1
    } else if t == DEVPROP_TYPE_INT16 || t == DEVPROP_TYPE_UINT16 {
        2
    } else if t == DEVPROP_TYPE_INT32 || t == DEVPROP_TYPE_UINT32 || t == DEVPROP_TYPE_FLOAT {
        4
    } else if t == DEVPROP_TYPE_INT64 || t == DEVPROP_TYPE_UINT64 || t == DEVPROP_TYPE_DOUBLE {
        8
    } else if t == DEVPROP_TYPE_GUID {
        16
    } else {
        0
    }
}

} // verus!
