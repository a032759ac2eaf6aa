//! Tests for the typed property decode engine and its encoder.

use sd_formatter::devprop::codec::{decode_property, encode_property, DecodeFault};
use sd_formatter::devprop::{
    DevProperty, Guid, DEVPROP_TYPEMOD_ARRAY, DEVPROP_TYPE_BOOLEAN, DEVPROP_TYPE_BYTE,
    DEVPROP_TYPE_DOUBLE, DEVPROP_TYPE_EMPTY, DEVPROP_TYPE_FLOAT, DEVPROP_TYPE_GUID,
    DEVPROP_TYPE_INT16, DEVPROP_TYPE_INT32, DEVPROP_TYPE_INT64, DEVPROP_TYPE_NULL,
    DEVPROP_TYPE_SBYTE, DEVPROP_TYPE_STRING, DEVPROP_TYPE_UINT16, DEVPROP_TYPE_UINT32,
    DEVPROP_TYPE_UINT64,
};

fn sample_guid() -> Guid {
    Guid {
        data1: 0x4d1ebee8,
        data2: 0x0803,
        data3: 0x4774,
        data4: [0x98, 0x42, 0xb7, 0x7d, 0xb5, 0x02, 0x65, 0xe9],
    }
}

fn sample_guid_bytes() -> Vec<u8> {
    vec![
        0xe8, 0xbe, 0x1e, 0x4d, // data1, least-significant byte first
        0x03, 0x08, // data2
        0x74, 0x47, // data3
        0x98, 0x42, 0xb7, 0x7d, 0xb5, 0x02, 0x65, 0xe9, // data4 in order
    ]
}

#[test]
fn decodes_u32_scalar_forty_two() {
    let r = decode_property(DEVPROP_TYPE_UINT32, vec![0x2A, 0x00, 0x00, 0x00]);
    assert_eq!(r, Ok(DevProperty::U32(42)));
}

#[test]
fn decodes_bool_array_with_one_byte_elements() {
    let tag = DEVPROP_TYPEMOD_ARRAY | DEVPROP_TYPE_BOOLEAN;
    let r = decode_property(tag, vec![0x01, 0x00, 0x01]);
    assert_eq!(r, Ok(DevProperty::BoolArray(vec![true, false, true])));
}

#[test]
fn unrecognized_tag_decodes_to_unsupported() {
    let r = decode_property(0xFFFF, vec![1, 2, 3]);
    assert_eq!(r, Ok(DevProperty::Unsupported(0xFFFF)));
}

#[test]
fn list_modifier_decodes_to_unsupported() {
    // A modifier other than "array" (here 2, the list modifier) is not
    // in the decode table.
    let r = decode_property(0x2012, vec![0x41, 0x00, 0x00, 0x00]);
    assert_eq!(r, Ok(DevProperty::Unsupported(0x2012)));
}

#[test]
fn empty_and_null_decode_without_bytes() {
    assert_eq!(decode_property(DEVPROP_TYPE_EMPTY, vec![]), Ok(DevProperty::Empty));
    assert_eq!(decode_property(DEVPROP_TYPE_NULL, vec![]), Ok(DevProperty::Null));
}

#[test]
fn decodes_signed_scalars() {
    assert_eq!(decode_property(DEVPROP_TYPE_SBYTE, vec![0xFF]), Ok(DevProperty::I8(-1)));
    assert_eq!(
        decode_property(DEVPROP_TYPE_INT16, vec![0x34, 0x12]),
        Ok(DevProperty::I16(0x1234))
    );
    assert_eq!(
        decode_property(DEVPROP_TYPE_INT16, vec![0xFF, 0xFF]),
        Ok(DevProperty::I16(-1))
    );
    assert_eq!(
        decode_property(DEVPROP_TYPE_INT32, vec![0xFE, 0xFF, 0xFF, 0xFF]),
        Ok(DevProperty::I32(-2))
    );
    assert_eq!(
        decode_property(
            DEVPROP_TYPE_INT64,
            vec![0xFD, 0xFF, 0xFF, 0xFF, 0xFF, 0xFF, 0xFF, 0xFF]
        ),
        Ok(DevProperty::I64(-3))
    );
}

#[test]
fn decodes_unsigned_scalars() {
    assert_eq!(decode_property(DEVPROP_TYPE_BYTE, vec![0xA5]), Ok(DevProperty::U8(0xA5)));
    assert_eq!(
        decode_property(DEVPROP_TYPE_UINT16, vec![0xCD, 0xAB]),
        Ok(DevProperty::U16(0xABCD))
    );
    assert_eq!(
        decode_property(
            DEVPROP_TYPE_UINT64,
            vec![0x88, 0x77, 0x66, 0x55, 0x44, 0x33, 0x22, 0x11]
        ),
        Ok(DevProperty::U64(0x1122334455667788))
    );
}

#[test]
fn decodes_float_bit_patterns() {
    // 42.0 as a 32-bit float is 0x42280000.
    let r = decode_property(DEVPROP_TYPE_FLOAT, vec![0x00, 0x00, 0x28, 0x42]);
    assert_eq!(r, Ok(DevProperty::F32Bits(0x42280000)));
    if let Ok(DevProperty::F32Bits(bits)) = r {
        assert_eq!(f32::from_bits(bits), 42.0f32);
    } else {
        unreachable!();
    }
    // 42.0 as a 64-bit float is 0x4045000000000000.
    let r = decode_property(
        DEVPROP_TYPE_DOUBLE,
        vec![0x00, 0x00, 0x00, 0x00, 0x00, 0x00, 0x45, 0x40],
    );
    assert_eq!(r, Ok(DevProperty::F64Bits(0x4045000000000000)));
    if let Ok(DevProperty::F64Bits(bits)) = r {
        assert_eq!(f64::from_bits(bits), 42.0f64);
    } else {
        unreachable!();
    }
}

#[test]
fn decodes_booleans_nonzero_as_true() {
    assert_eq!(
        decode_property(DEVPROP_TYPE_BOOLEAN, vec![0x00]),
        Ok(DevProperty::Bool(false))
    );
    assert_eq!(
        decode_property(DEVPROP_TYPE_BOOLEAN, vec![0x01]),
        Ok(DevProperty::Bool(true))
    );
    assert_eq!(
        decode_property(DEVPROP_TYPE_BOOLEAN, vec![0xFF]),
        Ok(DevProperty::Bool(true))
    );
}

#[test]
fn decodes_guid_fields_in_order() {
    let r = decode_property(DEVPROP_TYPE_GUID, sample_guid_bytes());
    assert_eq!(r, Ok(DevProperty::Guid(sample_guid())));
}

#[test]
fn binary_tag_passes_bytes_through() {
    let tag = DEVPROP_TYPEMOD_ARRAY | DEVPROP_TYPE_BYTE;
    let r = decode_property(tag, vec![9, 8, 7]);
    assert_eq!(r, Ok(DevProperty::Binary(vec![9, 8, 7])));
}

#[test]
fn decodes_string_and_strips_terminator() {
    // "Hi" in UTF-16, least-significant byte first, then the terminator.
    let raw = vec![0x48, 0x00, 0x69, 0x00, 0x00, 0x00];
    let r = decode_property(DEVPROP_TYPE_STRING, raw);
    assert_eq!(r, Ok(DevProperty::Utf16(vec![0x48, 0x69])));
}

#[test]
fn string_without_terminator_is_a_fault() {
    let raw = vec![0x48, 0x00, 0x69, 0x00];
    let r = decode_property(DEVPROP_TYPE_STRING, raw);
    assert_eq!(r, Err(DecodeFault::StringTermination));
    let r = decode_property(DEVPROP_TYPE_STRING, vec![]);
    assert_eq!(r, Err(DecodeFault::StringTermination));
}

#[test]
fn odd_sized_string_is_a_fault() {
    let r = decode_property(DEVPROP_TYPE_STRING, vec![0x48, 0x00, 0x00]);
    assert_eq!(r, Err(DecodeFault::ArrayRemainder));
}

#[test]
fn mis_sized_scalar_is_a_fault() {
    assert_eq!(
        decode_property(DEVPROP_TYPE_UINT32, vec![0x2A, 0x00]),
        Err(DecodeFault::ScalarSize)
    );
    assert_eq!(
        decode_property(DEVPROP_TYPE_BOOLEAN, vec![]),
        Err(DecodeFault::ScalarSize)
    );
    assert_eq!(
        decode_property(DEVPROP_TYPE_GUID, vec![0; 15]),
        Err(DecodeFault::ScalarSize)
    );
}

#[test]
fn mis_sized_array_is_a_fault_not_a_partial_array() {
    let tag = DEVPROP_TYPEMOD_ARRAY | DEVPROP_TYPE_UINT32;
    assert_eq!(
        decode_property(tag, vec![0, 0, 0, 0, 0, 0]),
        Err(DecodeFault::ArrayRemainder)
    );
    let tag = DEVPROP_TYPEMOD_ARRAY | DEVPROP_TYPE_INT16;
    assert_eq!(decode_property(tag, vec![1, 2, 3]), Err(DecodeFault::ArrayRemainder));
    let tag = DEVPROP_TYPEMOD_ARRAY | DEVPROP_TYPE_GUID;
    assert_eq!(decode_property(tag, vec![0; 17]), Err(DecodeFault::ArrayRemainder));
}

#[test]
fn decodes_numeric_arrays() {
    let tag = DEVPROP_TYPEMOD_ARRAY | DEVPROP_TYPE_UINT16;
    assert_eq!(
        decode_property(tag, vec![0x01, 0x00, 0x02, 0x00]),
        Ok(DevProperty::U16Array(vec![1, 2]))
    );
    let tag = DEVPROP_TYPEMOD_ARRAY | DEVPROP_TYPE_INT16;
    assert_eq!(
        decode_property(tag, vec![0xFF, 0xFF, 0x05, 0x00]),
        Ok(DevProperty::I16Array(vec![-1, 5]))
    );
    let tag = DEVPROP_TYPEMOD_ARRAY | DEVPROP_TYPE_SBYTE;
    assert_eq!(
        decode_property(tag, vec![0xFF, 0x7F]),
        Ok(DevProperty::I8Array(vec![-1, 127]))
    );
    let tag = DEVPROP_TYPEMOD_ARRAY | DEVPROP_TYPE_UINT32;
    assert_eq!(
        decode_property(tag, vec![0x2A, 0, 0, 0, 0xFF, 0xFF, 0xFF, 0xFF]),
        Ok(DevProperty::U32Array(vec![42, u32::MAX]))
    );
    let tag = DEVPROP_TYPEMOD_ARRAY | DEVPROP_TYPE_GUID;
    let mut two = sample_guid_bytes();
    two.extend(sample_guid_bytes());
    assert_eq!(
        decode_property(tag, two),
        Ok(DevProperty::GuidArray(vec![sample_guid(), sample_guid()]))
    );
}

#[test]
fn unsupported_has_no_wire_form() {
    assert_eq!(encode_property(DevProperty::Unsupported(0xFFFF)), None);
}

fn assert_round_trips(v: DevProperty) {
    let (tag, bytes) = encode_property(v.clone()).expect("value should have a wire form");
    let back = decode_property(tag, bytes).expect("encoded bytes should decode");
    assert_eq!(back, v);
}

#[test]
fn round_trips_scalars_of_every_width() {
    assert_round_trips(DevProperty::Empty);
    assert_round_trips(DevProperty::Null);
    assert_round_trips(DevProperty::I8(-128));
    assert_round_trips(DevProperty::U8(0xFF));
    assert_round_trips(DevProperty::I16(-32768));
    assert_round_trips(DevProperty::U16(0xFFFF));
    assert_round_trips(DevProperty::I32(-2147483648));
    assert_round_trips(DevProperty::U32(0xDEADBEEF));
    assert_round_trips(DevProperty::I64(i64::MIN));
    assert_round_trips(DevProperty::U64(u64::MAX));
    assert_round_trips(DevProperty::F32Bits(42.5f32.to_bits()));
    assert_round_trips(DevProperty::F64Bits((-0.125f64).to_bits()));
    assert_round_trips(DevProperty::Bool(true));
    assert_round_trips(DevProperty::Bool(false));
    assert_round_trips(DevProperty::Guid(sample_guid()));
}

#[test]
fn round_trips_arrays_of_every_width() {
    assert_round_trips(DevProperty::Binary(vec![0, 1, 2, 255]));
    assert_round_trips(DevProperty::I8Array(vec![-1, 0, 1]));
    assert_round_trips(DevProperty::I16Array(vec![-300, 300]));
    assert_round_trips(DevProperty::U16Array(vec![0, 0xFFFF]));
    assert_round_trips(DevProperty::I32Array(vec![i32::MIN, i32::MAX]));
    assert_round_trips(DevProperty::U32Array(vec![0, u32::MAX]));
    assert_round_trips(DevProperty::I64Array(vec![i64::MIN, -1, i64::MAX]));
    assert_round_trips(DevProperty::U64Array(vec![0, u64::MAX]));
    assert_round_trips(DevProperty::F32BitsArray(vec![1.5f32.to_bits(), 0]));
    assert_round_trips(DevProperty::F64BitsArray(vec![2.5f64.to_bits(), u64::MAX]));
    assert_round_trips(DevProperty::BoolArray(vec![true, false, true]));
    assert_round_trips(DevProperty::GuidArray(vec![sample_guid()]));
    assert_round_trips(DevProperty::BoolArray(vec![]));
    assert_round_trips(DevProperty::U64Array(vec![]));
}

#[test]
fn round_trips_strings() {
    assert_round_trips(DevProperty::Utf16(vec![]));
    assert_round_trips(DevProperty::Utf16(vec![0x48, 0x69]));
    // An interior zero unit survives: only the trailing terminator is
    // stripped.
    assert_round_trips(DevProperty::Utf16(vec![0x41, 0x00, 0x42]));
    let (tag, bytes) = encode_property(DevProperty::Utf16(vec![0x48, 0x69])).unwrap();
    assert_eq!(tag, DEVPROP_TYPE_STRING);
    assert_eq!(bytes, vec![0x48, 0x00, 0x69, 0x00, 0x00, 0x00]);
}

#[test]
fn encodes_canonical_tags_and_bytes() {
    assert_eq!(
        encode_property(DevProperty::U32(42)),
        Some((DEVPROP_TYPE_UINT32, vec![0x2A, 0, 0, 0]))
    );
    assert_eq!(
        encode_property(DevProperty::Bool(true)),
        Some((DEVPROP_TYPE_BOOLEAN, vec![0xFF]))
    );
    assert_eq!(
        encode_property(DevProperty::Guid(sample_guid())),
        Some((DEVPROP_TYPE_GUID, sample_guid_bytes()))
    );
    assert_eq!(
        encode_property(DevProperty::BoolArray(vec![true, false])),
        Some((DEVPROP_TYPEMOD_ARRAY | DEVPROP_TYPE_BOOLEAN, vec![0xFF, 0x00]))
    );
}

#[test]
fn high_bits_above_the_modifier_are_ignored() {
    // Only the scalar and modifier parts of the type code take part in
    // the dispatch; higher bits do not change the decoding.
    let r = decode_property(0x10011, vec![0x01]);
    assert_eq!(r, Ok(DevProperty::Bool(true)));
}
