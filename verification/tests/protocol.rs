//! Tests for the buffer-sizing protocol, the error model, and the
//! property descriptor resolver.

use sd_formatter::alloc_buffer;
use sd_formatter::devdata::properties::Property;
use sd_formatter::devdata::{decode_path, decode_property_keys};
use sd_formatter::devprop::codec::DecodeFault;
use sd_formatter::devprop::{DevProperty, Guid, PropertyKey, DEVPROP_TYPE_UINT32};
use sd_formatter::sizing::{
    check_fetch, plan_fetch, strip_header, FetchVerdict, QueryOutcome, SizingStep,
};
use sd_formatter::win::{Error, ERROR_INSUFFICIENT_BUFFER, ERROR_NO_MORE_ITEMS};

#[test]
fn probe_failing_with_insufficient_buffer_fetches_reported_size() {
    let step = plan_fetch(QueryOutcome::Failed(ERROR_INSUFFICIENT_BUFFER), 64);
    assert_eq!(step, SizingStep::Fetch(64));
}

#[test]
fn probe_failing_with_other_code_is_a_platform_error() {
    let step = plan_fetch(QueryOutcome::Failed(5), 64);
    assert_eq!(step, SizingStep::Fail(Error { code: 5 }));
}

#[test]
fn probe_success_is_a_protocol_violation() {
    let step = plan_fetch(QueryOutcome::Succeeded, 64);
    assert_eq!(step, SizingStep::Violation);
}

#[test]
fn allocated_buffer_has_exactly_the_probed_size() {
    let step = plan_fetch(QueryOutcome::Failed(ERROR_INSUFFICIENT_BUFFER), 48);
    match step {
        SizingStep::Fetch(size) => {
            let buf = alloc_buffer(size as usize);
            assert_eq!(buf.len(), 48);
            assert!(buf.iter().all(|b| *b == 0));
        }
        _ => unreachable!(),
    }
}

#[test]
fn fetch_confirming_the_size_is_complete() {
    let v = check_fetch(64, QueryOutcome::Succeeded, 64);
    assert_eq!(v, FetchVerdict::Complete);
}

#[test]
fn fetch_size_mismatch_is_a_violation_not_a_truncated_read() {
    let v = check_fetch(64, QueryOutcome::Succeeded, 60);
    assert_eq!(v, FetchVerdict::Violation);
    let v = check_fetch(64, QueryOutcome::Succeeded, 68);
    assert_eq!(v, FetchVerdict::Violation);
}

#[test]
fn fetch_failure_is_a_platform_error() {
    let v = check_fetch(64, QueryOutcome::Failed(1453), 0);
    assert_eq!(v, FetchVerdict::Fail(Error { code: 1453 }));
}

#[test]
fn strip_header_leaves_the_payload() {
    let buf = vec![1, 2, 3, 4, 5, 6];
    assert_eq!(strip_header(buf, 4), vec![5, 6]);
    assert_eq!(strip_header(vec![9, 9], 2), Vec::<u8>::new());
}

#[test]
fn error_codes_are_recognized_by_exact_match() {
    assert!(Error::new(ERROR_INSUFFICIENT_BUFFER).is_insufficient_buffer());
    assert!(!Error::new(ERROR_NO_MORE_ITEMS).is_insufficient_buffer());
    assert!(Error::new(ERROR_NO_MORE_ITEMS).is_no_more_items());
    assert!(!Error::new(0).is_no_more_items());
    assert_eq!(ERROR_INSUFFICIENT_BUFFER, 122);
    assert_eq!(ERROR_NO_MORE_ITEMS, 259);
}

fn sample_key() -> PropertyKey {
    PropertyKey {
        fmtid: Guid {
            data1: 0x4d1ebee8,
            data2: 0x0803,
            data3: 0x4774,
            data4: [0x98, 0x42, 0xb7, 0x7d, 0xb5, 0x02, 0x65, 0xe9],
        },
        pid: 5,
    }
}

#[test]
fn resolver_records_tag_and_size_from_the_probe() {
    let key = sample_key();
    let r = Property::resolve(key, QueryOutcome::Failed(ERROR_INSUFFICIENT_BUFFER), 7, 4);
    assert_eq!(r, Ok(Property { key, ty: 7, size: 4 }));
}

#[test]
fn resolver_surfaces_unrecognized_keys_as_platform_errors() {
    let key = sample_key();
    let r = Property::resolve(key, QueryOutcome::Failed(1168), 0, 0);
    assert_eq!(r, Err(Error { code: 1168 }));
}

#[test]
fn descriptor_confirms_only_matching_fetch_answers() {
    let p = Property { key: sample_key(), ty: 7, size: 4 };
    assert!(p.confirms(7, 4));
    assert!(!p.confirms(7, 8));
    assert!(!p.confirms(18, 4));
}

#[test]
fn described_property_decodes_under_its_recorded_tag() {
    let p = Property { key: sample_key(), ty: DEVPROP_TYPE_UINT32, size: 4 };
    let r = p.decode_value(vec![0x2A, 0x00, 0x00, 0x00]);
    assert_eq!(r, Ok(DevProperty::U32(42)));
}

#[test]
fn path_decoding_strips_header_and_terminator() {
    // Four header bytes, then "X" in UTF-16 and the terminator.
    let buf = vec![6, 0, 0, 0, 0x58, 0x00, 0x00, 0x00];
    assert_eq!(decode_path(buf), Ok(vec![0x58]));
}

#[test]
fn path_without_terminator_is_a_fault() {
    let buf = vec![6, 0, 0, 0, 0x58, 0x00];
    assert_eq!(decode_path(buf), Err(DecodeFault::StringTermination));
}

#[test]
fn key_list_decodes_fixed_width_records() {
    let mut raw = Vec::new();
    // One key: the sample identifier, then property id 5.
    raw.extend(vec![0xe8, 0xbe, 0x1e, 0x4d, 0x03, 0x08, 0x74, 0x47]);
    raw.extend(vec![0x98, 0x42, 0xb7, 0x7d, 0xb5, 0x02, 0x65, 0xe9]);
    raw.extend(vec![0x05, 0x00, 0x00, 0x00]);
    let keys = decode_property_keys(&raw).unwrap();
    assert_eq!(keys, vec![sample_key()]);

    let mut two = raw.clone();
    two.extend(raw);
    let keys = decode_property_keys(&two).unwrap();
    assert_eq!(keys.len(), 2);
    assert_eq!(keys[0], keys[1]);
}

#[test]
fn mis_sized_key_list_is_a_fault() {
    assert_eq!(decode_property_keys(&vec![0; 21]), Err(DecodeFault::ArrayRemainder));
    assert_eq!(decode_property_keys(&vec![0; 19]), Err(DecodeFault::ArrayRemainder));
}

#[test]
fn empty_key_list_decodes_to_no_keys() {
    assert_eq!(decode_property_keys(&Vec::new()), Ok(Vec::new()));
}
