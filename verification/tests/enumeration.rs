//! Tests for enumeration contexts, records, and the enumeration state
//! machine, driven by a fake operating-system layer: a pre-recorded
//! sequence of step answers.

use sd_formatter::devdata::{
    DevInterfaceData, InterfaceDescriptor, SPINT_ACTIVE, SPINT_DEFAULT, SPINT_REMOVED,
};
use sd_formatter::devprop::Guid;
use sd_formatter::devset::{
    classify_enum_step, drain_responses, DevInterfaceSet, EnumCursor, EnumPhase, EnumStep,
    DIGCF_ALLCLASSES, DIGCF_DEVICEINTERFACE, DIGCF_PRESENT,
};
use sd_formatter::win::{Error, ERROR_NO_MORE_ITEMS};

fn desc(flags: u32, token: u64) -> InterfaceDescriptor {
    InterfaceDescriptor {
        interface_class: Guid { data1: 1, data2: 2, data3: 3, data4: [4; 8] },
        flags,
        token,
    }
}

#[test]
fn enumeration_yields_all_items_then_ends_cleanly() {
    // The fake layer answers three items, then "no more items".
    let responses = vec![
        EnumStep::Item(desc(1, 10)),
        EnumStep::Item(desc(0, 11)),
        EnumStep::Item(desc(5, 12)),
        EnumStep::End,
    ];
    let (records, fault) = drain_responses(&responses);
    assert_eq!(records.len(), 3);
    assert_eq!(records[0].token, 10);
    assert_eq!(records[1].token, 11);
    assert_eq!(records[2].token, 12);
    assert_eq!(fault, None);
}

#[test]
fn empty_enumeration_yields_nothing() {
    let responses = vec![EnumStep::End];
    let (records, fault) = drain_responses(&responses);
    assert_eq!(records, Vec::new());
    assert_eq!(fault, None);
}

#[test]
fn enumeration_fault_surfaces_once_and_terminates() {
    // The fake layer answers two items, then a platform error; the
    // remaining answers must never be asked for.
    let responses = vec![
        EnumStep::Item(desc(1, 20)),
        EnumStep::Item(desc(1, 21)),
        EnumStep::Fault(31),
        EnumStep::Item(desc(1, 22)),
    ];
    let (records, fault) = drain_responses(&responses);
    assert_eq!(records.len(), 2);
    assert_eq!(records[0].token, 20);
    assert_eq!(records[1].token, 21);
    assert_eq!(fault, Some(Error { code: 31 }));
}

#[test]
fn fault_at_the_first_index_yields_only_the_error() {
    let responses = vec![EnumStep::Fault(5), EnumStep::End];
    let (records, fault) = drain_responses(&responses);
    assert_eq!(records, Vec::new());
    assert_eq!(fault, Some(Error { code: 5 }));
}

#[test]
fn exhausting_the_answers_mid_pass_keeps_what_was_yielded() {
    // The fake layer runs out of answers while the pass is still
    // running: everything yielded so far stands, with no error.
    let responses = vec![EnumStep::Item(desc(0, 1)), EnumStep::Item(desc(0, 2))];
    let (records, fault) = drain_responses(&responses);
    assert_eq!(records.len(), 2);
    assert_eq!(fault, None);
}

#[test]
fn cursor_walks_indices_and_phases() {
    let mut cursor = EnumCursor::new();
    assert_eq!(cursor.next_index, 0);
    assert_eq!(cursor.phase, EnumPhase::Running);

    let y = cursor.advance(EnumStep::Item(desc(0, 7)));
    assert_eq!(y, Some(Ok(desc(0, 7))));
    assert_eq!(cursor.next_index, 1);
    assert_eq!(cursor.phase, EnumPhase::Running);

    let y = cursor.advance(EnumStep::End);
    assert_eq!(y, None);
    assert_eq!(cursor.phase, EnumPhase::Exhausted);
}

#[test]
fn cursor_faults_carry_the_platform_code() {
    let mut cursor = EnumCursor::new();
    let y = cursor.advance(EnumStep::Fault(87));
    assert_eq!(y, Some(Err(Error { code: 87 })));
    assert_eq!(cursor.phase, EnumPhase::Faulted);
}

#[test]
fn step_classification_matches_the_error_design() {
    let d = desc(0, 1);
    assert_eq!(classify_enum_step(true, 0, d), EnumStep::Item(d));
    assert_eq!(classify_enum_step(false, ERROR_NO_MORE_ITEMS, d), EnumStep::End);
    assert_eq!(classify_enum_step(false, 5, d), EnumStep::Fault(5));
}

#[test]
fn context_owns_its_handle_until_the_single_close() {
    let mut set = DevInterfaceSet::from_handle(0x1234, DevInterfaceSet::fetch_present_filter());
    assert_eq!(set.handle(), 0x1234);
    // Records borrow the context; all of them go out of scope before
    // the close below, and the borrow checker refuses any other order.
    {
        let record = DevInterfaceData::from_raw(&set, desc(SPINT_ACTIVE, 9));
        assert_eq!(record.set().handle(), 0x1234);
        assert_eq!(record.descriptor().token, 9);
    }
    let released = set.close();
    assert_eq!(released, 0x1234);
}

#[test]
fn filters_combine_the_documented_flags() {
    assert_eq!(
        DevInterfaceSet::fetch_present_filter(),
        DIGCF_ALLCLASSES | DIGCF_DEVICEINTERFACE | DIGCF_PRESENT
    );
    assert_eq!(
        DevInterfaceSet::fetch_all_filter(),
        DIGCF_ALLCLASSES | DIGCF_DEVICEINTERFACE
    );
    assert_eq!(DevInterfaceSet::fetch_filter(0x8), 0x1C);
}

#[test]
fn status_flags_read_the_descriptor_bits() {
    let set = DevInterfaceSet::from_handle(1, 0);
    let record = DevInterfaceData::from_raw(&set, desc(SPINT_ACTIVE | SPINT_REMOVED, 0));
    assert!(record.is_active());
    assert!(!record.is_default());
    assert!(record.is_removed());

    let record = DevInterfaceData::from_raw(&set, desc(SPINT_DEFAULT, 0));
    assert!(!record.is_active());
    assert!(record.is_default());
    assert!(!record.is_removed());

    let record = DevInterfaceData::from_raw(&set, desc(0, 0));
    assert!(!record.is_active() && !record.is_default() && !record.is_removed());
}
