//! Interface records: one enumerated device interface each, borrowed
//! from the enumeration context that produced it.
//!
//! A record wraps the fixed-size descriptor blob that one enumeration
//! step filled in — status bit-flags plus an opaque per-item token —
//! together with a borrow of its context, so a record can never outlive
//! the context or be used after the context is closed.
//!
//! The record's variable-length queries (its path, its list of property
//! keys) run the buffer-sizing protocol outside this crate and hand the
//! fetched bytes to the decoders here.

use vstd::prelude::*;

pub mod properties;

use crate::devprop::codec::decode_utf16_units;
use crate::devprop::codec::guid_from_bytes;
use crate::devprop::codec::read_guid;
use crate::devprop::codec::spec_utf16_units;
use crate::devprop::codec::DecodeFault;
use crate::devprop::Guid;
use crate::devprop::PropertyKey;
use crate::devprop::PropertyKeyModel;
use crate::devset::DevInterfaceSet;
use crate::sizing::strip_header;
use crate::wire::read_u32;
use crate::wire::u32_from_bytes;

verus! {

// Documented values of the descriptor's status bit-flags.

pub const SPINT_ACTIVE: u32 = 0x1;
pub const SPINT_DEFAULT: u32 = 0x2;
pub const SPINT_REMOVED: u32 = 0x4;

/// The number of bytes of fixed header before the path in a fetched
/// detail buffer.
pub const DETAIL_HEADER_LEN: usize = 4;

/// The wire size of one property key: a 128-bit namespace identifier
/// followed by a 32-bit property identifier.
pub const PROPERTY_KEY_WIRE_LEN: usize = 20;

/// Whether a flags word contains all the bits of `flag`.
pub open spec fn spec_has_flags(flags: u32, flag: u32) -> bool {
    flags & flag == flag
}

/// The fixed-size descriptor blob that one enumeration step fills in.
#[derive(Clone, Copy, Debug, PartialEq)]
pub struct InterfaceDescriptor {
    /// The class identifier of the enumerated interface.
    pub interface_class: Guid,
    /// Status bit-flags: active, default-for-class, removed.
    pub flags: u32,
    /// An opaque per-item token understood only by the operating
    /// system.
    pub token: u64,
}

/// One enumerated device interface: its descriptor, plus a borrow of
/// the enumeration context it came from. Valid only while that context
/// is alive and open; immutable once created.
pub struct DevInterfaceData<'a> {
    /// The context this record was enumerated from.
    set: &'a DevInterfaceSet,
    /// The descriptor the enumeration step returned.
    desc: InterfaceDescriptor,
}

impl<'a> DevInterfaceData<'a> {
    pub closed spec fn spec_desc(self) -> InterfaceDescriptor {
        self.desc
    }

    pub closed spec fn spec_set(self) -> DevInterfaceSet {
        *self.set
    }

    /// Wraps a descriptor returned by an enumeration step on `set`,
    /// which must still be open.
    pub fn from_raw(set: &'a DevInterfaceSet, desc: InterfaceDescriptor) -> (d: Self)
        requires
            set.is_open(),
        ensures
            d.spec_desc() == desc,
            d.spec_set() == *set,
            d.spec_set().is_open(),
    {
        DevInterfaceData { set, desc }
    }

    /// The context this record borrows.
    pub fn set(&self) -> (s: &'a DevInterfaceSet)
        ensures
            *s == self.spec_set(),
    {
        self.set
    }

    /// The descriptor the enumeration step returned.
    pub fn descriptor(&self) -> (d: InterfaceDescriptor)
        ensures
            d == self.spec_desc(),
    {
        self.desc
    }

    /// Whether the descriptor's flags contain the given flag (or
    /// flags).
    fn is(&self, flag: u32) -> (r: bool)
        ensures
            r == spec_has_flags(self.spec_desc().flags, flag),
    {
        (self.desc.flags & flag) == flag
    }

    /// Whether the device interface described by this record is active.
    pub fn is_active(&self) -> (r: bool)
        ensures
            r == spec_has_flags(self.spec_desc().flags, SPINT_ACTIVE),
    {
        self.is(SPINT_ACTIVE)
    }

    /// Whether the device interface described by this record is the
    /// default for its class.
    pub fn is_default(&self) -> (r: bool)
        ensures
            r == spec_has_flags(self.spec_desc().flags, SPINT_DEFAULT),
    {
        self.is(SPINT_DEFAULT)
    }

    /// Whether the device interface described by this record has been
    /// removed.
    pub fn is_removed(&self) -> (r: bool)
        ensures
            r == spec_has_flags(self.spec_desc().flags, SPINT_REMOVED),
    {
        self.is(SPINT_REMOVED)
    }
}

/// The path carried by a fetched detail buffer: everything after the
/// fixed header, read as a terminated UTF-16 string.
pub open spec fn spec_path_of(buf: Seq<u8>) -> Result<Seq<u16>, DecodeFault> {
    spec_utf16_units(buf.skip(DETAIL_HEADER_LEN as int))
}

/// Extracts the path from a fetched detail buffer: strips the fixed
/// header, then reads the payload as UTF-16 code units and drops the
/// trailing terminator.
pub fn decode_path(buf: Vec<u8>) -> (r: Result<Vec<u16>, DecodeFault>)
    requires
        DETAIL_HEADER_LEN <= buf@.len(),
    ensures
        match r {
            Ok(path) => spec_path_of(buf@) == Ok::<Seq<u16>, DecodeFault>(path@),
            Err(e) => spec_path_of(buf@) == Err::<Seq<u16>, DecodeFault>(e),
        },
{
    let ghost whole = buf@;
    let payload = strip_header(buf, DETAIL_HEADER_LEN);
    proof {
        assert(payload@ =~= whole.skip(DETAIL_HEADER_LEN as int));
    }
    decode_utf16_units(&payload)
}

/// The property keys carried by a fetched key-list buffer: consecutive
/// fixed-width records, each a namespace identifier followed by a
/// property identifier.
pub open spec fn spec_keys_of(s: Seq<u8>) -> Seq<PropertyKeyModel>
    recommends
        s.len() % PROPERTY_KEY_WIRE_LEN as nat == 0,
{
    Seq::new(
        (s.len() / PROPERTY_KEY_WIRE_LEN as nat) as nat,
        |i: int|
            PropertyKeyModel {
                fmtid: guid_from_bytes(s.subrange(20 * i, 20 * i + 16)),
                pid: u32_from_bytes(s[20 * i + 16], s[20 * i + 17], s[20 * i + 18], s[20 * i + 19]),
            },
    )
}

/// Decodes a fetched key-list buffer into property keys. A byte length
/// that is not an exact multiple of the key's wire size is a decode
/// fault, never a partially-read list.
pub fn decode_property_keys(raw: &Vec<u8>) -> (r: Result<Vec<PropertyKey>, DecodeFault>)
    ensures
        raw@.len() % PROPERTY_KEY_WIRE_LEN as nat == 0 ==> (r matches Ok(ks)
            && ks@.map_values(|k: PropertyKey| k@) == spec_keys_of(raw@)),
        raw@.len() % PROPERTY_KEY_WIRE_LEN as nat != 0 ==> r == Err::<Vec<PropertyKey>, DecodeFault>(
            DecodeFault::ArrayRemainder,
        ),
{
    if raw.len() % PROPERTY_KEY_WIRE_LEN != 0 {
        return Err(DecodeFault::ArrayRemainder);
    }
    let n = raw.len() / PROPERTY_KEY_WIRE_LEN;
    let mut out: Vec<PropertyKey> = Vec::new();
    let mut i: usize = 0;
    while i < n
        invariant
            raw@.len() % PROPERTY_KEY_WIRE_LEN as nat == 0,
            raw@.len() <= usize::MAX,
            n == raw@.len() / PROPERTY_KEY_WIRE_LEN as nat,
            i <= n,
            out@.len() == i,
            forall|j: int|
                0 <= j < i ==> out@.map_values(|k: PropertyKey| k@)[j] == spec_keys_of(raw@)[j],
        decreases n - i,
    {
        let fmtid = read_guid(raw, 20 * i);
        let pid = read_u32(
            raw[20 * i + 16],
            raw[20 * i + 17],
            raw[20 * i + 18],
            raw[20 * i + 19],
        );
        out.push(PropertyKey { fmtid, pid });
        i = i + 1;
    }
    assert(out@.map_values(|k: PropertyKey| k@) =~= spec_keys_of(raw@));
    Ok(out)
}

} // verus!
