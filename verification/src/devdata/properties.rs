//! Property descriptors: the metadata one size probe returns for a
//! property, consumed by exactly one value fetch.
//!
//! The resolver runs the probe phase of the buffer-sizing protocol
//! against the property query and records the property's runtime type
//! tag and byte size. The later value fetch must hand back the same tag
//! and size; any mismatch means the protocol was corrupted and the
//! bytes must not be interpreted.

use vstd::prelude::*;

use crate::devprop::codec::decode_property;
use crate::devprop::codec::spec_decode;
use crate::devprop::codec::view_decoded;
use crate::devprop::codec::DecodeFault;
use crate::devprop::DevProperty;
use crate::devprop::PropertyKey;
use crate::sizing::QueryOutcome;
use crate::win::Error;
use crate::win::ERROR_INSUFFICIENT_BUFFER;

verus! {

/// A device-interface property and its metadata: the queried key, the
/// runtime type tag, and the exact byte length of the pending value.
/// Transient: produced by one probe, consumed by one fetch.
#[derive(Clone, Copy, Debug, PartialEq)]
pub struct Property {
    /// The key this property was queried under.
    pub key: PropertyKey,
    /// The runtime type tag of the value.
    pub ty: u32,
    /// The byte length of the value.
    pub size: u32,
}

impl Property {
    /// Resolves a descriptor from the probe phase of the buffer-sizing
    /// protocol: the probe is expected to fail with the "insufficient
    /// buffer" signal, in which case the reported tag and size describe
    /// the pending value; any other failure code means the key is not
    /// recognized for this record and is the caller's platform error.
    ///
    /// A probe that succeeds violates the protocol (a zero-sized probe
    /// must never succeed) and is left out by the precondition; the
    /// caller must treat it as fatal before resolving.
    pub fn resolve(key: PropertyKey, probe: QueryOutcome, ty: u32, reported_size: u32) -> (r:
        Result<Property, Error>)
        requires
            !(probe is Succeeded),
        ensures
            probe == QueryOutcome::Failed(ERROR_INSUFFICIENT_BUFFER) ==> r == Ok::<Property, Error>(
                Property { key, ty, size: reported_size },
            ),
            probe matches QueryOutcome::Failed(code) ==> (code != ERROR_INSUFFICIENT_BUFFER ==> r
                == Err::<Property, Error>(Error { code })),
    {
        match probe {
            QueryOutcome::Succeeded => Err(Error { code: 0 }),
            QueryOutcome::Failed(code) => {
                if code == ERROR_INSUFFICIENT_BUFFER {
                    Ok(Property { key, ty, size: reported_size })
                } else {
                    Err(Error { code })
                }
            },
        }
    }

    /// Whether the tag and size the value fetch reported equal the ones
    /// this descriptor recorded. False means protocol corruption: the
    /// fetched bytes must not be decoded.
    pub fn confirms(&self, fetched_ty: u32, fetched_size: u32) -> (ok: bool)
        ensures
            ok == (fetched_ty == self.ty && fetched_size == self.size),
    {
        fetched_ty == self.ty && fetched_size == self.size
    }

    /// Decodes the fetched value bytes of this property under its
    /// recorded type tag. The buffer must be exactly the recorded size
    /// — the caller has already confirmed the fetch against the
    /// descriptor.
    pub fn decode_value(&self, raw: Vec<u8>) -> (r: Result<DevProperty, DecodeFault>)
        requires
            raw@.len() == self.size,
        ensures
            view_decoded(r) == spec_decode(self.ty, raw@),
    {
        decode_property(self.ty, raw)
    }
}

} // verus!
