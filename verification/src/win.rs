//! Platform error model.
//!
//! Every operating-system query either succeeds or fails with a numeric
//! error code. Two codes are not failures but branches of normal control
//! flow and are recognized by exact match before anything else:
//! "insufficient buffer" during a size probe, and "no more items" during
//! enumeration.

use vstd::prelude::*;

verus! {

/// Error code reported by a size probe that was handed a zero-sized
/// destination buffer; the expected outcome of the probe phase.
pub const ERROR_INSUFFICIENT_BUFFER: u32 = 122;

/// Error code reported by an enumeration step past the last item; the
/// normal end of an enumeration, not a failure.
pub const ERROR_NO_MORE_ITEMS: u32 = 259;

/// A platform error: the numeric code of a failed operating-system call.
#[derive(Clone, Copy, Debug, PartialEq, Eq, Structural)]
pub struct Error {
    pub code: u32,
}

impl Error {
    /// Whether this code is the "insufficient buffer" signal.
    pub open spec fn spec_is_insufficient_buffer(self) -> bool {
        self.code == ERROR_INSUFFICIENT_BUFFER
    }

    /// Whether this code is the "no more items" signal.
    pub open spec fn spec_is_no_more_items(self) -> bool {
        self.code == ERROR_NO_MORE_ITEMS
    }

    pub fn new(code: u32) -> (e: Error)
        ensures
            e.code == code,
    {
        Error { code }
    }

    pub fn is_insufficient_buffer(&self) -> (r: bool)
        ensures
            r == self.spec_is_insufficient_buffer(),
    {
        self.code == ERROR_INSUFFICIENT_BUFFER
    }

    pub fn is_no_more_items(&self) -> (r: bool)
        ensures
            r == self.spec_is_no_more_items(),
    {
        self.code == ERROR_NO_MORE_ITEMS
    }
}

} // verus!
