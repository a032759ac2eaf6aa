//! A model of an operating system's plug-and-play device-interface query
//! protocol: enumeration of device interfaces, the two-phase buffer-sizing
//! convention used by every variable-length query, and the decoding of
//! loosely-typed property buffers into strongly-typed values.
//!
//! The operating-system calls themselves are performed by the surrounding
//! application; this crate holds the protocol decisions, the wire-format
//! codec, and their proofs.

use vstd::prelude::*;

pub mod devdata;
pub mod devprop;
pub mod devset;
pub mod sizing;
pub mod win;
pub mod wire;

verus! {

/// Allocates a zero-initialized byte buffer of exactly `size` bytes.
///
/// Every variable-length query allocates its destination buffer through
/// this function, so the allocated length is exactly the length that the
/// size probe reported.
pub fn alloc_buffer(size: usize) -> (buf: Vec<u8>)
    requires
        size > 0,
    ensures
        buf@.len() == size,
        forall|i: int| 0 <= i < buf@.len() ==> buf@[i] == 0u8,
{
    let mut buf: Vec<u8> = Vec::new();
    let mut n: usize = 0;
    while n < size
        invariant
            n <= size,
            buf@.len() == n,
            forall|i: int| 0 <= i < buf@.len() ==> buf@[i] == 0u8,
        decreases size - n,
    {
        buf.push(0u8);
        n = n + 1;
    }
    buf
}

} // verus!
