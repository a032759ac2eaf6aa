//! The two-phase buffer-sizing protocol.
//!
//! Every variable-length query follows the same convention: a first
//! call with a zero-sized destination buffer asks only for the required
//! size and is expected to fail with the distinguished "insufficient
//! buffer" code; the caller then allocates exactly the reported size
//! and calls again; the second call must succeed and must report the
//! same size it was handed. Any departure — a probe that succeeds, or a
//! second answer that contradicts the first — is a protocol violation
//! after which the buffer must not be interpreted.
//!
//! The operating-system calls themselves happen outside this crate;
//! this module holds the decisions between them, so every caller of the
//! protocol takes the same verified branches.

use vstd::prelude::*;

use crate::win::Error;
use crate::win::ERROR_INSUFFICIENT_BUFFER;

verus! {

/// The outcome of one operating-system query call: it either succeeded
/// or failed with a platform error code.
#[derive(Clone, Copy, Debug, PartialEq, Eq, Structural)]
pub enum QueryOutcome {
    Succeeded,
    Failed(u32),
}

/// What the protocol does after the size probe.
#[derive(Clone, Copy, Debug, PartialEq, Eq, Structural)]
pub enum SizingStep {
    /// The probe failed with the expected "insufficient buffer" signal:
    /// allocate exactly this many bytes and fetch.
    Fetch(u32),
    /// The probe failed with any other code: a platform error for the
    /// caller to surface.
    Fail(Error),
    /// The probe succeeded, which a zero-sized probe must never do: the
    /// protocol was violated and the query must not continue.
    Violation,
}

/// What the protocol concludes from the second, fetching call.
#[derive(Clone, Copy, Debug, PartialEq, Eq, Structural)]
pub enum FetchVerdict {
    /// The fetch succeeded and confirmed the probed size: the buffer is
    /// fully populated.
    Complete,
    /// The fetch failed: a platform error for the caller to surface.
    Fail(Error),
    /// The fetch succeeded but reported a size other than the one
    /// requested: the two answers contradict each other and the buffer
    /// must not be interpreted.
    Violation,
}

/// The decision after the size probe, in spec form.
pub open spec fn spec_plan_fetch(probe: QueryOutcome, reported_size: u32) -> SizingStep {
    match probe {
        QueryOutcome::Succeeded => SizingStep::Violation,
        QueryOutcome::Failed(code) => if code == ERROR_INSUFFICIENT_BUFFER {
            SizingStep::Fetch(reported_size)
        } else {
            SizingStep::Fail(Error { code })
        },
    }
}

/// The decision after the fetching call, in spec form. `requested` is
/// the size the probe reported and the buffer was allocated with;
/// `confirmed_size` is the size the fetching call reported back.
pub open spec fn spec_check_fetch(
    requested: u32,
    outcome: QueryOutcome,
    confirmed_size: u32,
) -> FetchVerdict {
    match outcome {
        QueryOutcome::Succeeded => if confirmed_size == requested {
            FetchVerdict::Complete
        } else {
            FetchVerdict::Violation
        },
        QueryOutcome::Failed(code) => FetchVerdict::Fail(Error { code }),
    }
}

/// Decides what follows the size probe: fetch with exactly the reported
/// size, surface a platform error, or stop on a protocol violation.
pub fn plan_fetch(probe: QueryOutcome, reported_size: u32) -> (step: SizingStep)
    ensures
        step == spec_plan_fetch(probe, reported_size),
{
    match probe {
        QueryOutcome::Succeeded => SizingStep::Violation,
        QueryOutcome::Failed(code) => {
            if code == ERROR_INSUFFICIENT_BUFFER {
                SizingStep::Fetch(reported_size)
            } else {
                SizingStep::Fail(Error { code })
            }
        },
    }
}

/// Decides what the fetching call's outcome means: complete, a platform
/// error, or a violation when its reported size contradicts the probe.
pub fn check_fetch(requested: u32, outcome: QueryOutcome, confirmed_size: u32) -> (v: FetchVerdict)
    ensures
        v == spec_check_fetch(requested, outcome, confirmed_size),
{
    match outcome {
        QueryOutcome::Succeeded => {
            if confirmed_size == requested {
                FetchVerdict::Complete
            } else {
                FetchVerdict::Violation
            }
        },
        QueryOutcome::Failed(code) => FetchVerdict::Fail(Error { code }),
    }
}

/// Strips a fixed-size leading header from a fetched buffer, leaving
/// only the logical payload.
pub fn strip_header(buf: Vec<u8>, header_len: usize) -> (payload: Vec<u8>)
    requires
        header_len <= buf@.len(),
    ensures
        payload@ == buf@.subrange(header_len as int, buf@.len() as int),
{
    let mut payload: Vec<u8> = Vec::new();
    let mut i: usize = header_len;
    while i < buf.len()
        invariant
            header_len <= i <= buf@.len(),
            payload@ == buf@.subrange(header_len as int, i as int),
        decreases buf@.len() - i,
    {
        payload.push(buf[i]);
        proof {
            assert(buf@.subrange(header_len as int, i + 1) =~= buf@.subrange(
                header_len as int,
                i as int,
            ).push(buf@[i as int]));
        }
        i = i + 1;
    }
    payload
}

/// The buffer-sizing protocol is exact: the protocol only ever fetches
/// with the size the probe reported — and the buffer it fetches into is
/// allocated with exactly that size — it fetches exactly when the probe
/// failed with the "insufficient buffer" signal, and a second call that
/// succeeds while reporting any other size is a violation, never a
/// silently truncated read.
pub proof fn lemma_sizing_protocol_exact(
    probe: QueryOutcome,
    reported_size: u32,
    outcome: QueryOutcome,
    confirmed_size: u32,
)
    ensures
        spec_plan_fetch(probe, reported_size) matches SizingStep::Fetch(n) ==> n == reported_size,
        spec_plan_fetch(probe, reported_size) is Fetch <==> probe == QueryOutcome::Failed(
            ERROR_INSUFFICIENT_BUFFER,
        ),
        spec_check_fetch(reported_size, outcome, confirmed_size) is Complete <==> (outcome
            is Succeeded && confirmed_size == reported_size),
        outcome is Succeeded && confirmed_size != reported_size ==> spec_check_fetch(
            reported_size,
            outcome,
            confirmed_size,
        ) is Violation,
{
}

} // verus!
