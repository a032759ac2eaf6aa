//! Enumeration contexts and the enumeration state machine.
//!
//! A [`DevInterfaceSet`] owns one operating-system enumeration handle,
//! scoped by filter flags, from its creation until its single explicit
//! [`close`](DevInterfaceSet::close). Every operation on the set or on
//! a record borrowed from it requires the set to still be open, and
//! closing requires it too, so a verified caller can neither use a
//! closed handle nor release it twice.
//!
//! Enumeration asks the operating system for the interface at index 0,
//! 1, 2, ... in turn. Each answer is an [`EnumStep`]: an interface
//! descriptor, the distinguished "no more items" code that ends the
//! sequence cleanly, or a platform error that is surfaced once and also
//! ends the sequence, since later indices are not trusted after an
//! unexpected failure.

use vstd::pervasive::arbitrary;
use vstd::prelude::*;

use crate::devdata::InterfaceDescriptor;
use crate::win::Error;
use crate::win::ERROR_NO_MORE_ITEMS;

verus! {

// Documented values of the enumeration filter flags.

pub const DIGCF_DEFAULT: u32 = 0x1;
pub const DIGCF_PRESENT: u32 = 0x2;
pub const DIGCF_ALLCLASSES: u32 = 0x4;
pub const DIGCF_PROFILE: u32 = 0x8;
pub const DIGCF_DEVICEINTERFACE: u32 = 0x10;

/// An enumeration context: the owner of one operating-system
/// enumeration handle and the filter it was requested with.
///
/// The handle is valid from successful creation until the single call
/// to [`close`](Self::close); records borrow the context, so the borrow
/// checker keeps them from outliving it. The context is not `Send` or
/// `Sync` (it holds no sharing machinery), matching a handle that must
/// stay on the thread that created it.
#[derive(Debug)]
pub struct DevInterfaceSet {
    /// The opaque handle value the operating system returned.
    handle: u64,
    /// The filter flags the enumeration was requested with.
    filter: u32,
    /// Whether the single destruction has happened.
    closed: bool,
}

impl DevInterfaceSet {
    pub closed spec fn spec_handle(self) -> u64 {
        self.handle
    }

    pub closed spec fn spec_filter(self) -> u32 {
        self.filter
    }

    /// Whether the handle is still owned: true from creation until the
    /// single close.
    pub closed spec fn is_open(self) -> bool {
        !self.closed
    }

    /// The filter used for a fetch of all device-interface classes with
    /// the given additional flags.
    pub fn fetch_filter(additional_flags: u32) -> (f: u32)
        ensures
            f == (DIGCF_ALLCLASSES | DIGCF_DEVICEINTERFACE | additional_flags),
    {
        DIGCF_ALLCLASSES | DIGCF_DEVICEINTERFACE | additional_flags
    }

    /// The filter for a fetch of the interfaces currently present.
    pub fn fetch_present_filter() -> (f: u32)
        ensures
            f == (DIGCF_ALLCLASSES | DIGCF_DEVICEINTERFACE | DIGCF_PRESENT),
    {
        Self::fetch_filter(DIGCF_PRESENT)
    }

    /// The filter for a fetch of all interfaces, present or not.
    pub fn fetch_all_filter() -> (f: u32)
        ensures
            f == (DIGCF_ALLCLASSES | DIGCF_DEVICEINTERFACE | 0),
    {
        Self::fetch_filter(0)
    }

    /// Takes ownership of a handle the operating system returned for an
    /// open-enumeration request with the given filter.
    pub fn from_handle(handle: u64, filter: u32) -> (s: Self)
        ensures
            s.is_open(),
            s.spec_handle() == handle,
            s.spec_filter() == filter,
    {
        DevInterfaceSet { handle, filter, closed: false }
    }

    /// The owned handle, for handing to an operating-system call.
    pub fn handle(&self) -> (h: u64)
        requires
            self.is_open(),
        ensures
            h == self.spec_handle(),
    {
        self.handle
    }

    /// Releases ownership of the handle, exactly once: a second close,
    /// or any later use of the set, fails verification. Returns the
    /// handle so the surrounding application can destroy the
    /// operating-system resource.
    pub fn close(&mut self) -> (h: u64)
        requires
            old(self).is_open(),
        ensures
            !final(self).is_open(),
            h == old(self).spec_handle(),
            final(self).spec_handle() == old(self).spec_handle(),
            final(self).spec_filter() == old(self).spec_filter(),
    {
        self.closed = true;
        self.handle
    }
}

/// One answer of the operating system to an indexed enumeration step.
#[derive(Clone, Copy, Debug, PartialEq)]
pub enum EnumStep {
    /// The step succeeded and filled in an interface descriptor.
    Item(InterfaceDescriptor),
    /// The step failed with the distinguished "no more items" code:
    /// normal exhaustion, not an error.
    End,
    /// The step failed with any other platform error code.
    Fault(u32),
}

/// The descriptor of an `Item` step.
pub open spec fn spec_step_item(s: EnumStep) -> InterfaceDescriptor
    recommends
        s is Item,
{
    match s {
        EnumStep::Item(d) => d,
        _ => arbitrary(),
    }
}

/// Classifies one raw enumeration-step outcome, exactly as the error
/// design asks: the distinguished code is recognized by exact match
/// before anything else, and every other failure is a platform error.
pub fn classify_enum_step(succeeded: bool, last_error: u32, desc: InterfaceDescriptor) -> (s:
    EnumStep)
    ensures
        succeeded ==> s == EnumStep::Item(desc),
        !succeeded && last_error == ERROR_NO_MORE_ITEMS ==> s == EnumStep::End,
        !succeeded && last_error != ERROR_NO_MORE_ITEMS ==> s == EnumStep::Fault(last_error),
{
    if succeeded {
        EnumStep::Item(desc)
    } else if last_error == ERROR_NO_MORE_ITEMS {
        EnumStep::End
    } else {
        EnumStep::Fault(last_error)
    }
}

/// What an enumeration yields, given the operating system's answer for
/// each index in turn: the records up to the first exhaustion, which
/// ends the sequence with nothing more, or up to the first fault, which
/// is surfaced as one error element and also ends the sequence.
pub open spec fn spec_enum_yield(responses: Seq<EnumStep>) -> Seq<Result<InterfaceDescriptor, Error>>
    decreases responses.len(),
{
    if responses.len() == 0 {
        Seq::empty()
    } else {
        match responses[0] {
            EnumStep::Item(d) => seq![Ok::<InterfaceDescriptor, Error>(d)] + spec_enum_yield(
                responses.drop_first(),
            ),
            EnumStep::End => Seq::empty(),
            EnumStep::Fault(code) => seq![Err::<InterfaceDescriptor, Error>(Error { code })],
        }
    }
}

/// The yield of an all-items prefix: the first `m` answers, all items,
/// appear in order, followed by whatever the rest yields.
pub proof fn lemma_enum_yield_prefix(responses: Seq<EnumStep>, m: int)
    requires
        0 <= m <= responses.len(),
        forall|i: int| 0 <= i < m ==> responses[i] is Item,
    ensures
        spec_enum_yield(responses) == Seq::new(
            m as nat,
            |i: int| Ok::<InterfaceDescriptor, Error>(spec_step_item(responses[i])),
        ) + spec_enum_yield(responses.skip(m)),
    decreases m,
{
    let items = Seq::new(
        m as nat,
        |i: int| Ok::<InterfaceDescriptor, Error>(spec_step_item(responses[i])),
    );
    if m == 0 {
        assert(responses.skip(0) =~= responses);
        assert(items + spec_enum_yield(responses) =~= spec_enum_yield(responses));
    } else {
        let rest = responses.drop_first();
        assert(responses[0] is Item);
        lemma_enum_yield_prefix(rest, m - 1);
        let rest_items = Seq::new(
            (m - 1) as nat,
            |i: int| Ok::<InterfaceDescriptor, Error>(spec_step_item(rest[i])),
        );
        assert(rest.skip(m - 1) =~= responses.skip(m));
        assert(items =~= seq![
            Ok::<InterfaceDescriptor, Error>(spec_step_item(responses[0])),
        ] + rest_items);
        assert(spec_enum_yield(responses) =~= items + spec_enum_yield(responses.skip(m)));
    }
}

/// Enumeration termination: if the operating system answers `n`
/// successful items and then "no more items", the enumeration yields
/// exactly those `n` records, in order, and no error.
pub proof fn lemma_enumeration_terminates(responses: Seq<EnumStep>, n: int)
    requires
        0 <= n < responses.len(),
        forall|i: int| 0 <= i < n ==> responses[i] is Item,
        responses[n] is End,
    ensures
        spec_enum_yield(responses) == Seq::new(
            n as nat,
            |i: int| Ok::<InterfaceDescriptor, Error>(spec_step_item(responses[i])),
        ),
{
    lemma_enum_yield_prefix(responses, n);
    assert(responses.skip(n)[0] is End);
    assert(spec_enum_yield(responses.skip(n)) =~= Seq::empty());
    assert(Seq::new(
        n as nat,
        |i: int| Ok::<InterfaceDescriptor, Error>(spec_step_item(responses[i])),
    ) + Seq::empty() =~= Seq::new(
        n as nat,
        |i: int| Ok::<InterfaceDescriptor, Error>(spec_step_item(responses[i])),
    ));
}

/// Enumeration fault: if the operating system answers `k` successful
/// items and then fails with a platform error, the enumeration yields
/// exactly those `k` records followed by exactly one error element
/// carrying that code, and then terminates.
pub proof fn lemma_enumeration_faults(responses: Seq<EnumStep>, k: int, code: u32)
    requires
        0 <= k < responses.len(),
        forall|i: int| 0 <= i < k ==> responses[i] is Item,
        responses[k] == EnumStep::Fault(code),
    ensures
        spec_enum_yield(responses) == Seq::new(
            k as nat,
            |i: int| Ok::<InterfaceDescriptor, Error>(spec_step_item(responses[i])),
        ) + seq![Err::<InterfaceDescriptor, Error>(Error { code })],
{
    lemma_enum_yield_prefix(responses, k);
    assert(responses.skip(k)[0] == EnumStep::Fault(code));
    assert(spec_enum_yield(responses.skip(k)) =~= seq![
        Err::<InterfaceDescriptor, Error>(Error { code }),
    ]);
}

/// The phase of one enumeration pass. A fresh cursor at index 0 has not
/// started; a running cursor at a later index is mid-yield.
#[derive(Clone, Copy, Debug, PartialEq, Eq, Structural)]
pub enum EnumPhase {
    /// More steps may be asked for.
    Running,
    /// The "no more items" answer arrived: clean end of the sequence.
    Exhausted,
    /// A platform error arrived: the sequence ended on a fault.
    Faulted,
}

/// A non-restartable cursor over one enumeration pass: it feeds the
/// operating system's answers through the state machine one index at a
/// time.
#[derive(Clone, Copy, Debug, PartialEq, Eq, Structural)]
pub struct EnumCursor {
    /// The index the next step will ask for.
    pub next_index: u32,
    /// Where the pass stands.
    pub phase: EnumPhase,
}

impl EnumCursor {
    /// A fresh pass, about to ask for index 0.
    pub fn new() -> (c: EnumCursor)
        ensures
            c.phase is Running,
            c.next_index == 0,
    {
        EnumCursor { next_index: 0, phase: EnumPhase::Running }
    }

    /// Feeds the answer for index `next_index` into the pass. An item
    /// is yielded and the cursor moves to the next index; exhaustion
    /// yields nothing and ends the pass cleanly; a fault yields one
    /// error element and ends the pass.
    pub fn advance(&mut self, step: EnumStep) -> (yielded: Option<
        Result<InterfaceDescriptor, Error>,
    >)
        requires
            old(self).phase is Running,
            old(self).next_index < u32::MAX,
        ensures
            step matches EnumStep::Item(d) ==> yielded == Some(
                Ok::<InterfaceDescriptor, Error>(d),
            ) && final(self).phase is Running && final(self).next_index == old(self).next_index
                + 1,
            step is End ==> yielded is None && final(self).phase is Exhausted,
            step matches EnumStep::Fault(code) ==> yielded == Some(
                Err::<InterfaceDescriptor, Error>(Error { code }),
            ) && final(self).phase is Faulted,
    {
        match step {
            EnumStep::Item(d) => {
                self.next_index = self.next_index + 1;
                Some(Ok(d))
            },
            EnumStep::End => {
                self.phase = EnumPhase::Exhausted;
                None
            },
            EnumStep::Fault(code) => {
                self.phase = EnumPhase::Faulted;
                Some(Err(Error { code }))
            },
        }
    }
}

/// The yield of a finished pass, reassembled from what a driver
/// collected: the records in order, then the one error element if the
/// pass ended on a fault.
pub open spec fn spec_yielded(records: Seq<InterfaceDescriptor>, fault: Option<Error>) -> Seq<
    Result<InterfaceDescriptor, Error>,
> {
    records.map_values(|d: InterfaceDescriptor| Ok::<InterfaceDescriptor, Error>(d)) + (match fault {
        Some(e) => seq![Err::<InterfaceDescriptor, Error>(e)],
        None => Seq::empty(),
    })
}

/// Runs one whole enumeration pass against a pre-recorded sequence of
/// operating-system answers, where answer `i` is the response for index
/// `i`. Returns the enumerated records and the fault that ended the
/// pass, if one did; together they are exactly what the lazy sequence
/// would have yielded.
pub fn drain_responses(responses: &Vec<EnumStep>) -> (r: (Vec<InterfaceDescriptor>, Option<Error>))
    requires
        responses@.len() <= u32::MAX,
    ensures
        spec_yielded(r.0@, r.1) == spec_enum_yield(responses@),
{
    let ghost all = responses@;
    let mut records: Vec<InterfaceDescriptor> = Vec::new();
    let mut cursor = EnumCursor::new();
    let mut k: usize = 0;
    while k < responses.len()
        invariant
            all == responses@,
            all.len() <= u32::MAX,
            k <= all.len(),
            cursor.phase is Running,
            cursor.next_index == k,
            records@.len() == k,
            forall|j: int| 0 <= j < k ==> all[j] is Item,
            forall|j: int| 0 <= j < k ==> records@[j] == spec_step_item(all[j]),
        decreases all.len() - k,
    {
        let step = responses[k];
        let yielded = cursor.advance(step);
        match yielded {
            Some(Ok(d)) => {
                records.push(d);
            },
            Some(Err(e)) => {
                proof {
                    let code = e.code;
                    lemma_enumeration_faults(all, k as int, code);
                    assert(records@.map_values(
                        |d: InterfaceDescriptor| Ok::<InterfaceDescriptor, Error>(d),
                    ) =~= Seq::new(
                        k as nat,
                        |i: int| Ok::<InterfaceDescriptor, Error>(spec_step_item(all[i])),
                    ));
                }
                return (records, Some(e));
            },
            None => {
                proof {
                    lemma_enumeration_terminates(all, k as int);
                    assert(records@.map_values(
                        |d: InterfaceDescriptor| Ok::<InterfaceDescriptor, Error>(d),
                    ) =~= Seq::new(
                        k as nat,
                        |i: int| Ok::<InterfaceDescriptor, Error>(spec_step_item(all[i])),
                    ));
                    assert(spec_yielded(records@, None) =~= spec_enum_yield(all));
                }
                return (records, None);
            },
        }
        k = k + 1;
    }
    proof {
        lemma_enum_yield_prefix(all, k as int);
        assert(all.skip(k as int).len() == 0);
        assert(records@.map_values(|d: InterfaceDescriptor| Ok::<InterfaceDescriptor, Error>(d))
            =~= Seq::new(
            k as nat,
            |i: int| Ok::<InterfaceDescriptor, Error>(spec_step_item(all[i])),
        ));
        assert(spec_yielded(records@, None) =~= spec_enum_yield(all));
    }
    (records, None)
}

} // verus!
