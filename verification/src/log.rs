//! The TPM event log and its walker: a lazy, forward-only, restartable
//! sequence of borrowed record views.
//!
//! A log is a borrowed byte region that starts at its first record, together
//! with the offset of its last record — the last record's start, not
//! one-past-the-end — or no offset at all for an empty log. The region is
//! firmware-owned and read-only; the log never copies it. The bounds are
//! trusted as reported (the firmware-honesty assumption): construction
//! requires, and nothing re-validates, that a well-formed chain of records
//! runs from the start to the last entry.

use vstd::prelude::*;

use crate::record::{
    record_fits, spec_event_at, spec_record_size, PcrEvent, SpecPcrEvent, PCR_EVENT_HEADER_SIZE,
};

verus! {

/// Whether a chain of complete, adjacent records runs from `off` to a final
/// record starting exactly at `last`: every record fits in `bytes`, and each
/// one's end is the next one's start.
pub open spec fn chain_wf(bytes: Seq<u8>, off: int, last: int) -> bool
    decreases last - off,
{
    &&& record_fits(bytes, off)
    &&& (off == last || {
        &&& off < last
        &&& off + spec_record_size(bytes, off) <= last
        &&& chain_wf(bytes, off + spec_record_size(bytes, off), last)
    })
}

/// The records of the chain that starts at `off` and ends with the record
/// at `last`. Meaningful under [`chain_wf`]; total regardless.
pub open spec fn spec_records_from(bytes: Seq<u8>, off: int, last: int) -> Seq<SpecPcrEvent>
    decreases last - off,
{
    if off < last && off + spec_record_size(bytes, off) <= last {
        seq![spec_event_at(bytes, off)] + spec_records_from(
            bytes,
            off + spec_record_size(bytes, off),
            last,
        )
    } else {
        seq![spec_event_at(bytes, off)]
    }
}

/// The start offsets of those same records, in storage order.
pub open spec fn spec_offsets_from(bytes: Seq<u8>, off: int, last: int) -> Seq<int>
    decreases last - off,
{
    if off < last && off + spec_record_size(bytes, off) <= last {
        seq![off] + spec_offsets_from(bytes, off + spec_record_size(bytes, off), last)
    } else {
        seq![off]
    }
}

/// Law: the records of a well-formed chain sit back to back. The offsets
/// run from `off` to `last` in storage order, each record is the one its
/// offset describes, and every record's start plus the fixed header size
/// plus its event-data length is exactly the next record's start — the last
/// record having no next.
pub proof fn lemma_records_adjacent(bytes: Seq<u8>, off: int, last: int)
    requires
        chain_wf(bytes, off, last),
    ensures
        ({
            let offsets = spec_offsets_from(bytes, off, last);
            let records = spec_records_from(bytes, off, last);
            &&& offsets.len() == records.len()
            &&& offsets.len() >= 1
            &&& offsets[0] == off
            &&& offsets.last() == last
            &&& forall|i: int|
                0 <= i < records.len() ==> #[trigger] records[i] == spec_event_at(
                    bytes,
                    offsets[i],
                ) && record_fits(bytes, offsets[i])
            &&& forall|i: int|
                0 <= i < records.len() - 1 ==> #[trigger] offsets[i + 1] == offsets[i]
                    + PCR_EVENT_HEADER_SIZE + records[i].event_data.len()
        }),
    decreases last - off,
{
    let offsets = spec_offsets_from(bytes, off, last);
    let records = spec_records_from(bytes, off, last);
    if off < last && off + spec_record_size(bytes, off) <= last {
        let next = off + spec_record_size(bytes, off);
        lemma_records_adjacent(bytes, next, last);
        let tail_offsets = spec_offsets_from(bytes, next, last);
        let tail_records = spec_records_from(bytes, next, last);
        assert(offsets =~= seq![off] + tail_offsets);
        assert(records =~= seq![spec_event_at(bytes, off)] + tail_records);
        assert(spec_event_at(bytes, off).event_data.len() == spec_record_size(bytes, off)
            - PCR_EVENT_HEADER_SIZE);
        assert(offsets.last() == tail_offsets.last());
        assert forall|i: int| 0 <= i < records.len() implies #[trigger] records[i] == spec_event_at(
            bytes,
            offsets[i],
        ) && record_fits(bytes, offsets[i]) by {
            if i == 0 {
                assert(offsets[0] == off);
                assert(records[0] == spec_event_at(bytes, off));
            } else {
                assert(offsets[i] == tail_offsets[i - 1]);
                assert(records[i] == tail_records[i - 1]);
            }
        }
        assert forall|i: int| 0 <= i < records.len() - 1 implies #[trigger] offsets[i + 1]
            == offsets[i] + PCR_EVENT_HEADER_SIZE + records[i].event_data.len() by {
            if i == 0 {
                assert(offsets[0] == off);
                assert(records[0] == spec_event_at(bytes, off));
                assert(offsets[1] == tail_offsets[0]);
                assert(tail_offsets[0] == next);
                assert(records[0].event_data.len() == spec_record_size(bytes, off)
                    - PCR_EVENT_HEADER_SIZE);
            } else {
                assert(offsets[i] == tail_offsets[i - 1]);
                assert(offsets[i + 1] == tail_offsets[i]);
                assert(records[i] == tail_records[i - 1]);
                assert(tail_offsets[(i - 1) + 1] == tail_offsets[i - 1] + PCR_EVENT_HEADER_SIZE
                    + tail_records[i - 1].event_data.len());
            }
        }
    } else {
        assert(off == last);
    }
}

/// A borrowed view of the whole measurement log. Owns nothing: the firmware
/// owns the memory and guarantees it stays mapped and unchanged while the
/// boot environment is active, and a log value cannot outlive the borrow
/// that backs it.
#[derive(Clone, Copy)]
pub struct EventLog<'a> {
    bytes: &'a [u8],
    last_entry: Option<usize>,
    is_truncated: bool,
}

impl<'a> EventLog<'a> {
    /// Whether the log is well formed: either it is empty (no last entry),
    /// or a well-formed chain of records runs from the start of its bytes
    /// to the last entry.
    pub closed spec fn wf(self) -> bool {
        match self.last_entry {
            Some(last) => chain_wf(self.bytes@, 0, last as int),
            None => true,
        }
    }

    /// The bytes the log borrows, starting at its first record.
    pub closed spec fn spec_bytes(self) -> Seq<u8> {
        self.bytes@
    }

    /// The offset of the last record's start, or `None` for an empty log
    /// (the sentinel the firmware reports as a null last-entry address).
    pub closed spec fn spec_last_entry(self) -> Option<usize> {
        self.last_entry
    }

    /// Whether the firmware's log storage was exhausted before all events
    /// could be recorded.
    pub closed spec fn spec_is_truncated(self) -> bool {
        self.is_truncated
    }

    /// The records the log holds, in storage order; empty when the log has
    /// no last entry.
    pub closed spec fn records(self) -> Seq<SpecPcrEvent> {
        match self.last_entry {
            Some(last) => spec_records_from(self.bytes@, 0, last as int),
            None => Seq::empty(),
        }
    }

    /// Construct a log view over a byte region whose first record starts at
    /// the region's first byte, with `last_entry` the start offset of its
    /// last record, or `None` for an empty log.
    ///
    /// The precondition is the firmware-honesty trust boundary: the caller
    /// guarantees the reported bounds describe a well-formed record chain,
    /// and nothing in the library re-validates them.
    pub fn new(bytes: &'a [u8], last_entry: Option<usize>, is_truncated: bool) -> (log: Self)
        requires
            match last_entry {
                Some(last) => chain_wf(bytes@, 0, last as int),
                None => true,
            },
        ensures
            log.wf(),
            log.spec_bytes() == bytes@,
            log.spec_last_entry() == last_entry,
            log.spec_is_truncated() == is_truncated,
            log.records() == match last_entry {
                Some(last) => spec_records_from(bytes@, 0, last as int),
                None => Seq::<SpecPcrEvent>::empty(),
            },
    {
        EventLog { bytes, last_entry, is_truncated }
    }

    /// Begin a fresh walk over the log. Walks are independent: each one
    /// owns its own cursor and the log itself never changes, so a new walk
    /// always starts again at the first record and sees the whole log.
    pub fn iter(&self) -> (iter: EventLogIter<'a>)
        requires
            self.wf(),
        ensures
            iter.wf(),
            iter.fresh_for(*self),
            iter.remaining() == self.records(),
    {
        EventLogIter {
            bytes: self.bytes,
            last_entry: self.last_entry,
            cursor: match self.last_entry {
                Some(_) => Some(0),
                None => None,
            },
        }
    }

    /// Whether the log is missing entries because its allocated storage was
    /// exhausted. This protocol version never reports truncation, so logs
    /// it produces always answer `false`; the flag is carried for interface
    /// parity with a richer log format.
    pub fn is_truncated(&self) -> (truncated: bool)
        ensures
            truncated == self.spec_is_truncated(),
    {
        self.is_truncated
    }
}

/// A walk over an [`EventLog`]: yields a view of each record in storage
/// order, then signals completion. All walk state lives in the cursor here,
/// none in the log.
pub struct EventLogIter<'a> {
    bytes: &'a [u8],
    last_entry: Option<usize>,
    cursor: Option<usize>,
}

impl<'a> EventLogIter<'a> {
    /// Whether the walker is well formed: if it still has a position, the
    /// log has a last entry and a well-formed chain runs from the position
    /// to it.
    pub closed spec fn wf(self) -> bool {
        match (self.cursor, self.last_entry) {
            (Some(cur), Some(last)) => chain_wf(self.bytes@, cur as int, last as int),
            (Some(_), None) => false,
            (None, _) => true,
        }
    }

    /// Whether this walker is a fresh walk over `log`: same bytes, same
    /// last entry, cursor at the first record (or already exhausted, for an
    /// empty log).
    pub closed spec fn fresh_for(self, log: EventLog<'a>) -> bool {
        &&& self.bytes@ == log.spec_bytes()
        &&& self.last_entry == log.spec_last_entry()
        &&& self.cursor == match log.spec_last_entry() {
            Some(_) => Some(0usize),
            None => None::<usize>,
        }
    }

    /// The records the walk has yet to yield, in order.
    pub closed spec fn remaining(self) -> Seq<SpecPcrEvent> {
        match (self.cursor, self.last_entry) {
            (Some(cur), Some(last)) => spec_records_from(self.bytes@, cur as int, last as int),
            _ => Seq::empty(),
        }
    }

    /// Yield a view of the next record, or `None` once the walk is
    /// exhausted — immediately so on an empty log. Stepping past a record
    /// advances the cursor by exactly that record's size; stepping off the
    /// last record exhausts the walk.
    pub fn next(&mut self) -> (item: Option<PcrEvent<'a>>)
        requires
            old(self).wf(),
        ensures
            final(self).wf(),
            match item {
                Some(event) => {
                    &&& old(self).remaining().len() > 0
                    &&& event.wf()
                    &&& event@ == old(self).remaining()[0]
                    &&& final(self).remaining() == old(self).remaining().drop_first()
                },
                None => {
                    &&& old(self).remaining().len() == 0
                    &&& final(self).remaining().len() == 0
                },
            },
    {
        let cur = match self.cursor {
            Some(cur) => cur,
            None => {
                return None;
            },
        };
        let last = match self.last_entry {
            Some(last) => last,
            None => {
                return None;
            },
        };
        let event = PcrEvent::from_offset(self.bytes, cur);
        if cur == last {
            // The final record: exhaust the walk so that every further call
            // signals completion.
            self.cursor = None;
            proof {
                assert(old(self).remaining() =~= seq![event@]);
            }
        } else {
            let size = event.size();
            self.cursor = Some(cur + size);
            proof {
                assert(old(self).remaining() =~= seq![event@] + final(self).remaining());
                assert(final(self).remaining() =~= old(self).remaining().drop_first());
            }
        }
        Some(event)
    }
}

/// Law: walks are restartable. Any two fresh walks over the same log have
/// the same records still to yield — the log's records, in storage order —
/// so a full walk yields exactly those records, and a later fresh walk over
/// the same log yields the identical sequence again.
pub proof fn lemma_walk_restartable<'a>(
    log: EventLog<'a>,
    first: EventLogIter<'a>,
    second: EventLogIter<'a>,
)
    requires
        first.fresh_for(log),
        second.fresh_for(log),
    ensures
        first.remaining() == log.records(),
        first.remaining() == second.remaining(),
{
}

/// Law: a walk over an empty log — one whose last-entry location is the
/// sentinel — yields nothing.
pub proof fn lemma_empty_log_yields_nothing<'a>(log: EventLog<'a>, iter: EventLogIter<'a>)
    requires
        log.spec_last_entry() is None,
        iter.fresh_for(log),
    ensures
        log.records() == Seq::<SpecPcrEvent>::empty(),
        iter.remaining() == Seq::<SpecPcrEvent>::empty(),
{
}

} // verus!
