//! The variable-length, packed log record and its borrowed view.
//!
//! A record is laid out as a 32-byte fixed header — PCR index (4 bytes,
//! little endian), event type (4 bytes, little endian), SHA-1 digest
//! (20 bytes), event-data size (4 bytes, little endian) — followed by that
//! many raw event-data bytes. A record's total size is therefore not known
//! until its own header has been read.

use vstd::prelude::*;

use crate::{PcrIndex, EventType, Sha1Digest};
use vstd::slice::slice_subrange;

verus! {

/// Byte size of a record's fixed header.
pub const PCR_EVENT_HEADER_SIZE: usize = 32;

/// The little-endian 32-bit value whose 4 bytes start at `off` in `bytes`.
pub open spec fn spec_le32(bytes: Seq<u8>, off: int) -> int {
    bytes[off] + bytes[off + 1] * 0x100 + bytes[off + 2] * 0x1_0000 + bytes[off + 3] * 0x100_0000
}

/// The event-data size a record starting at `off` declares in its header.
pub open spec fn spec_event_data_size(bytes: Seq<u8>, off: int) -> int {
    spec_le32(bytes, off + 28)
}

/// Total byte size of the record starting at `off`: the fixed header plus
/// the event-data size the header declares.
pub open spec fn spec_record_size(bytes: Seq<u8>, off: int) -> int {
    PCR_EVENT_HEADER_SIZE + spec_event_data_size(bytes, off)
}

/// Whether a complete record lies at `off`: the fixed header is in bounds,
/// and so are the event-data bytes it declares.
pub open spec fn record_fits(bytes: Seq<u8>, off: int) -> bool {
    &&& 0 <= off
    &&& off + PCR_EVENT_HEADER_SIZE <= bytes.len()
    &&& off + spec_record_size(bytes, off) <= bytes.len()
}

/// Mathematical model of one log record: the decoded header fields and the
/// event-data bytes.
#[verifier::ext_equal]
pub struct SpecPcrEvent {
    /// PCR index, as the header's first little-endian 32-bit field.
    pub pcr_index: int,
    /// Event type, as the header's second little-endian 32-bit field.
    pub event_type: int,
    /// The 20 digest bytes.
    pub digest: Seq<u8>,
    /// The event-data bytes that trail the header.
    pub event_data: Seq<u8>,
}

/// The record whose bytes start at `off` in `bytes`.
pub open spec fn spec_event_at(bytes: Seq<u8>, off: int) -> SpecPcrEvent {
    SpecPcrEvent {
        pcr_index: spec_le32(bytes, off),
        event_type: spec_le32(bytes, off + 4),
        digest: bytes.subrange(off + 8, off + 28),
        event_data: bytes.subrange(off + 32, off + 32 + spec_event_data_size(bytes, off)),
    }
}

/// The 4-byte little-endian image of `value`.
pub open spec fn spec_le32_bytes(value: u32) -> Seq<u8> {
    seq![
        (value & 0xff) as u8,
        ((value >> 8) & 0xff) as u8,
        ((value >> 16) & 0xff) as u8,
        ((value >> 24) & 0xff) as u8,
    ]
}

/// The byte image of a record with the given fields, per the layout: PCR
/// index, event type and event-data size as little-endian 32-bit fields,
/// the digest and the event data verbatim, packed with no padding.
pub open spec fn spec_encode_record(
    pcr_index: u32,
    event_type: u32,
    digest: Seq<u8>,
    event_data: Seq<u8>,
) -> Seq<u8> {
    spec_le32_bytes(pcr_index) + spec_le32_bytes(event_type) + digest + spec_le32_bytes(
        event_data.len() as u32,
    ) + event_data
}

/// Reading a little-endian 32-bit field back from its 4-byte image yields
/// the value that was written.
proof fn lemma_le32_of_le32_bytes(bytes: Seq<u8>, off: int, value: u32)
    requires
        0 <= off,
        off + 4 <= bytes.len(),
        bytes[off] == spec_le32_bytes(value)[0],
        bytes[off + 1] == spec_le32_bytes(value)[1],
        bytes[off + 2] == spec_le32_bytes(value)[2],
        bytes[off + 3] == spec_le32_bytes(value)[3],
    ensures
        spec_le32(bytes, off) == value,
{
    assert((value & 0xff) < 0x100 && ((value >> 8) & 0xff) < 0x100 && ((value >> 16) & 0xff)
        < 0x100 && ((value >> 24) & 0xff) < 0x100) by (bit_vector);
    assert(value == (value & 0xff) + ((value >> 8) & 0xff) * 0x100 + ((value >> 16) & 0xff)
        * 0x1_0000 + ((value >> 24) & 0xff) * 0x100_0000) by (bit_vector);
}

/// Law (round trip): a record encoded into bytes by the layout, then viewed
/// at its own start, reads back exactly the fields that were encoded — the
/// PCR index, the event type, the digest and the event data.
pub proof fn lemma_record_round_trip(
    pcr_index: u32,
    event_type: u32,
    digest: Seq<u8>,
    event_data: Seq<u8>,
)
    requires
        digest.len() == 20,
        event_data.len() < 0x1_0000_0000,
    ensures
        ({
            let bytes = spec_encode_record(pcr_index, event_type, digest, event_data);
            &&& bytes.len() == PCR_EVENT_HEADER_SIZE + event_data.len()
            &&& record_fits(bytes, 0)
            &&& spec_event_at(bytes, 0) == (SpecPcrEvent {
                pcr_index: pcr_index as int,
                event_type: event_type as int,
                digest,
                event_data,
            })
        }),
{
    let bytes = spec_encode_record(pcr_index, event_type, digest, event_data);
    let size = spec_le32_bytes(event_data.len() as u32);
    assert(bytes.len() == 32 + event_data.len());
    lemma_le32_of_le32_bytes(bytes, 0, pcr_index);
    lemma_le32_of_le32_bytes(bytes, 4, event_type);
    assert(bytes[28] == size[0] && bytes[29] == size[1] && bytes[30] == size[2] && bytes[31]
        == size[3]);
    lemma_le32_of_le32_bytes(bytes, 28, event_data.len() as u32);
    assert(spec_event_data_size(bytes, 0) == event_data.len());
    assert(bytes.subrange(8, 28) =~= digest);
    assert(bytes.subrange(32, 32 + event_data.len() as int) =~= event_data);
    assert(spec_event_at(bytes, 0) =~= (SpecPcrEvent {
        pcr_index: pcr_index as int,
        event_type: event_type as int,
        digest,
        event_data,
    }));
}

/// Read the little-endian 32-bit value whose 4 bytes start at `off`.
fn read_le32(bytes: &[u8], off: usize) -> (value: u32)
    requires
        off + 4 <= bytes@.len(),
    ensures
        value == spec_le32(bytes@, off as int),
{
    let b0 = bytes[off] as u32;
    let b1 = bytes[off + 1] as u32;
    let b2 = bytes[off + 2] as u32;
    let b3 = bytes[off + 3] as u32;
    b0 + b1 * 0x100 + b2 * 0x1_0000 + b3 * 0x100_0000
}

/// A borrowed view of one record in the log's memory. The view holds the
/// log's bytes and the record's start offset; it never copies the record,
/// and it cannot outlive the borrow of the memory that backs it.
#[derive(Clone, Copy, Debug)]
pub struct PcrEvent<'a> {
    bytes: &'a [u8],
    offset: usize,
}

impl<'a> View for PcrEvent<'a> {
    type V = SpecPcrEvent;

    closed spec fn view(&self) -> SpecPcrEvent {
        spec_event_at(self.bytes@, self.offset as int)
    }
}

impl<'a> PcrEvent<'a> {
    /// Whether the view is well formed: a complete record lies at its
    /// offset. Construction establishes this and every accessor relies on
    /// it; no accessor re-checks bounds.
    pub closed spec fn wf(self) -> bool {
        record_fits(self.bytes@, self.offset as int)
    }

    /// The bytes the view borrows.
    pub closed spec fn spec_bytes(self) -> Seq<u8> {
        self.bytes@
    }

    /// The record's start offset within those bytes.
    pub closed spec fn spec_offset(self) -> int {
        self.offset as int
    }

    /// Construct the view of the record starting at `offset`.
    ///
    /// The caller guarantees that a complete record lies there; the log
    /// walker owes that to the firmware-honesty trust assumption, never to
    /// a check of its own.
    pub fn from_offset(bytes: &'a [u8], offset: usize) -> (event: Self)
        requires
            record_fits(bytes@, offset as int),
        ensures
            event.wf(),
            event.spec_bytes() == bytes@,
            event.spec_offset() == offset as int,
            event@ == spec_event_at(bytes@, offset as int),
    {
        PcrEvent { bytes, offset }
    }

    /// Total byte size of this record: header plus declared event-data size.
    pub fn size(&self) -> (size: usize)
        requires
            self.wf(),
        ensures
            size == spec_record_size(self.spec_bytes(), self.spec_offset()),
    {
        let len = self.bytes.len();
        proof {
            assert(self.spec_offset() + PCR_EVENT_HEADER_SIZE <= len);
        }
        let data_size = read_le32(self.bytes, self.offset + 28) as usize;
        PCR_EVENT_HEADER_SIZE + data_size
    }

    /// PCR index for the event.
    pub fn pcr_index(&self) -> (index: PcrIndex)
        requires
            self.wf(),
        ensures
            index.0 == self@.pcr_index,
    {
        PcrIndex(read_le32(self.bytes, self.offset))
    }

    /// Type of the event, indicating what kind of data the event data holds.
    pub fn event_type(&self) -> (event_type: EventType)
        requires
            self.wf(),
        ensures
            event_type.0 == self@.event_type,
    {
        let len = self.bytes.len();
        proof {
            assert(self.spec_offset() + PCR_EVENT_HEADER_SIZE <= len);
        }
        EventType(read_le32(self.bytes, self.offset + 4))
    }

    /// SHA-1 digest of the data hashed for this event, copied out. The
    /// digest is independent of the event data.
    pub fn digest(&self) -> (digest: Sha1Digest)
        requires
            self.wf(),
        ensures
            digest@ == self@.digest,
    {
        let len = self.bytes.len();
        proof {
            assert(self.spec_offset() + PCR_EVENT_HEADER_SIZE <= len);
        }
        let mut out: Sha1Digest = [0u8; 20];
        let mut i: usize = 0;
        while i < 20
            invariant
                self.wf(),
                i <= 20,
                self.spec_offset() + PCR_EVENT_HEADER_SIZE <= len == self.spec_bytes().len(),
                out@.len() == 20,
                forall|k: int| 0 <= k < i ==> out@[k] == self.spec_bytes()[self.spec_offset() + 8 + k],
            decreases 20 - i,
        {
            out[i] = self.bytes[self.offset + 8 + i];
            i = i + 1;
        }
        proof {
            assert(out@ =~= self@.digest);
        }
        out
    }

    /// The raw event-data bytes that trail the header, as a borrowed slice.
    /// Their meaning is determined by the event type.
    pub fn event_data(&self) -> (data: &'a [u8])
        requires
            self.wf(),
        ensures
            data@ == self@.event_data,
    {
        let len = self.bytes.len();
        proof {
            assert(self.spec_offset() + spec_record_size(self.spec_bytes(), self.spec_offset())
                <= len);
        }
        let data_size = read_le32(self.bytes, self.offset + 28) as usize;
        slice_subrange(self.bytes, self.offset + 32, self.offset + 32 + data_size)
    }
}

} // verus!
