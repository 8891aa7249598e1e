//! The layout of a chunk: basic header, message header, extended timestamp, body.

use crate::wire::{append, be24_bytes, be32_bytes, le32_bytes, write_be24, write_be32, write_le32};
use vstd::prelude::*;

verus! {

/// The chunk size that both sides start with.
pub const INITIAL_CHUNK_SIZE: u32 = 128;

/// The largest chunk size: 31 bits.
pub const MAX_CHUNK_SIZE: u32 = 0x7FFF_FFFF;

/// The longest message body: its length travels in 24 bits.
pub const MAX_MESSAGE_LEN: u32 = 0xFF_FFFF;

/// The value of a 24 bit time field that says: the time follows in 32 bits.
pub const EXTENDED_MARK: u32 = 0xFF_FFFF;

/// The largest chunk stream id that a basic header can tell.
pub const MAX_CSID: u32 = 65599;

/// What one side remembers of the last message on a chunk stream.
#[derive(Debug, Clone, Copy, PartialEq, Eq, Structural)]
pub struct ChunkHeader {
    pub timestamp: u32,
    /// The step from the message before to this one; 0 after a full header.
    pub timestamp_delta: u32,
    pub message_length: u32,
    pub message_type_id: u8,
    pub message_stream_id: u32,
    /// Whether the last header with a time field used the extended timestamp.
    pub extended: bool,
}

/// The basic header: the format in the top two bits of the first byte, the
/// chunk stream id in the other six, or in one or two bytes more.
pub open spec fn basic_header(fmt: u8, csid: u32) -> Seq<u8> {
    if csid < 64 {
        seq![(fmt * 64 + csid) as u8]
    } else if csid < 320 {
        seq![(fmt * 64) as u8, (csid - 64) as u8]
    } else {
        seq![(fmt * 64 + 1) as u8, ((csid - 64) % 256) as u8, ((csid - 64) / 256) as u8]
    }
}

/// What a 24 bit time field holds for a time: the time itself, or the mark
/// that sends the reader to the extended timestamp.
pub open spec fn time_field(time: u32) -> u32 {
    if time >= EXTENDED_MARK {
        EXTENDED_MARK
    } else {
        time
    }
}

/// The time that the extended timestamp of a chunk of format 3 repeats: the
/// delta where the delta is what took the extended timestamp, and the
/// timestamp otherwise.
pub open spec fn header_time(h: ChunkHeader) -> u32 {
    if h.timestamp_delta >= EXTENDED_MARK {
        h.timestamp_delta
    } else {
        h.timestamp
    }
}

/// The time that a header of format `fmt` writes to its time field.
pub open spec fn written_time(fmt: u8, h: ChunkHeader) -> u32 {
    if fmt == 0 {
        h.timestamp
    } else {
        h.timestamp_delta
    }
}

/// The message header of each format: 11, 7, 3 or 0 bytes.
pub open spec fn message_header(fmt: u8, h: ChunkHeader) -> Seq<u8> {
    if fmt == 0 {
        be24_bytes(time_field(h.timestamp) as int) + be24_bytes(h.message_length as int)
            + seq![h.message_type_id] + le32_bytes(h.message_stream_id as int)
    } else if fmt == 1 {
        be24_bytes(time_field(h.timestamp_delta) as int) + be24_bytes(h.message_length as int)
            + seq![h.message_type_id]
    } else if fmt == 2 {
        be24_bytes(time_field(h.timestamp_delta) as int)
    } else {
        Seq::empty()
    }
}

/// The extended timestamp that follows the message header: four bytes if the
/// chunk stream is in extended mode, none otherwise. A chunk without a time
/// field repeats the time of the last header that had one.
pub open spec fn extended_timestamp(fmt: u8, h: ChunkHeader) -> Seq<u8> {
    if !h.extended {
        Seq::empty()
    } else if fmt == 3 {
        be32_bytes(header_time(h) as int)
    } else {
        be32_bytes(written_time(fmt, h) as int)
    }
}

/// Everything that stands before the body of a chunk.
pub open spec fn chunk_head(csid: u32, fmt: u8, h: ChunkHeader) -> Seq<u8> {
    basic_header(fmt, csid) + message_header(fmt, h) + extended_timestamp(fmt, h)
}

/// One chunk.
pub open spec fn chunk_bytes(csid: u32, fmt: u8, h: ChunkHeader, body: Seq<u8>) -> Seq<u8> {
    chunk_head(csid, fmt, h) + body
}

/// A message body cut into the bodies of its chunks: each holds `max` bytes
/// but the last, which holds the rest. An empty message has one empty chunk.
pub open spec fn split(data: Seq<u8>, max: nat) -> Seq<Seq<u8>>
    decreases data.len(),
{
    if max == 0 || data.len() <= max {
        seq![data]
    } else {
        seq![data.take(max as int)] + split(data.skip(max as int), max)
    }
}

/// The chunks of one message in a row: the first under a header of format
/// `fmt`, each of the others under a header of format 3.
pub open spec fn joined(csid: u32, fmt: u8, h: ChunkHeader, bodies: Seq<Seq<u8>>) -> Seq<u8>
    decreases bodies.len(),
{
    if bodies.len() == 0 {
        Seq::empty()
    } else {
        chunk_bytes(csid, fmt, h, bodies[0]) + joined(csid, 3, h, bodies.skip(1))
    }
}

/// The bytes of a message on the wire.
pub open spec fn message_bytes(csid: u32, fmt: u8, h: ChunkHeader, data: Seq<u8>, max: nat)
    -> Seq<u8> {
    joined(csid, fmt, h, split(data, max))
}

/// All the bytes of the chunk bodies, in order.
pub open spec fn flattened(bodies: Seq<Seq<u8>>) -> Seq<u8>
    decreases bodies.len(),
{
    if bodies.len() == 0 {
        Seq::empty()
    } else {
        bodies[0] + flattened(bodies.skip(1))
    }
}

/// No chunk body is longer than the chunk size; every one but the last is as
/// long as the chunk size; only an empty message has an empty chunk; and the
/// bodies together are the message.
pub proof fn lemma_split(data: Seq<u8>, max: nat)
    requires
        max > 0,
    ensures
        split(data, max).len() >= 1,
        forall|i: int| 0 <= i < split(data, max).len() ==> (#[trigger] split(data, max)[i]).len() <= max,
        forall|i: int|
            0 <= i < split(data, max).len() - 1 ==> (#[trigger] split(data, max)[i]).len() == max,
        data.len() > 0 ==> split(data, max).last().len() > 0,
        flattened(split(data, max)) == data,
    decreases data.len(),
{
    if data.len() <= max {
        let one = seq![data];
        assert(one.skip(1) =~= Seq::<Seq<u8>>::empty());
        assert(flattened(one.skip(1)) =~= Seq::<u8>::empty());
        assert(flattened(one) =~= one[0] + flattened(one.skip(1)));
        assert(flattened(one) =~= data);
    } else {
        let rest = data.skip(max as int);
        lemma_split(rest, max);
        let whole = split(data, max);
        assert(whole.skip(1) =~= split(rest, max));
        assert(whole.last() == split(rest, max).last());
        assert(flattened(whole) =~= whole[0] + flattened(whole.skip(1)));
        assert(flattened(whole) =~= data);
        assert forall|i: int| 0 <= i < whole.len() implies (#[trigger] whole[i]).len() <= max by {
            if i > 0 {
                assert(whole[i] == split(rest, max)[i - 1]);
            }
        }
        assert forall|i: int| 0 <= i < whole.len() - 1 implies (#[trigger] whole[i]).len()
            == max by {
            if i > 0 {
                assert(whole[i] == split(rest, max)[i - 1]);
            }
        }
    }
}

/// Appends the basic header of a chunk.
pub fn write_basic_header(out: &mut Vec<u8>, fmt: u8, csid: u32)
    requires
        fmt <= 3,
        2 <= csid <= MAX_CSID,
    ensures
        final(out)@ == old(out)@ + basic_header(fmt, csid),
{
    let top: u8 = fmt * 64;
    if csid < 64 {
        out.push(top + (csid as u8));
        assert(out@ =~= old(out)@ + basic_header(fmt, csid));
    } else if csid < 320 {
        out.push(top);
        out.push((csid - 64) as u8);
        assert(out@ =~= old(out)@ + basic_header(fmt, csid));
    } else {
        out.push(top + 1);
        out.push(((csid - 64) % 256) as u8);
        out.push(((csid - 64) / 256) as u8);
        assert(out@ =~= old(out)@ + basic_header(fmt, csid));
    }
}

/// Appends a 24 bit time field.
fn write_time_field(out: &mut Vec<u8>, time: u32)
    ensures
        final(out)@ == old(out)@ + be24_bytes(time_field(time) as int),
{
    let field = if time >= EXTENDED_MARK {
        EXTENDED_MARK
    } else {
        time
    };
    let bytes = write_be24(field);
    append(out, bytes.as_slice());
}

/// Appends the message header of a chunk and its extended timestamp.
pub fn write_message_header(out: &mut Vec<u8>, fmt: u8, h: &ChunkHeader)
    requires
        fmt <= 3,
        h.message_length <= MAX_MESSAGE_LEN,
    ensures
        final(out)@ == old(out)@ + message_header(fmt, *h) + extended_timestamp(fmt, *h),
{
    if fmt == 0 {
        write_time_field(out, h.timestamp);
    } else if fmt < 3 {
        write_time_field(out, h.timestamp_delta);
    }
    if fmt < 2 {
        let length = write_be24(h.message_length);
        append(out, length.as_slice());
        out.push(h.message_type_id);
    }
    if fmt == 0 {
        let stream = write_le32(h.message_stream_id);
        append(out, stream.as_slice());
    }
    assert(out@ =~= old(out)@ + message_header(fmt, *h));
    if h.extended {
        let time = if fmt == 0 {
            h.timestamp
        } else if fmt == 3 && h.timestamp_delta < EXTENDED_MARK {
            h.timestamp
        } else {
            h.timestamp_delta
        };
        let bytes = write_be32(time);
        append(out, bytes.as_slice());
    }
    assert(out@ =~= old(out)@ + message_header(fmt, *h) + extended_timestamp(fmt, *h));
}

} // verus!
