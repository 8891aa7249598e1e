//! The deserializer reads what the serializer writes.

use crate::chunk_io::deserializer::{frame, held, run, step, time_after, Frame, Framing};
use crate::chunk_io::deserializer::{InboundModel, Run, Step};
use crate::chunk_io::format::{basic_header, chunk_bytes, chunk_head, extended_timestamp, joined};
use crate::chunk_io::format::{message_bytes, message_header, split, time_field, ChunkHeader};
use crate::chunk_io::format::{EXTENDED_MARK, MAX_MESSAGE_LEN};
use crate::chunk_io::serializer::{chosen_format, csid_for, entry, next_header, time_step};
use crate::chunk_io::ChunkDeserializationErrorKind;
use crate::messages::message_payload::PayloadModel;
use crate::wire::{be24_bytes, be32_bytes, le32_bytes, lemma_read_of_written};
use vstd::prelude::*;

verus! {

/// Whether a deserializer has read all that a serializer wrote: it holds the
/// same header for every chunk stream, and no part of a message.
pub open spec fn in_step(headers: Map<u32, ChunkHeader>, streams: Map<u32, InboundModel>) -> bool {
    forall|csid: u32|
        {
            &&& #[trigger] headers.contains_key(csid) <==> streams.contains_key(csid)
            &&& headers.contains_key(csid) ==> streams[csid] == InboundModel {
                header: headers[csid],
                body: Seq::empty(),
            }
        }
}

/// Whether a chunk under a header of format `fmt` that leaves its chunk
/// stream with the header `h` is one that the deserializer reads as such.
pub open spec fn fits(fmt: u8, streams: Map<u32, InboundModel>, csid: u32, h: ChunkHeader)
    -> bool {
    let prior = held(streams, csid).header;
    let continuing = held(streams, csid).body.len() > 0;
    &&& fmt <= 3
    &&& 2 <= csid < 64
    &&& h.message_length <= MAX_MESSAGE_LEN
    &&& fmt != 0 ==> streams.contains_key(csid)
    &&& continuing ==> fmt == 3
    &&& fmt == 0 ==> h.timestamp_delta == 0 && h.extended == (h.timestamp >= EXTENDED_MARK)
    &&& fmt == 1 || fmt == 2 ==> {
        &&& h.timestamp == time_after(prior.timestamp, h.timestamp_delta)
        &&& h.extended == (h.timestamp_delta >= EXTENDED_MARK)
        &&& h.message_stream_id == prior.message_stream_id
    }
    &&& fmt == 2 ==> h.message_length == prior.message_length && h.message_type_id
        == prior.message_type_id
    &&& fmt == 3 && continuing ==> h == prior
    &&& fmt == 3 && !continuing ==> h == ChunkHeader {
        timestamp: time_after(prior.timestamp, prior.timestamp_delta),
        ..prior
    }
}

/// Stepping from one time to another and then on by that step arrives there.
pub proof fn lemma_step_arrives(from: u32, to: u32)
    ensures
        time_after(from, time_step(from, to)) == to,
{
    let m = crate::time::span();
    let d = (to - from) % m;
    assert((from + d) % m == to) by {
        vstd::arithmetic::div_mod::lemma_add_mod_noop(from as int, to - from, m);
        vstd::arithmetic::div_mod::lemma_small_mod(from as nat, m as nat);
        vstd::arithmetic::div_mod::lemma_small_mod(to as nat, m as nat);
    }
}

/// The header that the serializer chooses for a message is one that a
/// deserializer in step reads.
pub proof fn lemma_chosen_header_fits(
    headers: Map<u32, ChunkHeader>,
    streams: Map<u32, InboundModel>,
    message: PayloadModel,
    force: bool,
)
    requires
        in_step(headers, streams),
        message.data.len() <= MAX_MESSAGE_LEN,
    ensures
        ({
            let csid = csid_for(message.type_id);
            let prior = entry(headers, csid);
            fits(
                chosen_format(prior, message, force),
                streams,
                csid,
                next_header(prior, message, force),
            )
        }),
{
    let csid = csid_for(message.type_id);
    let prior = entry(headers, csid);
    assert(headers.contains_key(csid) <==> streams.contains_key(csid));
    if prior is Some {
        lemma_step_arrives(prior.unwrap().timestamp, message.timestamp);
    }
}

/// The deserializer reads the head of a chunk as it was written.
pub proof fn lemma_frame_of_head(
    streams: Map<u32, InboundModel>,
    csid: u32,
    fmt: u8,
    h: ChunkHeader,
    rest: Seq<u8>,
)
    requires
        fits(fmt, streams, csid, h),
    ensures
        frame(streams, chunk_head(csid, fmt, h) + rest) == Framing::Framed(
            Frame {
                csid,
                header: h,
                body_at: chunk_head(csid, fmt, h).len(),
                received: held(streams, csid).body,
            },
        ),
{
    reveal(frame);
    let basic = basic_header(fmt, csid);
    let header = message_header(fmt, h);
    let extension = extended_timestamp(fmt, h);
    let head = chunk_head(csid, fmt, h);
    let input = head + rest;
    let first = (fmt * 64 + csid) as u8;
    assert(basic =~= seq![first]);
    assert(first / 64 == fmt && first % 64 == csid);
    assert(input[0] == first);
    let after_header: int = 1 + header.len() as int;
    assert(input.subrange(1, after_header) =~= header);
    if h.extended {
        assert(input.subrange(after_header, after_header + 4) =~= extension);
    }
    if fmt == 0 {
        let time = be24_bytes(time_field(h.timestamp) as int);
        let length = be24_bytes(h.message_length as int);
        let stream = le32_bytes(h.message_stream_id as int);
        assert(header =~= time + length + seq![h.message_type_id] + stream);
        assert(input.subrange(1, 4) =~= time);
        assert(input.subrange(4, 7) =~= length);
        assert(input[7] == h.message_type_id);
        assert(input.subrange(8, 12) =~= stream);
        lemma_read_of_written(time_field(h.timestamp) as int);
        lemma_read_of_written(h.message_length as int);
        lemma_read_of_written(h.message_stream_id as int);
        if h.extended {
            assert(extension == be32_bytes(h.timestamp as int));
            lemma_read_of_written(h.timestamp as int);
        }
    } else if fmt == 1 {
        let time = be24_bytes(time_field(h.timestamp_delta) as int);
        let length = be24_bytes(h.message_length as int);
        assert(header =~= time + length + seq![h.message_type_id]);
        assert(input.subrange(1, 4) =~= time);
        assert(input.subrange(4, 7) =~= length);
        assert(input[7] == h.message_type_id);
        lemma_read_of_written(time_field(h.timestamp_delta) as int);
        lemma_read_of_written(h.message_length as int);
        if h.extended {
            assert(extension == be32_bytes(h.timestamp_delta as int));
            lemma_read_of_written(h.timestamp_delta as int);
        }
    } else if fmt == 2 {
        let time = be24_bytes(time_field(h.timestamp_delta) as int);
        assert(header =~= time);
        assert(input.subrange(1, 4) =~= time);
        lemma_read_of_written(time_field(h.timestamp_delta) as int);
        if h.extended {
            assert(extension == be32_bytes(h.timestamp_delta as int));
            lemma_read_of_written(h.timestamp_delta as int);
        }
    } else {
        assert(header =~= Seq::<u8>::empty());
    }
}

/// The body that the chunk after a given state of a message holds.
pub open spec fn share(max: nat, h: ChunkHeader, received: Seq<u8>) -> int {
    let remaining = h.message_length - received.len();
    if remaining <= max {
        remaining
    } else {
        max as int
    }
}

/// The deserializer reads a chunk as it was written: it takes all of the
/// chunk and nothing of what follows, adds the body to the message, and hands
/// the message out if that was its last chunk.
pub proof fn lemma_step_of_chunk(
    max: nat,
    streams: Map<u32, InboundModel>,
    csid: u32,
    fmt: u8,
    h: ChunkHeader,
    body: Seq<u8>,
    rest: Seq<u8>,
)
    requires
        fits(fmt, streams, csid, h),
        max >= 1,
        held(streams, csid).body.len() <= h.message_length,
        body.len() == share(max, h, held(streams, csid).body),
    ensures
        ({
            let whole = held(streams, csid).body + body;
            let complete = whole.len() == h.message_length;
            step(max, streams, chunk_bytes(csid, fmt, h, body) + rest) == Step::Chunk {
                consumed: chunk_bytes(csid, fmt, h, body).len(),
                csid,
                stream: InboundModel {
                    header: h,
                    body: if complete {
                        Seq::empty()
                    } else {
                        whole
                    },
                },
                emitted: if complete {
                    Some(
                        PayloadModel {
                            timestamp: h.timestamp,
                            type_id: h.message_type_id,
                            message_stream_id: h.message_stream_id,
                            data: whole,
                        },
                    )
                } else {
                    None
                },
            }
        }),
{
    let head = chunk_head(csid, fmt, h);
    let input = chunk_bytes(csid, fmt, h, body) + rest;
    assert(input =~= head + (body + rest));
    lemma_frame_of_head(streams, csid, fmt, h, body + rest);
    let start: int = head.len() as int;
    assert(input.subrange(start, start + body.len()) =~= body);
}

/// The deserializer puts a message together from the chunks that continue it.
pub proof fn lemma_run_of_continuation(
    max: nat,
    streams: Map<u32, InboundModel>,
    csid: u32,
    h: ChunkHeader,
    remaining: Seq<u8>,
)
    requires
        max >= 1,
        2 <= csid < 64,
        h.message_length <= MAX_MESSAGE_LEN,
        streams.contains_key(csid),
        streams[csid].header == h,
        streams[csid].body.len() > 0,
        remaining.len() > 0,
        streams[csid].body.len() + remaining.len() == h.message_length,
    ensures
        run(max, streams, joined(csid, 3, h, split(remaining, max))) == (Run {
            streams: streams.insert(csid, InboundModel { header: h, body: Seq::empty() }),
            rest: Seq::empty(),
            result: Ok(
                Some(
                    PayloadModel {
                        timestamp: h.timestamp,
                        type_id: h.message_type_id,
                        message_stream_id: h.message_stream_id,
                        data: streams[csid].body + remaining,
                    },
                ),
            ),
        }),
    decreases remaining.len(),
{
    let received = streams[csid].body;
    let bodies = split(remaining, max);
    let input = joined(csid, 3, h, bodies);
    let empty = Seq::<u8>::empty();
    assert(fits(3, streams, csid, h));
    if remaining.len() <= max {
        assert(bodies.skip(1) =~= Seq::<Seq<u8>>::empty());
        assert(joined(csid, 3, h, bodies.skip(1)) =~= empty);
        let chunk = chunk_bytes(csid, 3, h, remaining);
        assert(input =~= chunk + empty);
        lemma_step_of_chunk(max, streams, csid, 3, h, remaining, empty);
        assert(input.skip(chunk.len() as int) =~= empty);
    } else {
        let body = remaining.take(max as int);
        let later = remaining.skip(max as int);
        assert(bodies.skip(1) =~= split(later, max));
        let chunk = chunk_bytes(csid, 3, h, body);
        let rest = joined(csid, 3, h, split(later, max));
        assert(input =~= chunk + rest);
        lemma_step_of_chunk(max, streams, csid, 3, h, body, rest);
        let after = streams.insert(csid, InboundModel { header: h, body: received + body });
        assert(input.skip(chunk.len() as int) =~= rest);
        lemma_run_of_continuation(max, after, csid, h, later);
        assert((received + body) + later =~= received + remaining);
        assert(after.insert(csid, InboundModel { header: h, body: empty }) =~= streams.insert(
            csid,
            InboundModel { header: h, body: empty },
        ));
        assert(chunk.len() >= 1);
    }
}

/// The deserializer reads a message from the chunks that it was written as.
pub proof fn lemma_run_of_message(
    max: nat,
    streams: Map<u32, InboundModel>,
    csid: u32,
    fmt: u8,
    h: ChunkHeader,
    data: Seq<u8>,
)
    requires
        max >= 1,
        fits(fmt, streams, csid, h),
        held(streams, csid).body.len() == 0,
        data.len() == h.message_length,
    ensures
        run(max, streams, message_bytes(csid, fmt, h, data, max)) == (Run {
            streams: streams.insert(csid, InboundModel { header: h, body: Seq::empty() }),
            rest: Seq::empty(),
            result: Ok(
                Some(
                    PayloadModel {
                        timestamp: h.timestamp,
                        type_id: h.message_type_id,
                        message_stream_id: h.message_stream_id,
                        data,
                    },
                ),
            ),
        }),
{
    let bodies = split(data, max);
    let input = joined(csid, fmt, h, bodies);
    let empty = Seq::<u8>::empty();
    let done = streams.insert(csid, InboundModel { header: h, body: empty });
    assert(held(streams, csid).body =~= empty);
    if data.len() <= max {
        assert(bodies.skip(1) =~= Seq::<Seq<u8>>::empty());
        assert(joined(csid, 3, h, bodies.skip(1)) =~= empty);
        let chunk = chunk_bytes(csid, fmt, h, data);
        assert(input =~= chunk + empty);
        lemma_step_of_chunk(max, streams, csid, fmt, h, data, empty);
        assert(input.skip(chunk.len() as int) =~= empty);
        assert(empty + data =~= data);
    } else {
        let body = data.take(max as int);
        let later = data.skip(max as int);
        assert(bodies.skip(1) =~= split(later, max));
        let chunk = chunk_bytes(csid, fmt, h, body);
        let rest = joined(csid, 3, h, split(later, max));
        assert(input =~= chunk + rest);
        lemma_step_of_chunk(max, streams, csid, fmt, h, body, rest);
        assert(empty + body =~= body);
        let after = streams.insert(csid, InboundModel { header: h, body });
        assert(input.skip(chunk.len() as int) =~= rest);
        assert(chunk.len() >= 1);
        lemma_run_of_continuation(max, after, csid, h, later);
        assert(body + later =~= data);
        assert(after.insert(csid, InboundModel { header: h, body: empty }) =~= done);
    }
}

/// Round trip of a message through the chunk stream.
///
/// A deserializer that is in step with a serializer, and reads with the same
/// chunk size, reads from the bytes that the serializer writes for a message
/// that very message. It takes all the bytes, and is in step again afterwards.
pub proof fn lemma_chunk_round_trip(
    headers: Map<u32, ChunkHeader>,
    streams: Map<u32, InboundModel>,
    message: PayloadModel,
    force: bool,
    max: nat,
)
    requires
        in_step(headers, streams),
        message.data.len() <= MAX_MESSAGE_LEN,
        max >= 1,
    ensures
        ({
            let csid = csid_for(message.type_id);
            let prior = entry(headers, csid);
            let fmt = chosen_format(prior, message, force);
            let h = next_header(prior, message, force);
            let outcome = run(max, streams, message_bytes(csid, fmt, h, message.data, max));
            &&& outcome.result == Ok::<Option<PayloadModel>, ChunkDeserializationErrorKind>(
                Some(message),
            )
            &&& outcome.rest == Seq::<u8>::empty()
            &&& in_step(headers.insert(csid, h), outcome.streams)
        }),
{
    let csid = csid_for(message.type_id);
    let prior = entry(headers, csid);
    let fmt = chosen_format(prior, message, force);
    let h = next_header(prior, message, force);
    let empty = Seq::<u8>::empty();
    let done = streams.insert(csid, InboundModel { header: h, body: empty });
    lemma_chosen_header_fits(headers, streams, message, force);
    assert(headers.contains_key(csid) <==> streams.contains_key(csid));
    assert(held(streams, csid).body =~= empty);
    lemma_run_of_message(max, streams, csid, fmt, h, message.data);
    assert forall|other: u32|
        {
            &&& #[trigger] headers.insert(csid, h).contains_key(other) <==> done.contains_key(
                other,
            )
            &&& headers.insert(csid, h).contains_key(other) ==> done[other] == InboundModel {
                header: headers.insert(csid, h)[other],
                body: empty,
            }
        } by {
        assert(headers.contains_key(other) <==> streams.contains_key(other));
    }
}

} // verus!
