//! What holds of the chunk codec: of the serializer, of the deserializer, and
//! of the two together.

use crate::chunk_io::deserializer::{basic_header_len, frame, held, message_header_len, run, step};
use crate::chunk_io::deserializer::{InboundModel, Step};
use crate::chunk_io::format::{basic_header, chunk_head, header_time, message_bytes, split};
use crate::chunk_io::format::{lemma_split, written_time, ChunkHeader, EXTENDED_MARK};
use crate::chunk_io::serializer::{chosen_format, next_header};
use crate::messages::message_payload::PayloadModel;
use crate::wire::be32_bytes;
use vstd::prelude::*;

verus! {

/// No chunk of a message holds more body than the chunk size.
///
/// `ChunkSerializer::serialize` writes `message_bytes` at the serializer's
/// chunk size, which is the chunks of `split` in a row; and after
/// `set_max_chunk_size(n)` that size is `n`.
pub proof fn lemma_chunk_bodies_within_chunk_size(data: Seq<u8>, max: nat, i: int)
    requires
        max > 0,
        0 <= i < split(data, max).len(),
    ensures
        split(data, max)[i].len() <= max,
{
    lemma_split(data, max);
}

/// A chunk of format 3 holds the four bytes of an extended timestamp exactly
/// when the header that began the message used the extended timestamp, and
/// then it repeats the time of that header.
pub proof fn lemma_continuation_repeats_extended_timestamp(
    prior: Option<ChunkHeader>,
    message: PayloadModel,
    force: bool,
    csid: u32,
)
    ensures
        ({
            let fmt = chosen_format(prior, message, force);
            let h = next_header(prior, message, force);
            &&& fmt != 3 ==> (h.extended <==> written_time(fmt, h) >= EXTENDED_MARK)
            &&& fmt != 3 && h.extended ==> header_time(h) == written_time(fmt, h)
            &&& h.extended ==> chunk_head(csid, 3, h) == basic_header(3, csid) + be32_bytes(
                header_time(h) as int,
            )
            &&& !h.extended ==> chunk_head(csid, 3, h) == basic_header(3, csid)
        }),
{
    let h = next_header(prior, message, force);
    assert(chunk_head(csid, 3, h) =~= basic_header(3, csid) + crate::chunk_io::format::extended_timestamp(
        3,
        h,
    ));
    if !h.extended {
        assert(chunk_head(csid, 3, h) =~= basic_header(3, csid));
    }
}

/// The deserializer takes four bytes of extended timestamp from a chunk of
/// format 3 exactly when the chunk stream is in extended mode.
pub proof fn lemma_continuation_frame(streams: Map<u32, InboundModel>, input: Seq<u8>)
    requires
        frame(streams, input) is Framed,
        input[0] / 64 == 3,
    ensures
        ({
            let f = frame(streams, input)->Framed_0;
            let extra: nat = if held(streams, f.csid).header.extended {
                4
            } else {
                0
            };
            f.body_at == basic_header_len(input[0]) + extra
        }),
{
    reveal(frame);
}

/// What `step` reads of a chunk lies within the chunk: an input that begins
/// with the same bytes reads as the same chunk.
pub proof fn lemma_step_reads_a_prefix(
    max: nat,
    streams: Map<u32, InboundModel>,
    x: Seq<u8>,
    y: Seq<u8>,
)
    requires
        step(max, streams, x) is Chunk,
        step(max, streams, x)->consumed <= y.len(),
        y.take(step(max, streams, x)->consumed as int) == x.take(
            step(max, streams, x)->consumed as int,
        ),
    ensures
        step(max, streams, y) == step(max, streams, x),
{
    reveal(frame);
    let n = step(max, streams, x)->consumed as int;
    let f = frame(streams, x)->Framed_0;
    assert(n <= x.len());
    assert forall|i: int| 0 <= i < n implies x[i] == y[i] by {
        assert(x.take(n)[i] == y.take(n)[i]);
    }
    assert forall|i: int, j: int| 0 <= i <= j <= n implies #[trigger] x.subrange(i, j)
        == y.subrange(i, j) by {
        assert(x.subrange(i, j) =~= y.subrange(i, j));
    }
    let at = basic_header_len(x[0]) as int;
    let fmt = x[0] / 64;
    let after_header = at + message_header_len(fmt);
    assert(x.subrange(at, at + 3) == y.subrange(at, at + 3) || fmt == 3);
    assert(x.subrange(at + 3, at + 6) == y.subrange(at + 3, at + 6) || fmt >= 2);
    assert(x.subrange(at + 7, at + 11) == y.subrange(at + 7, at + 11) || fmt >= 1);
    assert(x.subrange(after_header, after_header + 4) == y.subrange(
        after_header,
        after_header + 4,
    ) || f.body_at == after_header);
    assert(frame(streams, y) == frame(streams, x));
}

/// One byte completes at most one message.
///
/// Where the bytes held so far are not a whole chunk, one more byte gives at
/// most one message, and then nothing is left to read: a second call without
/// new bytes gives none.
pub proof fn lemma_one_byte_one_message(
    max: nat,
    streams: Map<u32, InboundModel>,
    pending: Seq<u8>,
    byte: u8,
)
    requires
        max >= 1,
        step(max, streams, pending) is Incomplete,
    ensures
        ({
            let first = run(max, streams, pending.push(byte));
            let second = run(max, first.streams, first.rest);
            first.result is Ok ==> second.result == Ok::<
                Option<PayloadModel>,
                crate::chunk_io::ChunkDeserializationErrorKind,
            >(None) && second.rest == first.rest && second.streams == first.streams
        }),
{
    let input = pending.push(byte);
    let empty = Seq::<u8>::empty();
    reveal_with_fuel(run, 3);
    reveal(frame);
    match step(max, streams, input) {
        Step::Chunk { consumed, csid, stream, emitted } => {
            if consumed <= pending.len() {
                assert(pending.take(consumed as int) =~= input.take(consumed as int));
                lemma_step_reads_a_prefix(max, streams, input, pending);
            }
            assert(consumed == input.len());
            assert(consumed >= 1);
            assert(input.skip(consumed as int) =~= empty);
            let after = streams.insert(csid, stream);
            assert(step(max, after, empty) is Incomplete);
            assert(run(max, after, empty) == crate::chunk_io::deserializer::Run {
                streams: after,
                rest: empty,
                result: Ok(None),
            });
        },
        _ => {},
    }
}

/// Reading takes bytes away and adds none; and a message comes only out of
/// bytes that are taken.
pub proof fn lemma_run_consumes(max: nat, streams: Map<u32, InboundModel>, input: Seq<u8>)
    ensures
        run(max, streams, input).rest.len() <= input.len(),
        run(max, streams, input).result matches Ok(Some(_)) ==> run(max, streams, input).rest.len()
            < input.len(),
    decreases input.len(),
{
    reveal(frame);
    match step(max, streams, input) {
        Step::Chunk { consumed, csid, stream, emitted } => {
            assert(1 <= consumed <= input.len());
            if emitted is None {
                lemma_run_consumes(max, streams.insert(csid, stream), input.skip(consumed as int));
            }
        },
        _ => {},
    }
}

/// The deserializer reads a basic header as it was written: the format, the
/// chunk stream id, and with them the header's length, for every chunk stream
/// id that a basic header can tell.
pub proof fn lemma_basic_header_round_trip(fmt: u8, csid: u32, rest: Seq<u8>)
    requires
        fmt <= 3,
        2 <= csid <= crate::chunk_io::format::MAX_CSID,
    ensures
        ({
            let input = basic_header(fmt, csid) + rest;
            &&& input[0] / 64 == fmt
            &&& basic_header_len(input[0]) == basic_header(fmt, csid).len()
            &&& crate::chunk_io::deserializer::read_csid(input) == csid
        }),
{
    let header = basic_header(fmt, csid);
    let input = header + rest;
    assert(input[0] == header[0]);
    if csid >= 64 {
        assert(input[1] == header[1]);
    }
    if csid >= 320 {
        assert(input[2] == header[2]);
    }
}

/// A message is cut into as many chunks as it takes to hold its body: one
/// for an empty body, and otherwise the length divided by the chunk size,
/// rounded up. A body of exactly the chunk size is one chunk, and a body of
/// `n` times the chunk size is `n` chunks.
pub proof fn lemma_chunk_count(data: Seq<u8>, max: nat)
    requires
        max > 0,
    ensures
        data.len() == 0 ==> split(data, max).len() == 1,
        data.len() > 0 ==> split(data, max).len() == (data.len() + max - 1) / (max as int),
    decreases data.len(),
{
    let m = max as int;
    let len = data.len() as int;
    if len <= m {
        if len > 0 {
            assert((len + m - 1) / m == 1) by (nonlinear_arith)
                requires
                    0 < len <= m,
            ;
        }
    } else {
        let rest = data.skip(m);
        lemma_chunk_count(rest, max);
        assert(split(data, max).len() == 1 + split(rest, max).len());
        assert((len + m - 1) / m == 1 + (len - m + m - 1) / m) by (nonlinear_arith)
            requires
                m > 0,
                len > m,
        ;
    }
}

/// Reading is restartable: bytes that arrive in two pieces read as the same
/// bytes that arrive at once. Where the first piece completes no message, what
/// reading the first piece leaves behind, read on with the second piece, is
/// what reading both at once gives.
pub proof fn lemma_read_in_pieces(
    max: nat,
    streams: Map<u32, InboundModel>,
    first: Seq<u8>,
    second: Seq<u8>,
)
    requires
        run(max, streams, first).result == Ok::<
            Option<PayloadModel>,
            crate::chunk_io::ChunkDeserializationErrorKind,
        >(None),
    ensures
        run(max, streams, first + second) == run(
            max,
            run(max, streams, first).streams,
            run(max, streams, first).rest + second,
        ),
    decreases first.len(),
{
    let whole = first + second;
    match step(max, streams, first) {
        Step::Chunk { consumed, csid, stream, emitted } => {
            reveal(frame);
            assert(1 <= consumed <= first.len());
            assert(whole.take(consumed as int) =~= first.take(consumed as int));
            lemma_step_reads_a_prefix(max, streams, first, whole);
            let after = streams.insert(csid, stream);
            assert(whole.skip(consumed as int) =~= first.skip(consumed as int) + second);
            lemma_read_in_pieces(max, after, first.skip(consumed as int), second);
        },
        Step::Incomplete => {
            assert(run(max, streams, first).rest == first);
        },
        Step::Failed(_) => {},
    }
}

} // verus!
