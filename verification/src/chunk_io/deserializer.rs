//! Chunks to messages.

use crate::chunk_io::format::{ChunkHeader, EXTENDED_MARK, INITIAL_CHUNK_SIZE, MAX_CHUNK_SIZE};
use crate::chunk_io::{ChunkDeserializationError, ChunkDeserializationErrorKind};
use crate::messages::message_payload::{MessagePayload, PayloadModel};
use crate::time::{span, RtmpTimestamp};
use crate::wire::{append, be24, be32, le32, read_be24, read_be32, read_le32};
use std::collections::HashMap;
use vstd::prelude::*;
use vstd::slice::slice_subrange;

verus! {

broadcast use vstd::std_specs::hash::group_hash_axioms;

/// What the deserializer holds of a chunk stream: the header of its last
/// message, and the bytes received so far of a message that is not complete.
pub struct InboundModel {
    pub header: ChunkHeader,
    pub body: Seq<u8>,
}

/// The chunk stream state as it is held in memory.
pub struct InboundStream {
    header: ChunkHeader,
    body: Vec<u8>,
}

impl View for InboundStream {
    type V = InboundModel;

    closed spec fn view(&self) -> InboundModel {
        InboundModel { header: self.header, body: self.body@ }
    }
}

/// The number of bytes of the basic header that begins with `first`.
pub open spec fn basic_header_len(first: u8) -> nat {
    if first % 64 == 0 {
        2
    } else if first % 64 == 1 {
        3
    } else {
        1
    }
}

/// The chunk stream id that the basic header at the start of `input` names.
pub open spec fn read_csid(input: Seq<u8>) -> u32 {
    if input[0] % 64 == 0 {
        (input[1] + 64) as u32
    } else if input[0] % 64 == 1 {
        (input[1] + 64 + 256 * input[2]) as u32
    } else {
        (input[0] % 64) as u32
    }
}

/// The number of bytes of the message header of a format.
pub open spec fn message_header_len(fmt: u8) -> nat {
    if fmt == 0 {
        11
    } else if fmt == 1 {
        7
    } else if fmt == 2 {
        3
    } else {
        0
    }
}

/// A time `delta` milliseconds after `time`, on the wrapping clock.
pub open spec fn time_after(time: u32, delta: u32) -> u32 {
    ((time + delta) % span()) as u32
}

/// The header of a chunk stream after a chunk of format `fmt` whose message
/// header starts at `at`. `time` is what the chunk says of time: a timestamp
/// in format 0, a delta in formats 1 and 2. A chunk of format 3 that starts a
/// message repeats the step of the message before it.
pub open spec fn read_header(
    fmt: u8,
    prior: ChunkHeader,
    continuing: bool,
    input: Seq<u8>,
    at: int,
    time: u32,
    extended: bool,
) -> ChunkHeader {
    if fmt == 0 {
        ChunkHeader {
            timestamp: time,
            timestamp_delta: 0,
            message_length: be24(input.subrange(at + 3, at + 6)) as u32,
            message_type_id: input[at + 6],
            message_stream_id: le32(input.subrange(at + 7, at + 11)) as u32,
            extended,
        }
    } else if fmt == 1 {
        ChunkHeader {
            timestamp: time_after(prior.timestamp, time),
            timestamp_delta: time,
            message_length: be24(input.subrange(at + 3, at + 6)) as u32,
            message_type_id: input[at + 6],
            message_stream_id: prior.message_stream_id,
            extended,
        }
    } else if fmt == 2 {
        ChunkHeader {
            timestamp: time_after(prior.timestamp, time),
            timestamp_delta: time,
            message_length: prior.message_length,
            message_type_id: prior.message_type_id,
            message_stream_id: prior.message_stream_id,
            extended,
        }
    } else if continuing {
        prior
    } else {
        ChunkHeader {
            timestamp: time_after(prior.timestamp, prior.timestamp_delta),
            timestamp_delta: prior.timestamp_delta,
            message_length: prior.message_length,
            message_type_id: prior.message_type_id,
            message_stream_id: prior.message_stream_id,
            extended: prior.extended,
        }
    }
}

/// What the bytes at the start of the input amount to.
pub enum Step {
    /// Not yet a whole chunk: more bytes are needed.
    Incomplete,
    /// Not a chunk that can follow what came before.
    Failed(ChunkDeserializationErrorKind),
    /// A chunk of `consumed` bytes on chunk stream `csid`, which leaves the
    /// chunk stream as `stream` and, where it ends a message, gives `emitted`.
    Chunk { consumed: nat, csid: u32, stream: InboundModel, emitted: Option<PayloadModel> },
}

/// The header that stands for a chunk stream of which nothing is known.
pub open spec fn no_header() -> ChunkHeader {
    ChunkHeader {
        timestamp: 0,
        timestamp_delta: 0,
        message_length: 0,
        message_type_id: 0,
        message_stream_id: 0,
        extended: false,
    }
}

/// What stands before the body of a chunk, read against what is held of the
/// chunk stream.
pub struct Frame {
    pub csid: u32,
    /// The header of the chunk stream once the chunk is read.
    pub header: ChunkHeader,
    /// Where in the input the body starts.
    pub body_at: nat,
    /// The bytes that were there of the message before this chunk.
    pub received: Seq<u8>,
}

/// What the headers at the start of the input amount to.
pub enum Framing {
    Incomplete,
    Failed(ChunkDeserializationErrorKind),
    Framed(Frame),
}

/// What is held of a chunk stream; of one that is not known, nothing.
pub open spec fn held(streams: Map<u32, InboundModel>, csid: u32) -> InboundModel {
    if streams.contains_key(csid) {
        streams[csid]
    } else {
        InboundModel { header: no_header(), body: Seq::empty() }
    }
}

/// The time field of the message header that starts at `at`.
pub open spec fn read_time_field(fmt: u8, input: Seq<u8>, at: int) -> u32 {
    if fmt == 3 {
        0
    } else {
        be24(input.subrange(at, at + 3)) as u32
    }
}

/// Reads the headers of the chunk at the start of `input`: the basic header,
/// the message header and, where the chunk stream is in extended mode, the
/// extended timestamp.
///
/// A chunk that builds on a chunk stream of which nothing is known is
/// refused, and so is a chunk with a message header in the middle of a message.
#[verifier::opaque]
pub open spec fn frame(streams: Map<u32, InboundModel>, input: Seq<u8>) -> Framing {
    if input.len() < 1 || input.len() < basic_header_len(input[0]) {
        Framing::Incomplete
    } else {
        let fmt = input[0] / 64;
        let at = basic_header_len(input[0]) as int;
        let csid = read_csid(input);
        let prior = held(streams, csid);
        let continuing = prior.body.len() > 0;
        let after_header = at + message_header_len(fmt);
        let field = read_time_field(fmt, input, at);
        let extended = if fmt == 3 {
            prior.header.extended
        } else {
            field == EXTENDED_MARK
        };
        let body_at = if extended {
            after_header + 4
        } else {
            after_header
        };
        let time = if extended && fmt != 3 {
            be32(input.subrange(after_header, after_header + 4)) as u32
        } else {
            field
        };
        if fmt != 0 && !streams.contains_key(csid) {
            Framing::Failed(ChunkDeserializationErrorKind::MissingPreviousChunkHeader)
        } else if continuing && fmt != 3 {
            Framing::Failed(ChunkDeserializationErrorKind::InvalidChunkFormat)
        } else if input.len() < after_header || input.len() < body_at {
            Framing::Incomplete
        } else {
            Framing::Framed(
                Frame {
                    csid,
                    header: read_header(fmt, prior.header, continuing, input, at, time, extended),
                    body_at: body_at as nat,
                    received: prior.body,
                },
            )
        }
    }
}

/// The number of body bytes that the chunk behind a frame holds: what the
/// message still lacks, but no more than `max`.
pub open spec fn body_share(max: nat, f: Frame) -> int {
    let remaining = f.header.message_length - f.received.len();
    if remaining <= max {
        remaining
    } else {
        max as int
    }
}

/// Reads one chunk from the start of `input`.
///
/// A chunk is read only when all of it is there: its headers, and as many
/// bytes of body as the message still lacks, but no more than `max`.
pub open spec fn step(max: nat, streams: Map<u32, InboundModel>, input: Seq<u8>) -> Step {
    match frame(streams, input) {
        Framing::Incomplete => Step::Incomplete,
        Framing::Failed(kind) => Step::Failed(kind),
        Framing::Framed(f) => {
            let take = body_share(max, f);
            if take < 0 || input.len() < f.body_at + take {
                Step::Incomplete
            } else {
                let body = f.received + input.subrange(f.body_at as int, f.body_at + take);
                if body.len() == f.header.message_length {
                    Step::Chunk {
                        consumed: (f.body_at + take) as nat,
                        csid: f.csid,
                        stream: InboundModel { header: f.header, body: Seq::empty() },
                        emitted: Some(
                            PayloadModel {
                                timestamp: f.header.timestamp,
                                type_id: f.header.message_type_id,
                                message_stream_id: f.header.message_stream_id,
                                data: body,
                            },
                        ),
                    }
                } else {
                    Step::Chunk {
                        consumed: (f.body_at + take) as nat,
                        csid: f.csid,
                        stream: InboundModel { header: f.header, body },
                        emitted: None,
                    }
                }
            }
        },
    }
}

/// Where reading stops.
pub struct Run {
    pub streams: Map<u32, InboundModel>,
    /// The bytes that were not read.
    pub rest: Seq<u8>,
    pub result: Result<Option<PayloadModel>, ChunkDeserializationErrorKind>,
}

/// Reads chunks from `input` until one ends a message, the input holds no
/// whole chunk any more, or a chunk is refused.
pub open spec fn run(max: nat, streams: Map<u32, InboundModel>, input: Seq<u8>) -> Run
    decreases input.len(),
{
    match step(max, streams, input) {
        Step::Incomplete => Run { streams, rest: input, result: Ok(None) },
        Step::Failed(kind) => Run { streams, rest: input, result: Err(kind) },
        Step::Chunk { consumed, csid, stream, emitted } => {
            let after = streams.insert(csid, stream);
            if emitted is Some || consumed == 0 || consumed > input.len() {
                Run { streams: after, rest: input.skip(consumed as int), result: Ok(emitted) }
            } else {
                run(max, after, input.skip(consumed as int))
            }
        },
    }
}

/// The models of the chunk streams held in memory.
pub closed spec fn models(streams: Map<u32, InboundStream>) -> Map<u32, InboundModel> {
    Map::new(|csid: u32| streams.contains_key(csid), |csid: u32| streams[csid]@)
}

/// No chunk stream holds a whole message: a message is handed out as soon as
/// its last byte is there.
pub open spec fn bodies_incomplete(streams: Map<u32, InboundModel>) -> bool {
    forall|csid: u32| #[trigger]
        streams.contains_key(csid) ==> streams[csid].body.len() == 0 || streams[csid].body.len()
            < streams[csid].header.message_length
}

/// What reading one chunk gave.
enum Progress {
    Incomplete,
    Chunk { consumed: usize, emitted: Option<MessagePayload> },
}

/// Whether what `read_chunk` did is what `step` says.
spec fn follows(
    before: Map<u32, InboundModel>,
    after: Map<u32, InboundModel>,
    r: Result<Progress, ChunkDeserializationError>,
    expected: Step,
) -> bool {
    match expected {
        Step::Incomplete => r matches Ok(Progress::Incomplete) && after == before,
        Step::Failed(kind) => r matches Err(e) && e.kind == kind && after == before,
        Step::Chunk { consumed, csid, stream, emitted } => {
            &&& after == before.insert(csid, stream)
            &&& r matches Ok(Progress::Chunk { consumed: n, emitted: payload }) && n == consumed
                && match (payload, emitted) {
                (Some(p), Some(m)) => p@ == m,
                (None, None) => true,
                _ => false,
            }
        },
    }
}

/// The headers of a chunk, as read.
struct FrameInfo {
    csid: u32,
    header: ChunkHeader,
    body_at: usize,
    received: usize,
}

/// Reads a basic header: the format, the header's length and the chunk stream id.
fn read_basic_header(input: &[u8]) -> (r: Option<(u8, usize, u32)>)
    ensures
        match r {
            None => input@.len() < 1 || input@.len() < basic_header_len(input@[0]),
            Some((fmt, at, csid)) => {
                &&& input@.len() >= 1
                &&& input@.len() >= at
                &&& fmt == input@[0] / 64
                &&& fmt <= 3
                &&& at == basic_header_len(input@[0])
                &&& csid == read_csid(input@)
            },
        },
{
    let len = input.len();
    if len < 1 {
        return None;
    }
    let first: u8 = input[0];
    let low: u8 = first % 64;
    if low == 0 {
        if len < 2 {
            return None;
        }
        Some((first / 64, 2, input[1] as u32 + 64))
    } else if low == 1 {
        if len < 3 {
            return None;
        }
        Some((first / 64, 3, input[1] as u32 + 64 + 256 * (input[2] as u32)))
    } else {
        Some((first / 64, 1, low as u32))
    }
}

/// Reads the fields of a message header of format `fmt` that starts at `at`.
fn read_message_header(
    fmt: u8,
    prior: ChunkHeader,
    continuing: bool,
    input: &[u8],
    at: usize,
    time: u32,
    extended: bool,
) -> (r: ChunkHeader)
    requires
        fmt <= 3,
        at + message_header_len(fmt) <= input@.len(),
    ensures
        r == read_header(fmt, prior, continuing, input@, at as int, time, extended),
{
    let len = input.len();
    if fmt == 0 {
        ChunkHeader {
            timestamp: time,
            timestamp_delta: 0,
            message_length: read_be24(slice_subrange(input, at + 3, at + 6)),
            message_type_id: input[at + 6],
            message_stream_id: read_le32(slice_subrange(input, at + 7, at + 11)),
            extended,
        }
    } else if fmt == 1 {
        ChunkHeader {
            timestamp: prior.timestamp.wrapping_add(time),
            timestamp_delta: time,
            message_length: read_be24(slice_subrange(input, at + 3, at + 6)),
            message_type_id: input[at + 6],
            message_stream_id: prior.message_stream_id,
            extended,
        }
    } else if fmt == 2 {
        ChunkHeader {
            timestamp: prior.timestamp.wrapping_add(time),
            timestamp_delta: time,
            message_length: prior.message_length,
            message_type_id: prior.message_type_id,
            message_stream_id: prior.message_stream_id,
            extended,
        }
    } else if continuing {
        prior
    } else {
        ChunkHeader {
            timestamp: prior.timestamp.wrapping_add(prior.timestamp_delta),
            timestamp_delta: prior.timestamp_delta,
            message_length: prior.message_length,
            message_type_id: prior.message_type_id,
            message_stream_id: prior.message_stream_id,
            extended: prior.extended,
        }
    }
}

/// Whether what `read_frame` gave is what `frame` says.
spec fn framed_as(r: Result<Option<FrameInfo>, ChunkDeserializationError>, expected: Framing)
    -> bool {
    match expected {
        Framing::Incomplete => r matches Ok(None),
        Framing::Failed(kind) => r matches Err(e) && e.kind == kind,
        Framing::Framed(f) => r matches Ok(Some(info)) && info.csid == f.csid && info.header
            == f.header && info.body_at == f.body_at && info.received == f.received.len(),
    }
}

/// Reads the headers of the chunk at the start of `input`.
fn read_frame(streams: &HashMap<u32, InboundStream>, input: &[u8]) -> (r: Result<
    Option<FrameInfo>,
    ChunkDeserializationError,
>)
    ensures
        framed_as(r, frame(models(streams@), input@)),
        r matches Ok(Some(info)) ==> 1 <= info.body_at <= input@.len(),
{
    reveal(frame);
    let len = input.len();
    let (fmt, at, csid) = match read_basic_header(input) {
        Some(basic) => basic,
        None => {
            return Ok(None);
        },
    };
    let ghost before = models(streams@);
    let mut known = false;
    let mut prior = ChunkHeader {
        timestamp: 0,
        timestamp_delta: 0,
        message_length: 0,
        message_type_id: 0,
        message_stream_id: 0,
        extended: false,
    };
    let mut received: usize = 0;
    match streams.get(&csid) {
        Some(stream) => {
            known = true;
            prior = stream.header;
            received = stream.body.len();
            assert(before.contains_key(csid) && before[csid] == stream@);
        },
        None => {
            assert(!before.contains_key(csid));
        },
    }
    assert(held(before, csid).header == prior);
    assert(held(before, csid).body.len() == received);
    if fmt != 0 && !known {
        return Err(
            ChunkDeserializationError {
                kind: ChunkDeserializationErrorKind::MissingPreviousChunkHeader,
            },
        );
    }
    let continuing = received > 0;
    if continuing && fmt != 3 {
        return Err(
            ChunkDeserializationError { kind: ChunkDeserializationErrorKind::InvalidChunkFormat },
        );
    }
    let header_len: usize = if fmt == 0 {
        11
    } else if fmt == 1 {
        7
    } else if fmt == 2 {
        3
    } else {
        0
    };
    let after_header = at + header_len;
    if len < after_header {
        return Ok(None);
    }
    let field: u32 = if fmt == 3 {
        0
    } else {
        read_be24(slice_subrange(input, at, at + 3))
    };
    let extended = if fmt == 3 {
        prior.extended
    } else {
        field == EXTENDED_MARK
    };
    let body_at = if extended {
        after_header + 4
    } else {
        after_header
    };
    if len < body_at {
        return Ok(None);
    }
    let time: u32 = if extended && fmt != 3 {
        read_be32(slice_subrange(input, after_header, after_header + 4))
    } else {
        field
    };
    let header = read_message_header(fmt, prior, continuing, input, at, time, extended);
    Ok(Some(FrameInfo { csid, header, body_at, received }))
}

/// Reads one chunk from the start of `input`, if all of it is there.
fn read_chunk(max: usize, streams: &mut HashMap<u32, InboundStream>, input: &[u8]) -> (r: Result<
    Progress,
    ChunkDeserializationError,
>)
    requires
        max >= 1,
        bodies_incomplete(models(old(streams)@)),
    ensures
        bodies_incomplete(models(final(streams)@)),
        follows(
            models(old(streams)@),
            models(final(streams)@),
            r,
            step(max as nat, models(old(streams)@), input@),
        ),
        r matches Ok(Progress::Chunk { consumed, .. }) ==> 1 <= consumed <= input@.len(),
{
    let len = input.len();
    let ghost before = models(streams@);
    let info = match read_frame(streams, input) {
        Ok(Some(info)) => info,
        Ok(None) => {
            return Ok(Progress::Incomplete);
        },
        Err(e) => {
            return Err(e);
        },
    };
    let ghost f = frame(before, input@)->Framed_0;
    let csid = info.csid;
    let header = info.header;
    proof {
        lemma_header_length_kept(before, input@);
    }
    assert(info.received <= header.message_length);
    let remaining: usize = header.message_length as usize - info.received;
    let take = if remaining <= max {
        remaining
    } else {
        max
    };
    if len - info.body_at < take {
        return Ok(Progress::Incomplete);
    }
    let mut body = match streams.remove(&csid) {
        Some(stream) => {
            assert(before.contains_key(csid) && before[csid] == stream@);
            stream.body
        },
        None => {
            assert(!before.contains_key(csid));
            Vec::new()
        },
    };
    assert(body@ == f.received);
    append(&mut body, slice_subrange(input, info.body_at, info.body_at + take));
    if body.len() == header.message_length as usize {
        let payload = MessagePayload {
            timestamp: RtmpTimestamp::new(header.timestamp),
            type_id: header.message_type_id,
            message_stream_id: header.message_stream_id,
            data: body,
        };
        streams.insert(csid, InboundStream { header, body: Vec::new() });
        proof {
            let stream = InboundModel { header, body: Seq::empty() };
            assert(models(streams@) =~= before.insert(csid, stream));
        }
        Ok(Progress::Chunk { consumed: info.body_at + take, emitted: Some(payload) })
    } else {
        let ghost stream = InboundModel { header, body: body@ };
        streams.insert(csid, InboundStream { header, body });
        proof {
            assert(models(streams@) =~= before.insert(csid, stream));
        }
        Ok(Progress::Chunk { consumed: info.body_at + take, emitted: None })
    }
}

/// A chunk in the middle of a message leaves the message's length as it is.
proof fn lemma_header_length_kept(streams: Map<u32, InboundModel>, input: Seq<u8>)
    requires
        bodies_incomplete(streams),
        frame(streams, input) is Framed,
    ensures
        ({
            let f = frame(streams, input)->Framed_0;
            &&& f.received == held(streams, f.csid).body
            &&& f.received.len() == 0 || f.received.len() < f.header.message_length
        }),
{
    reveal(frame);
    let f = frame(streams, input)->Framed_0;
    if f.received.len() > 0 {
        assert(streams.contains_key(f.csid));
    }
}

/// Puts messages together from the chunks of a byte stream, and remembers per
/// chunk stream the last header, which later chunks build on.
pub struct ChunkDeserializer {
    max_chunk_size: usize,
    streams: HashMap<u32, InboundStream>,
    buffer: Vec<u8>,
}

/// Whether the outcome `r` of the deserializer is the outcome `expected`.
pub open spec fn read_agrees(
    r: Result<Option<MessagePayload>, ChunkDeserializationError>,
    expected: Result<Option<PayloadModel>, ChunkDeserializationErrorKind>,
) -> bool {
    match (r, expected) {
        (Ok(Some(payload)), Ok(Some(model))) => payload@ == model,
        (Ok(None), Ok(None)) => true,
        (Err(e), Err(kind)) => e.kind == kind,
        _ => false,
    }
}

impl ChunkDeserializer {
    /// The most bytes that the body of a chunk is taken to hold.
    pub closed spec fn max_chunk_size(&self) -> nat {
        self.max_chunk_size as nat
    }

    /// What is held of each chunk stream.
    pub closed spec fn streams(&self) -> Map<u32, InboundModel> {
        models(self.streams@)
    }

    /// The bytes received that are not yet a whole chunk.
    pub closed spec fn pending(&self) -> Seq<u8> {
        self.buffer@
    }

    /// The chunk size is at least 1 and fits in 31 bits, and no chunk stream
    /// holds a whole message.
    pub open spec fn wf(&self) -> bool {
        &&& 1 <= self.max_chunk_size() <= MAX_CHUNK_SIZE
        &&& bodies_incomplete(self.streams())
    }

    /// A deserializer at the initial chunk size of 128 that has read nothing.
    pub fn new() -> (r: ChunkDeserializer)
        ensures
            r.wf(),
            r.max_chunk_size() == INITIAL_CHUNK_SIZE,
            r.streams() == Map::<u32, InboundModel>::empty(),
            r.pending() == Seq::<u8>::empty(),
    {
        let r = ChunkDeserializer {
            max_chunk_size: INITIAL_CHUNK_SIZE as usize,
            streams: HashMap::new(),
            buffer: Vec::new(),
        };
        assert(models(r.streams@) =~= Map::<u32, InboundModel>::empty());
        r
    }

    /// Changes the chunk size that the chunks to come are read with.
    ///
    /// Fails exactly on a size of 0 or of more than 31 bits, and then changes
    /// nothing.
    pub fn set_max_chunk_size(&mut self, new_size: usize) -> (r: Result<
        (),
        ChunkDeserializationError,
    >)
        requires
            old(self).wf(),
        ensures
            final(self).wf(),
            final(self).streams() == old(self).streams(),
            final(self).pending() == old(self).pending(),
            match r {
                Ok(_) => 1 <= new_size <= MAX_CHUNK_SIZE && final(self).max_chunk_size()
                    == new_size,
                Err(e) => {
                    &&& new_size == 0 || new_size > MAX_CHUNK_SIZE
                    &&& e.kind == ChunkDeserializationErrorKind::InvalidChunkSize
                    &&& final(self).max_chunk_size() == old(self).max_chunk_size()
                },
            },
    {
        if new_size == 0 || new_size > MAX_CHUNK_SIZE as usize {
            return Err(
                ChunkDeserializationError { kind: ChunkDeserializationErrorKind::InvalidChunkSize },
            );
        }
        self.max_chunk_size = new_size;
        Ok(())
    }

    /// Takes `bytes` in and reads on from where the last call stopped, up to
    /// the end of the next message.
    ///
    /// Gives the message that the bytes complete, if any. At most one message
    /// comes out of a call: where the bytes hold more, call again with no
    /// bytes until `None` comes back. Bytes that are not yet a whole chunk are
    /// kept for the next call. After an error nothing more can be read.
    pub fn get_next_message(&mut self, bytes: &[u8]) -> (r: Result<
        Option<MessagePayload>,
        ChunkDeserializationError,
    >)
        requires
            old(self).wf(),
        ensures
            final(self).wf(),
            final(self).max_chunk_size() == old(self).max_chunk_size(),
            ({
                let outcome = run(
                    old(self).max_chunk_size(),
                    old(self).streams(),
                    old(self).pending() + bytes@,
                );
                &&& final(self).streams() == outcome.streams
                &&& final(self).pending() == outcome.rest
                &&& read_agrees(r, outcome.result)
            }),
    {
        append(&mut self.buffer, bytes);
        let ghost input = self.buffer@;
        let ghost goal = run(self.max_chunk_size as nat, models(self.streams@), input);
        let mut pos: usize = 0;
        let mut result: Result<Option<MessagePayload>, ChunkDeserializationError> = Ok(None);
        let mut done = false;
        assert(input.skip(0) =~= input);
        while !done
            invariant
                pos <= self.buffer@.len(),
                self.buffer@ == input,
                1 <= self.max_chunk_size <= MAX_CHUNK_SIZE,
                self.max_chunk_size == old(self).max_chunk_size,
                bodies_incomplete(models(self.streams@)),
                !done ==> result matches Ok(None),
                !done ==> goal == run(
                    self.max_chunk_size as nat,
                    models(self.streams@),
                    input.skip(pos as int),
                ),
                done ==> {
                    &&& goal.streams == models(self.streams@)
                    &&& goal.rest == input.skip(pos as int)
                    &&& read_agrees(result, goal.result)
                },
            decreases input.len() - pos, (if done { 0int } else { 1int }),
        {
            let rest = slice_subrange(self.buffer.as_slice(), pos, self.buffer.len());
            assert(rest@ =~= input.skip(pos as int));
            match read_chunk(self.max_chunk_size, &mut self.streams, rest) {
                Ok(Progress::Incomplete) => {
                    done = true;
                },
                Ok(Progress::Chunk { consumed, emitted }) => {
                    assert(input.skip(pos as int).skip(consumed as int) =~= input.skip(
                        pos + consumed,
                    ));
                    pos = pos + consumed;
                    if emitted.is_some() {
                        result = Ok(emitted);
                        done = true;
                    }
                },
                Err(e) => {
                    result = Err(e);
                    done = true;
                },
            }
        }
        let rest = self.buffer.split_off(pos);
        self.buffer = rest;
        assert(self.buffer@ =~= input.skip(pos as int));
        result
    }
}

} // verus!
