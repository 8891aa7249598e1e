//! Messages to chunks.

use crate::chunk_io::format::{chunk_bytes, joined, message_bytes, split, write_basic_header};
use crate::chunk_io::format::{write_message_header, ChunkHeader, EXTENDED_MARK};
use crate::chunk_io::format::{INITIAL_CHUNK_SIZE, MAX_CHUNK_SIZE, MAX_MESSAGE_LEN};
use crate::chunk_io::{ChunkSerializationError, ChunkSerializationErrorKind, Packet};
use crate::messages::message_payload::{MessagePayload, PayloadModel};
use crate::time::span;
use crate::wire::{append, be32_bytes, write_be32};
use std::collections::HashMap;
use vstd::prelude::*;

verus! {

broadcast use vstd::std_specs::hash::group_hash_axioms;

/// The chunk stream that messages of a type travel on. Protocol control
/// messages travel on chunk stream 2; data, commands, audio and video each
/// have a chunk stream of their own, so that their headers compress.
pub open spec fn csid_for(type_id: u8) -> u32 {
    if 1 <= type_id <= 6 {
        2
    } else if type_id == 18 || type_id == 15 {
        3
    } else if type_id == 20 || type_id == 17 {
        5
    } else if type_id == 8 {
        6
    } else if type_id == 9 {
        7
    } else {
        4
    }
}

/// The step from time `from` to time `to` on the wrapping clock.
pub open spec fn time_step(from: u32, to: u32) -> u32 {
    ((to - from) % span()) as u32
}

/// The format of the first chunk of a message: the smallest header that the
/// last message on the chunk stream allows. A full header (0) where there is
/// no such message, where one is asked for, or for another message stream;
/// without the stream id (1) where length or type differ; the time step alone
/// (2) where only it differs; nothing (3) where the step is the same too.
pub open spec fn chosen_format(prior: Option<ChunkHeader>, message: PayloadModel, force: bool)
    -> u8 {
    match prior {
        None => 0,
        Some(h) => if force || h.message_stream_id != message.message_stream_id {
            0
        } else if h.message_type_id != message.type_id || h.message_length
            != message.data.len() {
            1
        } else if time_step(h.timestamp, message.timestamp) != h.timestamp_delta {
            2
        } else {
            3
        },
    }
}

/// What the serializer remembers of a message once it is written.
pub open spec fn next_header(prior: Option<ChunkHeader>, message: PayloadModel, force: bool)
    -> ChunkHeader {
    let fmt = chosen_format(prior, message, force);
    let delta = if fmt == 0 {
        0
    } else {
        time_step(prior.unwrap().timestamp, message.timestamp)
    };
    ChunkHeader {
        timestamp: message.timestamp,
        timestamp_delta: delta,
        message_length: message.data.len() as u32,
        message_type_id: message.type_id,
        message_stream_id: message.message_stream_id,
        extended: if fmt == 0 {
            message.timestamp >= EXTENDED_MARK
        } else if fmt == 3 {
            prior.unwrap().extended
        } else {
            delta >= EXTENDED_MARK
        },
    }
}

/// The entry of a map, if there is one.
pub open spec fn entry(headers: Map<u32, ChunkHeader>, csid: u32) -> Option<ChunkHeader> {
    if headers.contains_key(csid) {
        Some(headers[csid])
    } else {
        None
    }
}

/// What the serializer remembers of a set chunk size message.
pub open spec fn chunk_size_header() -> ChunkHeader {
    ChunkHeader {
        timestamp: 0,
        timestamp_delta: 0,
        message_length: 4,
        message_type_id: 1,
        message_stream_id: 0,
        extended: false,
    }
}

/// Cuts messages into chunks, and remembers per chunk stream what it sent
/// last, so that the next header can leave out what did not change.
pub struct ChunkSerializer {
    previous_headers: HashMap<u32, ChunkHeader>,
    max_chunk_size: u32,
}

impl ChunkSerializer {
    /// The most bytes that the body of a chunk may hold.
    pub closed spec fn max_chunk_size(&self) -> nat {
        self.max_chunk_size as nat
    }

    /// The last message sent on each chunk stream.
    pub closed spec fn previous_headers(&self) -> Map<u32, ChunkHeader> {
        self.previous_headers@
    }

    /// The chunk size is at least 1 and fits in 31 bits.
    pub open spec fn wf(&self) -> bool {
        1 <= self.max_chunk_size() <= MAX_CHUNK_SIZE
    }

    /// A serializer at the initial chunk size of 128 that has sent nothing.
    pub fn new() -> (r: ChunkSerializer)
        ensures
            r.wf(),
            r.max_chunk_size() == INITIAL_CHUNK_SIZE,
            r.previous_headers() == Map::<u32, ChunkHeader>::empty(),
    {
        ChunkSerializer { previous_headers: HashMap::new(), max_chunk_size: INITIAL_CHUNK_SIZE }
    }

    /// Changes the chunk size for the chunks to come. With `force`, the
    /// packet that tells the peer is returned too: a set chunk size message
    /// under a full header, cut at the size that held until now.
    ///
    /// Fails exactly on a size of 0 or of more than 31 bits, and then changes
    /// nothing.
    pub fn set_max_chunk_size(&mut self, new_size: u32, force: bool) -> (r: Result<
        Option<Packet>,
        ChunkSerializationError,
    >)
        requires
            old(self).wf(),
        ensures
            final(self).wf(),
            match r {
                Ok(packet) => {
                    &&& 1 <= new_size <= MAX_CHUNK_SIZE
                    &&& final(self).max_chunk_size() == new_size
                    &&& packet is Some == force
                    &&& match packet {
                        Some(p) => {
                            &&& !p.can_be_dropped
                            &&& p.bytes@ == message_bytes(
                                2,
                                0,
                                chunk_size_header(),
                                be32_bytes(new_size as int),
                                old(self).max_chunk_size(),
                            )
                            &&& final(self).previous_headers() == old(
                                self,
                            ).previous_headers().insert(2, chunk_size_header())
                        },
                        None => final(self).previous_headers() == old(self).previous_headers(),
                    }
                },
                Err(e) => {
                    &&& new_size == 0 || new_size > MAX_CHUNK_SIZE
                    &&& e.kind == ChunkSerializationErrorKind::InvalidChunkSize
                    &&& final(self).max_chunk_size() == old(self).max_chunk_size()
                    &&& final(self).previous_headers() == old(self).previous_headers()
                },
            },
    {
        if new_size == 0 || new_size > MAX_CHUNK_SIZE {
            return Err(
                ChunkSerializationError { kind: ChunkSerializationErrorKind::InvalidChunkSize },
            );
        }
        if !force {
            self.max_chunk_size = new_size;
            return Ok(None);
        }
        let field = write_be32(new_size);
        let mut body: Vec<u8> = Vec::new();
        append(&mut body, field.as_slice());
        let header = ChunkHeader {
            timestamp: 0,
            timestamp_delta: 0,
            message_length: 4,
            message_type_id: 1,
            message_stream_id: 0,
            extended: false,
        };
        let bytes = write_message(2, 0, &header, body.as_slice(), self.max_chunk_size);
        self.previous_headers.insert(2, header);
        self.max_chunk_size = new_size;
        Ok(Some(Packet { bytes, can_be_dropped: false }))
    }

    /// Writes a message as chunks.
    ///
    /// The first chunk has the smallest header that the last message on the
    /// chunk stream allows, or a full one if `force_uncompressed`; the others
    /// have a header of format 3. The message is then what the serializer
    /// remembers of its chunk stream.
    ///
    /// Fails exactly on a body of more than 16,777,215 bytes, and then
    /// changes nothing.
    pub fn serialize(
        &mut self,
        message: &MessagePayload,
        force_uncompressed: bool,
        can_be_dropped: bool,
    ) -> (r: Result<Packet, ChunkSerializationError>)
        requires
            old(self).wf(),
        ensures
            final(self).wf(),
            final(self).max_chunk_size() == old(self).max_chunk_size(),
            match r {
                Ok(packet) => {
                    let csid = csid_for(message.type_id);
                    let prior = entry(old(self).previous_headers(), csid);
                    let header = next_header(prior, message@, force_uncompressed);
                    &&& message.data@.len() <= MAX_MESSAGE_LEN
                    &&& packet.can_be_dropped == can_be_dropped
                    &&& packet.bytes@ == message_bytes(
                        csid,
                        chosen_format(prior, message@, force_uncompressed),
                        header,
                        message.data@,
                        old(self).max_chunk_size(),
                    )
                    &&& final(self).previous_headers() == old(self).previous_headers().insert(
                        csid,
                        header,
                    )
                },
                Err(e) => {
                    &&& message.data@.len() > MAX_MESSAGE_LEN
                    &&& e.kind == ChunkSerializationErrorKind::MessageTooLarge
                    &&& final(self).previous_headers() == old(self).previous_headers()
                },
            },
    {
        if message.data.len() > MAX_MESSAGE_LEN as usize {
            return Err(
                ChunkSerializationError { kind: ChunkSerializationErrorKind::MessageTooLarge },
            );
        }
        let csid = get_csid_for_message_type(message.type_id);
        let length = message.data.len() as u32;
        let mut header = ChunkHeader {
            timestamp: message.timestamp.value,
            timestamp_delta: 0,
            message_length: length,
            message_type_id: message.type_id,
            message_stream_id: message.message_stream_id,
            extended: message.timestamp.value >= EXTENDED_MARK,
        };
        let mut fmt: u8 = 0;
        match self.previous_headers.get(&csid) {
            None => {},
            Some(previous) => {
                if !force_uncompressed && previous.message_stream_id == header.message_stream_id {
                    let delta = header.timestamp.wrapping_sub(previous.timestamp);
                    header.timestamp_delta = delta;
                    if previous.message_type_id != header.message_type_id
                        || previous.message_length != header.message_length {
                        fmt = 1;
                        header.extended = delta >= EXTENDED_MARK;
                    } else if delta != previous.timestamp_delta {
                        fmt = 2;
                        header.extended = delta >= EXTENDED_MARK;
                    } else {
                        fmt = 3;
                        header.extended = previous.extended;
                    }
                }
            },
        }
        let bytes = write_message(csid, fmt, &header, message.data.as_slice(), self.max_chunk_size);
        self.previous_headers.insert(csid, header);
        Ok(Packet { bytes, can_be_dropped })
    }
}

/// The chunk stream that messages of a type travel on.
pub fn get_csid_for_message_type(type_id: u8) -> (r: u32)
    ensures
        r == csid_for(type_id),
        2 <= r <= 7,
{
    if 1 <= type_id && type_id <= 6 {
        2
    } else if type_id == 18 || type_id == 15 {
        3
    } else if type_id == 20 || type_id == 17 {
        5
    } else if type_id == 8 {
        6
    } else if type_id == 9 {
        7
    } else {
        4
    }
}

/// The chunks of a message: the first holds up to `max` bytes under a header
/// of format `fmt`, each of the others up to `max` bytes under a header of
/// format 3.
fn write_message(csid: u32, fmt: u8, header: &ChunkHeader, data: &[u8], max: u32) -> (bytes: Vec<
    u8,
>)
    requires
        fmt <= 3,
        2 <= csid <= crate::chunk_io::format::MAX_CSID,
        header.message_length <= MAX_MESSAGE_LEN,
        max >= 1,
    ensures
        bytes@ == message_bytes(csid, fmt, *header, data@, max as nat),
{
    let len = data.len();
    let step = max as usize;
    let ghost target = message_bytes(csid, fmt, *header, data@, max as nat);
    let mut bytes: Vec<u8> = Vec::new();
    write_basic_header(&mut bytes, fmt, csid);
    write_message_header(&mut bytes, fmt, header);
    let first = if len <= step {
        len
    } else {
        step
    };
    append(&mut bytes, vstd::slice::slice_subrange(data, 0, first));
    let mut pos: usize = first;
    proof {
        let bodies = split(data@, max as nat);
        if len <= step {
            assert(data@.subrange(0, first as int) =~= data@);
            assert(bodies.skip(1) =~= Seq::<Seq<u8>>::empty());
            assert(joined(csid, 3, *header, bodies.skip(1)) =~= Seq::<u8>::empty());
            assert(target =~= bytes@);
        } else {
            assert(bodies.skip(1) =~= split(data@.skip(max as int), max as nat));
            assert(data@.subrange(0, first as int) =~= data@.take(max as int));
            assert(target =~= bytes@ + joined(
                csid,
                3,
                *header,
                split(data@.skip(pos as int), max as nat),
            ));
        }
    }
    while pos < len
        invariant
            pos <= len,
            len == data@.len(),
            step == max,
            max >= 1,
            2 <= csid <= crate::chunk_io::format::MAX_CSID,
            header.message_length <= MAX_MESSAGE_LEN,
            target == message_bytes(csid, fmt, *header, data@, max as nat),
            pos < len ==> target == bytes@ + joined(
                csid,
                3,
                *header,
                split(data@.skip(pos as int), max as nat),
            ),
            pos == len ==> target == bytes@,
        decreases len - pos,
    {
        let ghost before = bytes@;
        let ghost rest = data@.skip(pos as int);
        let take = if len - pos <= step {
            len - pos
        } else {
            step
        };
        write_basic_header(&mut bytes, 3, csid);
        write_message_header(&mut bytes, 3, header);
        append(&mut bytes, vstd::slice::slice_subrange(data, pos, pos + take));
        proof {
            let bodies = split(rest, max as nat);
            assert(data@.subrange(pos as int, pos + take) =~= rest.take(take as int));
            assert(bytes@ =~= before + chunk_bytes(csid, 3, *header, rest.take(take as int)));
            if len - pos <= step {
                assert(rest.take(take as int) =~= rest);
                assert(bodies.skip(1) =~= Seq::<Seq<u8>>::empty());
                assert(joined(csid, 3, *header, bodies.skip(1)) =~= Seq::<u8>::empty());
                assert(target =~= bytes@);
            } else {
                assert(bodies.skip(1) =~= split(rest.skip(max as int), max as nat));
                assert(rest.skip(max as int) =~= data@.skip(pos + take));
                assert(target =~= bytes@ + joined(
                    csid,
                    3,
                    *header,
                    split(data@.skip(pos + take), max as nat),
                ));
            }
        }
        pos = pos + take;
    }
    bytes
}

} // verus!
