//! Abort: the chunk stream whose half-received message is to be discarded.

use crate::messages::{agrees, field32, read_field32, single_field32};
use crate::messages::{MessageDeserializationError, MessageDeserializationErrorKind};
use crate::messages::{MessageModel, MessageSerializationError, Parsed, RtmpMessage};
use crate::wire::be32_bytes;
use vstd::prelude::*;

verus! {

/// The body of an abort message: the stream id as a big-endian 32 bit number.
pub open spec fn body(stream_id: u32) -> Seq<u8> {
    be32_bytes(stream_id as int)
}

/// What a body reads as. Bytes after the fourth are ignored.
pub open spec fn parsed(data: Seq<u8>) -> Parsed {
    if data.len() < 4 {
        Err(MessageDeserializationErrorKind::IoShort)
    } else {
        Ok(MessageModel::Abort { stream_id: field32(data, 0) })
    }
}

pub fn serialize(stream_id: u32) -> (r: Result<Vec<u8>, MessageSerializationError>)
    ensures
        r matches Ok(bytes) && bytes@ == body(stream_id),
{
    Ok(single_field32(stream_id))
}

pub fn deserialize(data: &[u8]) -> (r: Result<RtmpMessage, MessageDeserializationError>)
    ensures
        agrees(r, parsed(data@)),
{
    if data.len() < 4 {
        return Err(MessageDeserializationError { kind: MessageDeserializationErrorKind::IoShort });
    }
    Ok(RtmpMessage::Abort { stream_id: read_field32(data, 0) })
}

} // verus!
