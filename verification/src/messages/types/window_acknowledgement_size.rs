//! Window acknowledgement size: after how many received bytes the peer is to acknowledge.

use crate::messages::{agrees, field32, read_field32, single_field32};
use crate::messages::{MessageDeserializationError, MessageDeserializationErrorKind};
use crate::messages::{MessageModel, MessageSerializationError, Parsed, RtmpMessage};
use crate::wire::be32_bytes;
use vstd::prelude::*;

verus! {

/// The body: the window size as a big-endian 32 bit number.
pub open spec fn body(size: u32) -> Seq<u8> {
    be32_bytes(size as int)
}

/// What a body reads as. Bytes after the fourth are ignored.
pub open spec fn parsed(data: Seq<u8>) -> Parsed {
    if data.len() < 4 {
        Err(MessageDeserializationErrorKind::IoShort)
    } else {
        Ok(MessageModel::WindowAcknowledgement { size: field32(data, 0) })
    }
}

pub fn serialize(size: u32) -> (r: Result<Vec<u8>, MessageSerializationError>)
    ensures
        r matches Ok(bytes) && bytes@ == body(size),
{
    Ok(single_field32(size))
}

pub fn deserialize(data: &[u8]) -> (r: Result<RtmpMessage, MessageDeserializationError>)
    ensures
        agrees(r, parsed(data@)),
{
    if data.len() < 4 {
        return Err(MessageDeserializationError { kind: MessageDeserializationErrorKind::IoShort });
    }
    Ok(RtmpMessage::WindowAcknowledgement { size: read_field32(data, 0) })
}

} // verus!
