//! Acknowledgement: how many bytes the sender has received so far.

use crate::messages::{agrees, field32, read_field32, single_field32};
use crate::messages::{MessageDeserializationError, MessageDeserializationErrorKind};
use crate::messages::{MessageModel, MessageSerializationError, Parsed, RtmpMessage};
use crate::wire::be32_bytes;
use vstd::prelude::*;

verus! {

/// The body of an acknowledgement: the byte count as a big-endian 32 bit number.
pub open spec fn body(sequence_number: u32) -> Seq<u8> {
    be32_bytes(sequence_number as int)
}

/// What a body reads as. Bytes after the fourth are ignored.
pub open spec fn parsed(data: Seq<u8>) -> Parsed {
    if data.len() < 4 {
        Err(MessageDeserializationErrorKind::IoShort)
    } else {
        Ok(MessageModel::Acknowledgement { sequence_number: field32(data, 0) })
    }
}

pub fn serialize(sequence_number: u32) -> (r: Result<Vec<u8>, MessageSerializationError>)
    ensures
        r matches Ok(bytes) && bytes@ == body(sequence_number),
{
    Ok(single_field32(sequence_number))
}

pub fn deserialize(data: &[u8]) -> (r: Result<RtmpMessage, MessageDeserializationError>)
    ensures
        agrees(r, parsed(data@)),
{
    if data.len() < 4 {
        return Err(MessageDeserializationError { kind: MessageDeserializationErrorKind::IoShort });
    }
    Ok(RtmpMessage::Acknowledgement { sequence_number: read_field32(data, 0) })
}

} // verus!
