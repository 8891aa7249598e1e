//! Set chunk size: the sender's new maximum for the body of a chunk.

use crate::messages::{agrees, field32, read_field32, single_field32};
use crate::messages::{MessageDeserializationError, MessageDeserializationErrorKind};
use crate::messages::{MessageModel, MessageSerializationError, MessageSerializationErrorKind};
use crate::messages::{Parsed, RtmpMessage};
use crate::wire::be32_bytes;
use vstd::prelude::*;

verus! {

/// The largest chunk size: the field has 31 bits, the top bit of the word is zero.
pub const MAX_SIZE: u32 = 0x7FFF_FFFF;

/// The body of a set chunk size message: the size as a big-endian 32 bit number.
pub open spec fn body(size: u32) -> Seq<u8> {
    be32_bytes(size as int)
}

/// What a body reads as: the low 31 bits of its first four bytes. The top bit
/// is ignored, and so are the bytes after the fourth.
pub open spec fn parsed(data: Seq<u8>) -> Parsed {
    if data.len() < 4 {
        Err(MessageDeserializationErrorKind::IoShort)
    } else {
        Ok(MessageModel::SetChunkSize { size: (field32(data, 0) % 0x8000_0000) as u32 })
    }
}

/// Fails exactly on a size of more than 31 bits, so that the top bit of what
/// is written is always zero.
pub fn serialize(size: u32) -> (r: Result<Vec<u8>, MessageSerializationError>)
    ensures
        match r {
            Ok(bytes) => size <= MAX_SIZE && bytes@ == body(size),
            Err(e) => size > MAX_SIZE && e.kind == MessageSerializationErrorKind::InvalidChunkSize,
        },
{
    if size > MAX_SIZE {
        return Err(
            MessageSerializationError { kind: MessageSerializationErrorKind::InvalidChunkSize },
        );
    }
    Ok(single_field32(size))
}

pub fn deserialize(data: &[u8]) -> (r: Result<RtmpMessage, MessageDeserializationError>)
    ensures
        agrees(r, parsed(data@)),
{
    if data.len() < 4 {
        return Err(MessageDeserializationError { kind: MessageDeserializationErrorKind::IoShort });
    }
    let word = read_field32(data, 0);
    let size = word & 0x7FFF_FFFF;
    assert(word & 0x7FFF_FFFF == word % 0x8000_0000) by (bit_vector);
    Ok(RtmpMessage::SetChunkSize { size })
}

} // verus!
