//! Set peer bandwidth: the output bandwidth that the peer is asked to keep to.

use crate::messages::{agrees, field32, read_field32, single_field32};
use crate::messages::{MessageDeserializationError, MessageDeserializationErrorKind};
use crate::messages::{MessageModel, MessageSerializationError, Parsed, PeerBandwidthLimitType};
use crate::messages::RtmpMessage;
use crate::wire::be32_bytes;
use vstd::prelude::*;

verus! {

/// The byte that stands for a limit type.
pub open spec fn limit_code(limit_type: PeerBandwidthLimitType) -> u8 {
    match limit_type {
        PeerBandwidthLimitType::Hard => 0,
        PeerBandwidthLimitType::Soft => 1,
        PeerBandwidthLimitType::Dynamic => 2,
    }
}

/// The limit type that a byte stands for, if any.
pub open spec fn limit_of_code(code: u8) -> Option<PeerBandwidthLimitType> {
    if code == 0 {
        Some(PeerBandwidthLimitType::Hard)
    } else if code == 1 {
        Some(PeerBandwidthLimitType::Soft)
    } else if code == 2 {
        Some(PeerBandwidthLimitType::Dynamic)
    } else {
        None
    }
}

/// The body: the size as a big-endian 32 bit number, then the limit type.
pub open spec fn body(limit_type: PeerBandwidthLimitType, size: u32) -> Seq<u8> {
    be32_bytes(size as int).push(limit_code(limit_type))
}

/// What a body reads as. Bytes after the fifth are ignored.
pub open spec fn parsed(data: Seq<u8>) -> Parsed {
    if data.len() < 5 {
        Err(MessageDeserializationErrorKind::IoShort)
    } else {
        match limit_of_code(data[4]) {
            Some(limit_type) => Ok(
                MessageModel::SetPeerBandwidth { size: field32(data, 0), limit_type },
            ),
            None => Err(MessageDeserializationErrorKind::InvalidPeerBandwidthLimitType),
        }
    }
}

pub fn serialize(limit_type: PeerBandwidthLimitType, size: u32) -> (r: Result<
    Vec<u8>,
    MessageSerializationError,
>)
    ensures
        r matches Ok(bytes) && bytes@ == body(limit_type, size),
{
    let code: u8 = match limit_type {
        PeerBandwidthLimitType::Hard => 0,
        PeerBandwidthLimitType::Soft => 1,
        PeerBandwidthLimitType::Dynamic => 2,
    };
    let mut bytes = single_field32(size);
    bytes.push(code);
    Ok(bytes)
}

pub fn deserialize(data: &[u8]) -> (r: Result<RtmpMessage, MessageDeserializationError>)
    ensures
        agrees(r, parsed(data@)),
{
    if data.len() < 5 {
        return Err(MessageDeserializationError { kind: MessageDeserializationErrorKind::IoShort });
    }
    let size = read_field32(data, 0);
    let code: u8 = data[4];
    let limit_type = if code == 0 {
        PeerBandwidthLimitType::Hard
    } else if code == 1 {
        PeerBandwidthLimitType::Soft
    } else if code == 2 {
        PeerBandwidthLimitType::Dynamic
    } else {
        return Err(
            MessageDeserializationError {
                kind: MessageDeserializationErrorKind::InvalidPeerBandwidthLimitType,
            },
        );
    };
    Ok(RtmpMessage::SetPeerBandwidth { size, limit_type })
}

} // verus!
