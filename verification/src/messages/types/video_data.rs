//! Video data: the body is the video bytes, untouched.

use crate::messages::{agrees, MessageDeserializationError, MessageModel};
use crate::messages::{MessageSerializationError, Parsed, RtmpMessage};
use vstd::prelude::*;

verus! {

/// What a body reads as: every body is video data.
pub open spec fn parsed(data: Seq<u8>) -> Parsed {
    Ok(MessageModel::VideoData { data })
}

/// The body is the data itself, handed over without a copy.
pub fn serialize(data: Vec<u8>) -> (r: Result<Vec<u8>, MessageSerializationError>)
    ensures
        r matches Ok(bytes) && bytes@ == data@,
{
    Ok(data)
}

pub fn deserialize(data: &[u8]) -> (r: Result<RtmpMessage, MessageDeserializationError>)
    ensures
        agrees(r, parsed(data@)),
{
    Ok(RtmpMessage::VideoData { data: vstd::slice::slice_to_vec(data) })
}

} // verus!
