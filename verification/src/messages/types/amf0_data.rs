//! AMF0 data: a list of values, most often stream metadata.

use crate::amf0::codec::{amf0_decoding, amf0_encoded_len, decode, encode, encodes};
use crate::amf0::{all_encodable_models, values_model, AmfValue};
use crate::messages::{agrees, MessageDeserializationError, MessageDeserializationErrorKind};
use crate::messages::{MessageModel, MessageSerializationError, MessageSerializationErrorKind};
use crate::messages::{Parsed, RtmpMessage};
use vstd::prelude::*;

verus! {

/// What a body reads as: the values that AMF0 decodes from it.
pub open spec fn parsed(data: Seq<u8>) -> Parsed {
    match amf0_decoding(data) {
        Some(values) => Ok(MessageModel::Amf0Data { values }),
        None => Err(MessageDeserializationErrorKind::Amf0DecodeFailed),
    }
}

/// Fails exactly where AMF0 cannot hold the values. The body that is written
/// reads as the values again, and has the length that the values call for.
pub fn serialize(values: Vec<AmfValue>) -> (r: Result<Vec<u8>, MessageSerializationError>)
    ensures
        match r {
            Ok(bytes) => {
                &&& all_encodable_models(values_model(values@))
                &&& encodes(bytes@, values_model(values@))
                &&& bytes@.len() == amf0_encoded_len(values_model(values@))
            },
            Err(e) => !all_encodable_models(values_model(values@)) && e.kind
                == MessageSerializationErrorKind::Amf0EncodeFailed,
        },
{
    match encode(&values) {
        Ok(bytes) => Ok(bytes),
        Err(_) => Err(
            MessageSerializationError { kind: MessageSerializationErrorKind::Amf0EncodeFailed },
        ),
    }
}

pub fn deserialize(data: &[u8]) -> (r: Result<RtmpMessage, MessageDeserializationError>)
    ensures
        agrees(r, parsed(data@)),
{
    match decode(data) {
        Ok(values) => Ok(RtmpMessage::Amf0Data { values }),
        Err(_) => Err(
            MessageDeserializationError { kind: MessageDeserializationErrorKind::Amf0DecodeFailed },
        ),
    }
}

} // verus!
