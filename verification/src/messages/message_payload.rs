//! A raw message: the bytes of one message body with the metadata it travels under.

use crate::amf0::all_encodable_models;
use crate::amf0::codec::{amf0_encoded_len, encodes};
use crate::messages::types::{abort, acknowledgement, amf0_command, amf0_data, audio_data};
use crate::messages::types::{set_chunk_size, set_peer_bandwidth, user_control, video_data};
use crate::messages::types::window_acknowledgement_size;
use crate::messages::{agrees, MessageDeserializationError, MessageModel};
use crate::messages::{MessageSerializationError, MessageSerializationErrorKind, Parsed};
use crate::messages::RtmpMessage;
use crate::time::RtmpTimestamp;
use crate::wire::tail;
use vstd::prelude::*;

verus! {

/// Represents a raw RTMP message.
#[derive(Debug, Clone, PartialEq)]
pub struct MessagePayload {
    pub timestamp: RtmpTimestamp,
    pub type_id: u8,
    pub message_stream_id: u32,
    pub data: Vec<u8>,
}

/// What a `MessagePayload` stands for.
pub struct PayloadModel {
    pub timestamp: u32,
    pub type_id: u8,
    pub message_stream_id: u32,
    pub data: Seq<u8>,
}

impl View for MessagePayload {
    type V = PayloadModel;

    open spec fn view(&self) -> PayloadModel {
        PayloadModel {
            timestamp: self.timestamp.value,
            type_id: self.type_id,
            message_stream_id: self.message_stream_id,
            data: self.data@,
        }
    }
}

/// The message that a body reads as under a type id.
///
/// Type 15 is read as type 18 and type 17 as type 20, the latter without a
/// leading zero byte if there is one: some players flag AMF0 bodies as AMF3.
/// A type id without a codec gives an `Unknown` message, not an error.
pub open spec fn message_of(type_id: u8, data: Seq<u8>) -> Parsed {
    if type_id == 1 {
        set_chunk_size::parsed(data)
    } else if type_id == 2 {
        abort::parsed(data)
    } else if type_id == 3 {
        acknowledgement::parsed(data)
    } else if type_id == 4 {
        user_control::parsed(data)
    } else if type_id == 5 {
        window_acknowledgement_size::parsed(data)
    } else if type_id == 6 {
        set_peer_bandwidth::parsed(data)
    } else if type_id == 8 {
        audio_data::parsed(data)
    } else if type_id == 9 {
        video_data::parsed(data)
    } else if type_id == 18 || type_id == 15 {
        amf0_data::parsed(data)
    } else if type_id == 20 {
        amf0_command::parsed(data)
    } else if type_id == 17 {
        if data.len() > 0 && data[0] == 0 {
            amf0_command::parsed(data.subrange(1, data.len() as int))
        } else {
            amf0_command::parsed(data)
        }
    } else {
        Ok(MessageModel::Unknown { type_id, data })
    }
}

/// Whether a type id has a codec, so that `message_of` does not give `Unknown`.
pub open spec fn has_codec(type_id: u8) -> bool {
    1 <= type_id <= 6 || type_id == 8 || type_id == 9 || type_id == 15 || type_id == 17
        || type_id == 18 || type_id == 20
}

/// Whether a message has a body at all: a chunk size has 31 bits, a user
/// control message holds the fields that its event carries, and AMF0 can hold
/// the values of a command or data message.
pub open spec fn writable(message: MessageModel) -> bool {
    match message {
        MessageModel::SetChunkSize { size } => size <= set_chunk_size::MAX_SIZE,
        MessageModel::UserControl {
            event_type,
            stream_id,
            buffer_length,
            timestamp,
        } => user_control::body(event_type, stream_id, buffer_length, timestamp) is Some,
        MessageModel::Amf0Command {
            command_name,
            transaction_id,
            command_object,
            additional_arguments,
        } => all_encodable_models(
            amf0_command::command_values(
                command_name,
                transaction_id,
                command_object,
                additional_arguments,
            ),
        ),
        MessageModel::Amf0Data { values } => all_encodable_models(values),
        _ => true,
    }
}

/// The length of the body of a message that has one. For a command or data
/// message it is the number of bytes that the AMF0 codec writes for the
/// message's values.
pub open spec fn body_len(message: MessageModel) -> nat {
    match message {
        MessageModel::Unknown { data, .. } => data.len(),
        MessageModel::Abort { stream_id } => abort::body(stream_id).len(),
        MessageModel::Acknowledgement { sequence_number } => acknowledgement::body(
            sequence_number,
        ).len(),
        MessageModel::Amf0Command {
            command_name,
            transaction_id,
            command_object,
            additional_arguments,
        } => amf0_encoded_len(
            amf0_command::command_values(
                command_name,
                transaction_id,
                command_object,
                additional_arguments,
            ),
        ),
        MessageModel::Amf0Data { values } => amf0_encoded_len(values),
        MessageModel::AudioData { data } => data.len(),
        MessageModel::SetChunkSize { size } => set_chunk_size::body(size).len(),
        MessageModel::SetPeerBandwidth { size, limit_type } => set_peer_bandwidth::body(
            limit_type,
            size,
        ).len(),
        MessageModel::UserControl {
            event_type,
            stream_id,
            buffer_length,
            timestamp,
        } => match user_control::body(event_type, stream_id, buffer_length, timestamp) {
            Some(bytes) => bytes.len(),
            None => 0,
        },
        MessageModel::VideoData { data } => data.len(),
        MessageModel::WindowAcknowledgement { size } => window_acknowledgement_size::body(
            size,
        ).len(),
    }
}

/// The error that a message without a body is refused with.
pub open spec fn refusal(message: MessageModel) -> MessageSerializationErrorKind {
    match message {
        MessageModel::SetChunkSize { .. } => MessageSerializationErrorKind::InvalidChunkSize,
        MessageModel::UserControl { .. } => MessageSerializationErrorKind::InvalidMessageFormat,
        _ => MessageSerializationErrorKind::Amf0EncodeFailed,
    }
}

/// Whether `data` is a body of `message`.
///
/// For all but the AMF0 messages this fixes the bytes. An AMF0 body is any
/// encoding of the message's values: the order in which the properties of an
/// object are written is not fixed.
pub open spec fn is_body_of(data: Seq<u8>, message: MessageModel) -> bool {
    match message {
        MessageModel::Unknown { data: bytes, .. } => data == bytes,
        MessageModel::Abort { stream_id } => data == abort::body(stream_id),
        MessageModel::Acknowledgement { sequence_number } => data == acknowledgement::body(
            sequence_number,
        ),
        MessageModel::Amf0Command {
            command_name,
            transaction_id,
            command_object,
            additional_arguments,
        } => encodes(
            data,
            amf0_command::command_values(
                command_name,
                transaction_id,
                command_object,
                additional_arguments,
            ),
        ),
        MessageModel::Amf0Data { values } => encodes(data, values),
        MessageModel::AudioData { data: bytes } => data == bytes,
        MessageModel::SetChunkSize { size } => data == set_chunk_size::body(size),
        MessageModel::SetPeerBandwidth { size, limit_type } => data == set_peer_bandwidth::body(
            limit_type,
            size,
        ),
        MessageModel::UserControl {
            event_type,
            stream_id,
            buffer_length,
            timestamp,
        } => Some(data) == user_control::body(event_type, stream_id, buffer_length, timestamp),
        MessageModel::VideoData { data: bytes } => data == bytes,
        MessageModel::WindowAcknowledgement { size } => data == window_acknowledgement_size::body(
            size,
        ),
    }
}

impl MessagePayload {
    /// An empty payload: type 0 on stream 0 at time 0.
    pub fn new() -> (r: MessagePayload)
        ensures
            r.timestamp.value == 0,
            r.type_id == 0,
            r.message_stream_id == 0,
            r.data@.len() == 0,
    {
        MessagePayload {
            timestamp: RtmpTimestamp::new(0),
            message_stream_id: 0,
            type_id: 0,
            data: Vec::new(),
        }
    }

    /// Reads the body as the message that the type id says it is.
    pub fn to_rtmp_message(&self) -> (r: Result<RtmpMessage, MessageDeserializationError>)
        ensures
            agrees(r, message_of(self.type_id, self.data@)),
    {
        let data = self.data.as_slice();
        match self.type_id {
            1 => set_chunk_size::deserialize(data),
            2 => abort::deserialize(data),
            3 => acknowledgement::deserialize(data),
            4 => user_control::deserialize(data),
            5 => window_acknowledgement_size::deserialize(data),
            6 => set_peer_bandwidth::deserialize(data),
            8 => audio_data::deserialize(data),
            9 => video_data::deserialize(data),
            18 => amf0_data::deserialize(data),
            20 => amf0_command::deserialize(data),
            15 => amf0_data::deserialize(data),
            17 => {
                if data.len() > 0 && data[0] == 0x00 {
                    amf0_command::deserialize(tail(data, 1))
                } else {
                    amf0_command::deserialize(data)
                }
            },
            _ => Ok(
                RtmpMessage::Unknown { type_id: self.type_id, data: vstd::slice::slice_to_vec(data) },
            ),
        }
    }

    /// Writes the message's body and puts it under the message's type id, the
    /// timestamp and the message stream id.
    ///
    /// Fails exactly on a message without a body: a chunk size of more than 31
    /// bits, a user control event that lacks a field, or values that AMF0
    /// cannot hold.
    pub fn from_rtmp_message(
        message: RtmpMessage,
        timestamp: RtmpTimestamp,
        message_stream_id: u32,
    ) -> (r: Result<MessagePayload, MessageSerializationError>)
        ensures
            match r {
                Ok(payload) => {
                    &&& writable(message@)
                    &&& payload.timestamp == timestamp
                    &&& payload.message_stream_id == message_stream_id
                    &&& payload.type_id == message@.type_id()
                    &&& is_body_of(payload.data@, message@)
                    &&& payload.data@.len() == body_len(message@)
                },
                Err(e) => !writable(message@) && e.kind == refusal(message@),
            },
    {
        let type_id = message.get_message_type_id();
        let bytes = match message {
            RtmpMessage::Unknown { type_id: _, data } => data,
            RtmpMessage::Abort { stream_id } => abort::serialize(stream_id)?,
            RtmpMessage::Acknowledgement { sequence_number } => acknowledgement::serialize(
                sequence_number,
            )?,
            RtmpMessage::Amf0Command {
                command_name,
                transaction_id,
                command_object,
                additional_arguments,
            } => amf0_command::serialize(
                command_name,
                transaction_id,
                command_object,
                additional_arguments,
            )?,
            RtmpMessage::Amf0Data { values } => amf0_data::serialize(values)?,
            RtmpMessage::AudioData { data } => audio_data::serialize(data)?,
            RtmpMessage::SetChunkSize { size } => set_chunk_size::serialize(size)?,
            RtmpMessage::SetPeerBandwidth { size, limit_type } => set_peer_bandwidth::serialize(
                limit_type,
                size,
            )?,
            RtmpMessage::UserControl {
                event_type,
                stream_id,
                buffer_length,
                timestamp,
            } => user_control::serialize(event_type, stream_id, buffer_length, timestamp)?,
            RtmpMessage::VideoData { data } => video_data::serialize(data)?,
            RtmpMessage::WindowAcknowledgement { size } => window_acknowledgement_size::serialize(
                size,
            )?,
        };
        Ok(MessagePayload { data: bytes, type_id, message_stream_id, timestamp })
    }
}

impl RtmpMessage {
    /// Writes the message's body and puts it under the message's type id,
    /// the timestamp and the message stream id: what
    /// `MessagePayload::from_rtmp_message` does, called on the message.
    pub fn into_message_payload(self, timestamp: RtmpTimestamp, message_stream_id: u32) -> (r:
        Result<MessagePayload, MessageSerializationError>)
        ensures
            match r {
                Ok(payload) => {
                    &&& writable(self@)
                    &&& payload.timestamp == timestamp
                    &&& payload.message_stream_id == message_stream_id
                    &&& payload.type_id == self@.type_id()
                    &&& is_body_of(payload.data@, self@)
                    &&& payload.data@.len() == body_len(self@)
                },
                Err(e) => !writable(self@) && e.kind == refusal(self@),
            },
    {
        MessagePayload::from_rtmp_message(self, timestamp, message_stream_id)
    }
}

} // verus!
