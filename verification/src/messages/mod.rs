//! RTMP messages and the byte format of their bodies.

use crate::amf0::{values_model, AmfModel, AmfValue};
use crate::time::RtmpTimestamp;
use vstd::prelude::*;

pub mod laws;
pub mod message_payload;
pub mod types;

verus! {

/// Why a message body could not be read.
#[derive(Debug, Clone, Copy, PartialEq, Eq, Structural)]
pub enum MessageDeserializationErrorKind {
    /// The body ends before a field that the message type requires.
    IoShort,
    /// The body holds values, but not those that the message type requires.
    InvalidMessageFormat,
    /// A user control message names an event type that is not known.
    InvalidUserControlEventType,
    /// A peer bandwidth message names a limit type that is not known.
    InvalidPeerBandwidthLimitType,
    /// The body of a command or data message is not AMF0.
    Amf0DecodeFailed,
}

#[derive(Debug, Clone, Copy, PartialEq, Eq, Structural)]
pub struct MessageDeserializationError {
    pub kind: MessageDeserializationErrorKind,
}

/// Why a message could not be written.
#[derive(Debug, Clone, Copy, PartialEq, Eq, Structural)]
pub enum MessageSerializationErrorKind {
    /// A chunk size must fit in 31 bits.
    InvalidChunkSize,
    /// A user control message lacks a field that its event type carries.
    InvalidMessageFormat,
    /// AMF0 cannot hold the values of a command or data message.
    Amf0EncodeFailed,
}

#[derive(Debug, Clone, Copy, PartialEq, Eq, Structural)]
pub struct MessageSerializationError {
    pub kind: MessageSerializationErrorKind,
}

/// How a peer is to treat a new bandwidth limit.
#[derive(Debug, Clone, Copy, PartialEq, Eq, Structural)]
pub enum PeerBandwidthLimitType {
    Hard,
    Soft,
    Dynamic,
}

/// The events that a user control message can report.
#[derive(Debug, Clone, Copy, PartialEq, Eq, Structural)]
pub enum UserControlEventType {
    StreamBegin,
    StreamEof,
    StreamDry,
    SetBufferLength,
    StreamIsRecorded,
    PingRequest,
    PingResponse,
}

/// One RTMP message. A number in a command is an IEEE-754 binary64 value, held
/// as its bit pattern.
#[derive(Debug, Clone, PartialEq)]
#[allow(inconsistent_fields)]
pub enum RtmpMessage {
    Unknown { type_id: u8, data: Vec<u8> },
    Abort { stream_id: u32 },
    Acknowledgement { sequence_number: u32 },
    Amf0Command {
        command_name: String,
        transaction_id: u64,
        command_object: AmfValue,
        additional_arguments: Vec<AmfValue>,
    },
    Amf0Data { values: Vec<AmfValue> },
    AudioData { data: Vec<u8> },
    SetChunkSize { size: u32 },
    SetPeerBandwidth { size: u32, limit_type: PeerBandwidthLimitType },
    UserControl {
        event_type: UserControlEventType,
        stream_id: Option<u32>,
        buffer_length: Option<u32>,
        timestamp: Option<RtmpTimestamp>,
    },
    VideoData { data: Vec<u8> },
    WindowAcknowledgement { size: u32 },
}

/// What an `RtmpMessage` stands for.
#[allow(inconsistent_fields)]
pub enum MessageModel {
    Unknown { type_id: u8, data: Seq<u8> },
    Abort { stream_id: u32 },
    Acknowledgement { sequence_number: u32 },
    Amf0Command {
        command_name: Seq<char>,
        transaction_id: u64,
        command_object: AmfModel,
        additional_arguments: Seq<AmfModel>,
    },
    Amf0Data { values: Seq<AmfModel> },
    AudioData { data: Seq<u8> },
    SetChunkSize { size: u32 },
    SetPeerBandwidth { size: u32, limit_type: PeerBandwidthLimitType },
    UserControl {
        event_type: UserControlEventType,
        stream_id: Option<u32>,
        buffer_length: Option<u32>,
        timestamp: Option<RtmpTimestamp>,
    },
    VideoData { data: Seq<u8> },
    WindowAcknowledgement { size: u32 },
}

impl MessageModel {
    /// The type id under which the message travels.
    pub open spec fn type_id(self) -> u8 {
        match self {
            MessageModel::Unknown { type_id, .. } => type_id,
            MessageModel::SetChunkSize { .. } => 1,
            MessageModel::Abort { .. } => 2,
            MessageModel::Acknowledgement { .. } => 3,
            MessageModel::UserControl { .. } => 4,
            MessageModel::WindowAcknowledgement { .. } => 5,
            MessageModel::SetPeerBandwidth { .. } => 6,
            MessageModel::AudioData { .. } => 8,
            MessageModel::VideoData { .. } => 9,
            MessageModel::Amf0Data { .. } => 18,
            MessageModel::Amf0Command { .. } => 20,
        }
    }
}

impl View for RtmpMessage {
    type V = MessageModel;

    open spec fn view(&self) -> MessageModel {
        match self {
            RtmpMessage::Unknown { type_id, data } => MessageModel::Unknown {
                type_id: *type_id,
                data: data@,
            },
            RtmpMessage::Abort { stream_id } => MessageModel::Abort { stream_id: *stream_id },
            RtmpMessage::Acknowledgement { sequence_number } => MessageModel::Acknowledgement {
                sequence_number: *sequence_number,
            },
            RtmpMessage::Amf0Command {
                command_name,
                transaction_id,
                command_object,
                additional_arguments,
            } => MessageModel::Amf0Command {
                command_name: command_name@,
                transaction_id: *transaction_id,
                command_object: command_object@,
                additional_arguments: values_model(additional_arguments@),
            },
            RtmpMessage::Amf0Data { values } => MessageModel::Amf0Data {
                values: values_model(values@),
            },
            RtmpMessage::AudioData { data } => MessageModel::AudioData { data: data@ },
            RtmpMessage::SetChunkSize { size } => MessageModel::SetChunkSize { size: *size },
            RtmpMessage::SetPeerBandwidth { size, limit_type } => MessageModel::SetPeerBandwidth {
                size: *size,
                limit_type: *limit_type,
            },
            RtmpMessage::UserControl {
                event_type,
                stream_id,
                buffer_length,
                timestamp,
            } => MessageModel::UserControl {
                event_type: *event_type,
                stream_id: *stream_id,
                buffer_length: *buffer_length,
                timestamp: *timestamp,
            },
            RtmpMessage::VideoData { data } => MessageModel::VideoData { data: data@ },
            RtmpMessage::WindowAcknowledgement { size } => MessageModel::WindowAcknowledgement {
                size: *size,
            },
        }
    }
}

impl RtmpMessage {
    /// The type id under which the message travels.
    pub fn get_message_type_id(&self) -> (r: u8)
        ensures
            r == self@.type_id(),
    {
        match self {
            RtmpMessage::Unknown { type_id, .. } => *type_id,
            RtmpMessage::SetChunkSize { .. } => 1,
            RtmpMessage::Abort { .. } => 2,
            RtmpMessage::Acknowledgement { .. } => 3,
            RtmpMessage::UserControl { .. } => 4,
            RtmpMessage::WindowAcknowledgement { .. } => 5,
            RtmpMessage::SetPeerBandwidth { .. } => 6,
            RtmpMessage::AudioData { .. } => 8,
            RtmpMessage::VideoData { .. } => 9,
            RtmpMessage::Amf0Data { .. } => 18,
            RtmpMessage::Amf0Command { .. } => 20,
        }
    }
}

/// What reading a message body gives: a message, or the reason why not.
pub type Parsed = Result<MessageModel, MessageDeserializationErrorKind>;

/// Whether the outcome `r` of a deserializer is the outcome `expected`.
pub open spec fn agrees(
    r: Result<RtmpMessage, MessageDeserializationError>,
    expected: Parsed,
) -> bool {
    match r {
        Ok(message) => expected == Ok::<MessageModel, MessageDeserializationErrorKind>(message@),
        Err(e) => expected == Err::<MessageModel, MessageDeserializationErrorKind>(e.kind),
    }
}

/// The value of the four bytes of `data` that start at `at`, most significant
/// first.
pub open spec fn field32(data: Seq<u8>, at: int) -> u32 {
    crate::wire::be32(data.subrange(at, at + 4)) as u32
}

/// Reads the big-endian 32 bit field of `data` that starts at `at`.
pub(crate) fn read_field32(data: &[u8], at: usize) -> (r: u32)
    requires
        at + 4 <= data@.len(),
    ensures
        r == field32(data@, at as int),
{
    let len = data.len();
    assert(at + 4 <= len);
    let field = vstd::slice::slice_subrange(data, at, at + 4);
    crate::wire::read_be32(field)
}

/// A message body that holds one big-endian 32 bit number.
pub(crate) fn single_field32(value: u32) -> (r: Vec<u8>)
    ensures
        r@ == crate::wire::be32_bytes(value as int),
{
    let bytes = crate::wire::write_be32(value);
    let mut body: Vec<u8> = Vec::new();
    crate::wire::append(&mut body, bytes.as_slice());
    body
}

} // verus!
