//! What a client session tells the embedding application.

use crate::amf0::{values_model, AmfModel, AmfValue};
use crate::sessions::metadata::{MetadataModel, StreamMetadata};
use crate::time::RtmpTimestamp;
use vstd::prelude::*;

verus! {

/// An event that a client session can raise.
#[derive(Debug, Clone, PartialEq)]
pub enum ClientSessionEvent {
    /// The server accepted the connection request.
    ConnectionRequestAccepted,
    /// The server refused the connection request.
    ConnectionRequestRejected { description: String },
    /// The server has started to play the stream.
    PlaybackRequestAccepted { stream_key: String },
    /// The server refused to play the stream.
    PlaybackRequestRejected { description: String },
    /// The server is ready to take the stream.
    PublishRequestAccepted { stream_key: String },
    /// The server refused to take the stream.
    PublishRequestRejected { description: String },
    /// The stream that is played announced its properties.
    StreamMetadataReceived { metadata: StreamMetadata },
    /// Video data of the stream that is played arrived.
    VideoDataReceived { data: Vec<u8>, timestamp: RtmpTimestamp },
    /// Audio data of the stream that is played arrived.
    AudioDataReceived { data: Vec<u8>, timestamp: RtmpTimestamp },
    /// The server says how many bytes it has received.
    AcknowledgementReceived { bytes_received: u32 },
    /// The server sent a command that the session has no answer to.
    UnhandleableAmf0Command {
        command_name: String,
        transaction_id: u64,
        command_object: AmfValue,
        additional_values: Vec<AmfValue>,
    },
    /// The server reported a status that the session has no use for.
    UnhandleableOnStatusCode { code: String },
}

/// What a `ClientSessionEvent` stands for.
pub enum ClientEventModel {
    ConnectionRequestAccepted,
    ConnectionRequestRejected { description: Seq<char> },
    PlaybackRequestAccepted { stream_key: Seq<char> },
    PlaybackRequestRejected { description: Seq<char> },
    PublishRequestAccepted { stream_key: Seq<char> },
    PublishRequestRejected { description: Seq<char> },
    StreamMetadataReceived { metadata: MetadataModel },
    VideoDataReceived { data: Seq<u8>, timestamp: u32 },
    AudioDataReceived { data: Seq<u8>, timestamp: u32 },
    AcknowledgementReceived { bytes_received: u32 },
    UnhandleableAmf0Command {
        command_name: Seq<char>,
        transaction_id: u64,
        command_object: AmfModel,
        additional_values: Seq<AmfModel>,
    },
    UnhandleableOnStatusCode { code: Seq<char> },
}

impl View for ClientSessionEvent {
    type V = ClientEventModel;

    open spec fn view(&self) -> ClientEventModel {
        match self {
            ClientSessionEvent::ConnectionRequestAccepted => {
                ClientEventModel::ConnectionRequestAccepted
            },
            ClientSessionEvent::ConnectionRequestRejected { description } => {
                ClientEventModel::ConnectionRequestRejected { description: description@ }
            },
            ClientSessionEvent::PlaybackRequestAccepted { stream_key } => {
                ClientEventModel::PlaybackRequestAccepted { stream_key: stream_key@ }
            },
            ClientSessionEvent::PlaybackRequestRejected { description } => {
                ClientEventModel::PlaybackRequestRejected { description: description@ }
            },
            ClientSessionEvent::PublishRequestAccepted { stream_key } => {
                ClientEventModel::PublishRequestAccepted { stream_key: stream_key@ }
            },
            ClientSessionEvent::PublishRequestRejected { description } => {
                ClientEventModel::PublishRequestRejected { description: description@ }
            },
            ClientSessionEvent::StreamMetadataReceived { metadata } => {
                ClientEventModel::StreamMetadataReceived { metadata: metadata@ }
            },
            ClientSessionEvent::VideoDataReceived { data, timestamp } => {
                ClientEventModel::VideoDataReceived { data: data@, timestamp: timestamp.value }
            },
            ClientSessionEvent::AudioDataReceived { data, timestamp } => {
                ClientEventModel::AudioDataReceived { data: data@, timestamp: timestamp.value }
            },
            ClientSessionEvent::AcknowledgementReceived { bytes_received } => {
                ClientEventModel::AcknowledgementReceived { bytes_received: *bytes_received }
            },
            ClientSessionEvent::UnhandleableAmf0Command {
                command_name,
                transaction_id,
                command_object,
                additional_values,
            } => ClientEventModel::UnhandleableAmf0Command {
                command_name: command_name@,
                transaction_id: *transaction_id,
                command_object: command_object@,
                additional_values: values_model(additional_values@),
            },
            ClientSessionEvent::UnhandleableOnStatusCode { code } => {
                ClientEventModel::UnhandleableOnStatusCode { code: code@ }
            },
        }
    }
}

} // verus!
