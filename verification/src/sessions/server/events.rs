//! What a server session tells the embedding application.

use crate::amf0::{values_model, AmfModel, AmfValue};
use crate::sessions::metadata::{MetadataModel, StreamMetadata};
use crate::time::RtmpTimestamp;
use vstd::prelude::*;

verus! {

/// An event that a server session can raise.
#[derive(Debug, Clone, PartialEq)]
pub enum ServerSessionEvents {
    /// The client is changing the maximum size of the RTMP chunks they will be sending
    ClientChunkSizeChanged { new_chunk_size: u32 },
    /// The client is requesting a connection on the specified RTMP application name
    ConnectionRequested { request_id: u32, app_name: String },
    /// The client is requesting a stream key be released for use.
    ReleaseStreamRequested { request_id: u32, app_name: String, stream_key: String },
    /// The client is requesting the ability to publish on the specified stream key,
    PublishStreamRequested { request_id: u32, app_name: String, stream_key: String, stream_id: u32 },
    /// The client is finished publishing on the specified stream key
    PublishStreamFinished { app_name: String, stream_key: String },
    /// The client is changing metadata properties of the stream being published
    StreamMetadataChanged { app_name: String, stream_key: String, metadata: StreamMetadata },
    /// Audio data was received from the client
    AudioDataReceived {
        app_name: String,
        stream_key: String,
        data: Vec<u8>,
        timestamp: RtmpTimestamp,
    },
    /// Video data received from the client
    VideoDataReceived {
        app_name: String,
        stream_key: String,
        data: Vec<u8>,
        timestamp: RtmpTimestamp,
    },
    /// The client sent an Amf0 command that was not able to be handled
    UnhandleableAmf0Command {
        command_name: String,
        transaction_id: u32,
        command_object: AmfValue,
        additional_values: Vec<AmfValue>,
    },
    /// The client is requesting playback of the specified stream
    PlayStreamRequested {
        request_id: u32,
        app_name: String,
        stream_key: String,
        start_at: u32,
        duration: u32,
        reset: bool,
        stream_id: u32,
    },
    /// The client is finished with playback of the specified stream
    PlayStreamFinished { app_name: String, stream_key: String },
    /// The client has sent an acknowledgement that they have received the specified number of bytes
    AcknowledgementReceived { bytes_received: u32 },
    /// The client has responded to a ping request
    PingResponseReceived { timestamp: RtmpTimestamp },
    /// The server has sent a ping request to the client.
    PingRequestSent { timestamp: RtmpTimestamp },
}

/// What a `ServerSessionEvents` stands for.
pub enum ServerEventModel {
    ClientChunkSizeChanged { new_chunk_size: u32 },
    ConnectionRequested { request_id: u32, app_name: Seq<char> },
    ReleaseStreamRequested { request_id: u32, app_name: Seq<char>, stream_key: Seq<char> },
    PublishStreamRequested {
        request_id: u32,
        app_name: Seq<char>,
        stream_key: Seq<char>,
        stream_id: u32,
    },
    PublishStreamFinished { app_name: Seq<char>, stream_key: Seq<char> },
    StreamMetadataChanged { app_name: Seq<char>, stream_key: Seq<char>, metadata: MetadataModel },
    AudioDataReceived { app_name: Seq<char>, stream_key: Seq<char>, data: Seq<u8>, timestamp: u32 },
    VideoDataReceived { app_name: Seq<char>, stream_key: Seq<char>, data: Seq<u8>, timestamp: u32 },
    UnhandleableAmf0Command {
        command_name: Seq<char>,
        transaction_id: u32,
        command_object: AmfModel,
        additional_values: Seq<AmfModel>,
    },
    PlayStreamRequested {
        request_id: u32,
        app_name: Seq<char>,
        stream_key: Seq<char>,
        start_at: u32,
        duration: u32,
        reset: bool,
        stream_id: u32,
    },
    PlayStreamFinished { app_name: Seq<char>, stream_key: Seq<char> },
    AcknowledgementReceived { bytes_received: u32 },
    PingResponseReceived { timestamp: u32 },
    PingRequestSent { timestamp: u32 },
}

impl View for ServerSessionEvents {
    type V = ServerEventModel;

    open spec fn view(&self) -> ServerEventModel {
        match self {
            ServerSessionEvents::ClientChunkSizeChanged { new_chunk_size } => {
                ServerEventModel::ClientChunkSizeChanged { new_chunk_size: *new_chunk_size }
            },
            ServerSessionEvents::ConnectionRequested { request_id, app_name } => {
                ServerEventModel::ConnectionRequested {
                    request_id: *request_id,
                    app_name: app_name@,
                }
            },
            ServerSessionEvents::ReleaseStreamRequested { request_id, app_name, stream_key } => {
                ServerEventModel::ReleaseStreamRequested {
                    request_id: *request_id,
                    app_name: app_name@,
                    stream_key: stream_key@,
                }
            },
            ServerSessionEvents::PublishStreamRequested {
                request_id,
                app_name,
                stream_key,
                stream_id,
            } => ServerEventModel::PublishStreamRequested {
                request_id: *request_id,
                app_name: app_name@,
                stream_key: stream_key@,
                stream_id: *stream_id,
            },
            ServerSessionEvents::PublishStreamFinished { app_name, stream_key } => {
                ServerEventModel::PublishStreamFinished {
                    app_name: app_name@,
                    stream_key: stream_key@,
                }
            },
            ServerSessionEvents::StreamMetadataChanged { app_name, stream_key, metadata } => {
                ServerEventModel::StreamMetadataChanged {
                    app_name: app_name@,
                    stream_key: stream_key@,
                    metadata: metadata@,
                }
            },
            ServerSessionEvents::AudioDataReceived { app_name, stream_key, data, timestamp } => {
                ServerEventModel::AudioDataReceived {
                    app_name: app_name@,
                    stream_key: stream_key@,
                    data: data@,
                    timestamp: timestamp.value,
                }
            },
            ServerSessionEvents::VideoDataReceived { app_name, stream_key, data, timestamp } => {
                ServerEventModel::VideoDataReceived {
                    app_name: app_name@,
                    stream_key: stream_key@,
                    data: data@,
                    timestamp: timestamp.value,
                }
            },
            ServerSessionEvents::UnhandleableAmf0Command {
                command_name,
                transaction_id,
                command_object,
                additional_values,
            } => ServerEventModel::UnhandleableAmf0Command {
                command_name: command_name@,
                transaction_id: *transaction_id,
                command_object: command_object@,
                additional_values: values_model(additional_values@),
            },
            ServerSessionEvents::PlayStreamRequested {
                request_id,
                app_name,
                stream_key,
                start_at,
                duration,
                reset,
                stream_id,
            } => ServerEventModel::PlayStreamRequested {
                request_id: *request_id,
                app_name: app_name@,
                stream_key: stream_key@,
                start_at: *start_at,
                duration: *duration,
                reset: *reset,
                stream_id: *stream_id,
            },
            ServerSessionEvents::PlayStreamFinished { app_name, stream_key } => {
                ServerEventModel::PlayStreamFinished { app_name: app_name@, stream_key: stream_key@ }
            },
            ServerSessionEvents::AcknowledgementReceived { bytes_received } => {
                ServerEventModel::AcknowledgementReceived { bytes_received: *bytes_received }
            },
            ServerSessionEvents::PingResponseReceived { timestamp } => {
                ServerEventModel::PingResponseReceived { timestamp: timestamp.value }
            },
            ServerSessionEvents::PingRequestSent { timestamp } => {
                ServerEventModel::PingRequestSent { timestamp: timestamp.value }
            },
        }
    }
}

} // verus!
