//! The server's rules: what a server does on each call and on each message,
//! stated over what the server knows.

use crate::amf0::number::{bits_of_u32, whole_u32};
use crate::amf0::{model_text, model_u32, text_property, AmfModel};
use crate::messages::message_payload::PayloadModel;
use crate::messages::{MessageModel, PeerBandwidthLimitType, UserControlEventType};
use crate::sessions::metadata::{metadata_of, properties_of, MetadataModel};
use crate::sessions::server::events::ServerEventModel;
use crate::sessions::{ActionModel, OutboundModel, SessionErrorKind};
use crate::time::{span, RtmpTimestamp};
use vstd::prelude::*;

verus! {

/// Whether the client has connected to an application.
#[derive(Debug, Clone, Copy, PartialEq, Eq, Structural)]
pub enum ServerState {
    Started,
    Connected,
}

/// What a message stream is used for.
#[derive(Debug, Clone, Copy, PartialEq, Eq, Structural)]
pub enum StreamState {
    Created,
    Publishing,
    Playing,
}

/// What the embedding application is asked to decide on.
#[derive(Debug, Clone, Copy, PartialEq, Eq, Structural)]
pub enum RequestKind {
    Connection,
    ReleaseStream,
    Publish,
    Play,
}

/// A message stream that the client has created.
pub struct StreamModel {
    pub state: StreamState,
    pub stream_key: Seq<char>,
}

/// A request that waits for the embedding application.
pub struct RequestModel {
    pub kind: RequestKind,
    /// The transaction id of the command that made the request, as it came.
    pub transaction_id: u64,
    pub app_name: Seq<char>,
    pub stream_key: Seq<char>,
    pub stream_id: u32,
}

/// What a server knows, as the contracts speak of it.
pub struct ServerModel {
    pub fms_version: Seq<char>,
    pub state: ServerState,
    /// The application that the client is connected to; empty before that.
    pub app_name: Seq<char>,
    pub streams: Map<u32, StreamModel>,
    pub requests: Map<u32, RequestModel>,
    /// The id that the next request gets. Never 0.
    pub next_request_id: u32,
    /// The id that the next message stream gets. Never 0.
    pub next_stream_id: u32,
    /// After how many bytes the client wants an acknowledgement.
    pub peer_window_ack_size: Option<u32>,
    /// The bytes of message bodies received so far, modulo 2^32.
    pub bytes_received: u32,
    pub bytes_received_at_last_ack: u32,
}

/// A server's actions.
pub type ServerActionModel = ActionModel<ServerEventModel>;

/// How a call or a message leaves the server, and what it asks for.
pub struct ServerOutcome {
    pub server: ServerModel,
    pub result: Result<Seq<ServerActionModel>, SessionErrorKind>,
}

/// The id after `id`: one more, and 1 after the largest.
pub open spec fn id_after(id: u32) -> u32 {
    if id == u32::MAX {
        1
    } else {
        (id + 1) as u32
    }
}

/// A message to send at time 0, which the transport may not drop.
pub open spec fn send(message_stream_id: u32, message: MessageModel) -> ServerActionModel {
    ActionModel::Send(
        OutboundModel { message, message_stream_id, timestamp: 0, can_be_dropped: false },
    )
}

/// A command to send at time 0. The transaction id is a number as it is on
/// the wire.
pub open spec fn command(
    message_stream_id: u32,
    name: Seq<char>,
    transaction_id: u64,
    command_object: AmfModel,
    arguments: Seq<AmfModel>,
) -> ServerActionModel {
    send(
        message_stream_id,
        MessageModel::Amf0Command {
            command_name: name,
            transaction_id,
            command_object,
            additional_arguments: arguments,
        },
    )
}

/// The object that reports a status.
pub open spec fn status_object(level: Seq<char>, code: Seq<char>, description: Seq<char>)
    -> AmfModel {
    AmfModel::Object(
        Map::<Seq<char>, AmfModel>::empty().insert("level"@, AmfModel::Utf8String(level)).insert(
            "code"@,
            AmfModel::Utf8String(code),
        ).insert("description"@, AmfModel::Utf8String(description)),
    )
}

/// An `onStatus` command on a message stream.
pub open spec fn status(
    message_stream_id: u32,
    level: Seq<char>,
    code: Seq<char>,
    description: Seq<char>,
) -> ServerActionModel {
    command(
        message_stream_id,
        "onStatus"@,
        0,
        AmfModel::Null,
        seq![status_object(level, code, description)],
    )
}

/// What a server announces once it has told its chunk size: its window, and
/// the bandwidth that it asks the client to keep to.
pub open spec fn announcements(window_ack_size: u32, peer_bandwidth: u32) -> Seq<
    ServerActionModel,
> {
    seq![
        send(0, MessageModel::WindowAcknowledgement { size: window_ack_size }),
        send(
            0,
            MessageModel::SetPeerBandwidth {
                size: peer_bandwidth,
                limit_type: PeerBandwidthLimitType::Dynamic,
            },
        ),
    ]
}

/// A server that has done nothing yet.
pub open spec fn fresh_server(fms_version: Seq<char>) -> ServerModel {
    ServerModel {
        fms_version,
        state: ServerState::Started,
        app_name: Seq::empty(),
        streams: Map::empty(),
        requests: Map::empty(),
        next_request_id: 1,
        next_stream_id: 1,
        peer_window_ack_size: None,
        bytes_received: 0,
        bytes_received_at_last_ack: 0,
    }
}

/// The string that is argument `i` of a command, if there is one.
pub open spec fn text_argument(arguments: Seq<AmfModel>, i: int) -> Option<Seq<char>> {
    if 0 <= i < arguments.len() {
        model_text(arguments[i])
    } else {
        None
    }
}

/// The number that is argument `i` of a command, as a `u32`; 0 if there is none.
pub open spec fn u32_argument(arguments: Seq<AmfModel>, i: int) -> u32 {
    if 0 <= i < arguments.len() {
        match model_u32(arguments[i]) {
            Some(n) => n,
            None => 0,
        }
    } else {
        0
    }
}

/// The boolean that is argument `i` of a command; false if there is none.
pub open spec fn bool_argument(arguments: Seq<AmfModel>, i: int) -> bool {
    if 0 <= i < arguments.len() {
        arguments[i] == AmfModel::Boolean(true)
    } else {
        false
    }
}

/// The application that a connect command names, if it names one.
pub open spec fn named_app(command_object: AmfModel) -> Option<Seq<char>> {
    match command_object {
        AmfModel::Object(object) => text_property(object, "app"@),
        _ => None,
    }
}

/// A command that the server has no answer to is handed on.
pub open spec fn hand_on(
    server: ServerModel,
    command_name: Seq<char>,
    transaction_id: u64,
    command_object: AmfModel,
    arguments: Seq<AmfModel>,
) -> ServerOutcome {
    ServerOutcome {
        server,
        result: Ok(
            seq![
                ActionModel::Raise(
                    ServerEventModel::UnhandleableAmf0Command {
                        command_name,
                        transaction_id: whole_u32(transaction_id),
                        command_object,
                        additional_values: arguments,
                    },
                ),
            ],
        ),
    }
}

/// The server with one more request waiting, under the next request id.
pub open spec fn with_request(server: ServerModel, request: RequestModel) -> ServerModel {
    ServerModel {
        requests: server.requests.insert(server.next_request_id, request),
        next_request_id: id_after(server.next_request_id),
        ..server
    }
}

/// A `connect` command from a client that is not connected asks the
/// embedding application for a connection to the application that it names.
pub open spec fn on_connect(server: ServerModel, transaction_id: u64, app_name: Seq<char>)
    -> ServerOutcome {
    ServerOutcome {
        server: with_request(
            server,
            RequestModel {
                kind: RequestKind::Connection,
                transaction_id,
                app_name,
                stream_key: Seq::empty(),
                stream_id: 0,
            },
        ),
        result: Ok(
            seq![
                ActionModel::Raise(
                    ServerEventModel::ConnectionRequested {
                        request_id: server.next_request_id,
                        app_name,
                    },
                ),
            ],
        ),
    }
}

/// A `createStream` command gets a new message stream, whose id the
/// `_result` tells.
pub open spec fn on_create_stream(server: ServerModel, transaction_id: u64) -> ServerOutcome {
    let stream_id = server.next_stream_id;
    ServerOutcome {
        server: ServerModel {
            streams: server.streams.insert(
                stream_id,
                StreamModel { state: StreamState::Created, stream_key: Seq::empty() },
            ),
            next_stream_id: id_after(stream_id),
            ..server
        },
        result: Ok(
            seq![
                command(
                    0,
                    "_result"@,
                    transaction_id,
                    AmfModel::Null,
                    seq![AmfModel::Number(bits_of_u32(stream_id))],
                ),
            ],
        ),
    }
}

/// A `releaseStream` command asks the embedding application to release a
/// stream key.
pub open spec fn on_release_stream(server: ServerModel, transaction_id: u64, stream_key: Seq<char>)
    -> ServerOutcome {
    ServerOutcome {
        server: with_request(
            server,
            RequestModel {
                kind: RequestKind::ReleaseStream,
                transaction_id,
                app_name: server.app_name,
                stream_key,
                stream_id: 0,
            },
        ),
        result: Ok(
            seq![
                ActionModel::Raise(
                    ServerEventModel::ReleaseStreamRequested {
                        request_id: server.next_request_id,
                        app_name: server.app_name,
                        stream_key,
                    },
                ),
            ],
        ),
    }
}

/// An `FCPublish` command is acknowledged, and no more.
pub open spec fn on_fc_publish(server: ServerModel, stream_key: Seq<char>) -> ServerOutcome {
    ServerOutcome {
        server,
        result: Ok(
            seq![
                command(
                    0,
                    "onFCPublish"@,
                    0,
                    AmfModel::Null,
                    seq![
                        AmfModel::Object(
                            Map::<Seq<char>, AmfModel>::empty().insert(
                                "code"@,
                                AmfModel::Utf8String("NetStream.Publish.Start"@),
                            ).insert("description"@, AmfModel::Utf8String(stream_key)),
                        ),
                    ],
                ),
            ],
        ),
    }
}

/// Whether a message stream exists and is not in use.
pub open spec fn is_idle(server: ServerModel, stream_id: u32) -> bool {
    server.streams.contains_key(stream_id) && server.streams[stream_id].state
        == StreamState::Created
}

/// A `publish` command on an idle message stream asks the embedding
/// application for leave to publish under a stream key.
pub open spec fn on_publish(
    server: ServerModel,
    stream_id: u32,
    transaction_id: u64,
    stream_key: Seq<char>,
) -> ServerOutcome {
    ServerOutcome {
        server: with_request(
            server,
            RequestModel {
                kind: RequestKind::Publish,
                transaction_id,
                app_name: server.app_name,
                stream_key,
                stream_id,
            },
        ),
        result: Ok(
            seq![
                ActionModel::Raise(
                    ServerEventModel::PublishStreamRequested {
                        request_id: server.next_request_id,
                        app_name: server.app_name,
                        stream_key,
                        stream_id,
                    },
                ),
            ],
        ),
    }
}

/// A `play` command on an idle message stream asks the embedding
/// application for leave to play a stream. The arguments after the stream
/// key say where to start, for how long to play, and whether to reset.
pub open spec fn on_play(
    server: ServerModel,
    stream_id: u32,
    transaction_id: u64,
    stream_key: Seq<char>,
    arguments: Seq<AmfModel>,
) -> ServerOutcome {
    ServerOutcome {
        server: with_request(
            server,
            RequestModel {
                kind: RequestKind::Play,
                transaction_id,
                app_name: server.app_name,
                stream_key,
                stream_id,
            },
        ),
        result: Ok(
            seq![
                ActionModel::Raise(
                    ServerEventModel::PlayStreamRequested {
                        request_id: server.next_request_id,
                        app_name: server.app_name,
                        stream_key,
                        start_at: u32_argument(arguments, 1),
                        duration: u32_argument(arguments, 2),
                        reset: bool_argument(arguments, 3),
                        stream_id,
                    },
                ),
            ],
        ),
    }
}

/// A `deleteStream` command ends the message stream that it names. Where
/// the stream was published or played, the embedding application is told.
pub open spec fn on_delete_stream(server: ServerModel, stream_id: u32) -> ServerOutcome {
    if !server.streams.contains_key(stream_id) {
        ServerOutcome { server, result: Ok(Seq::empty()) }
    } else {
        let stream = server.streams[stream_id];
        let after = ServerModel { streams: server.streams.remove(stream_id), ..server };
        ServerOutcome {
            server: after,
            result: Ok(
                if stream.state == StreamState::Publishing {
                    seq![
                        ActionModel::Raise(
                            ServerEventModel::PublishStreamFinished {
                                app_name: server.app_name,
                                stream_key: stream.stream_key,
                            },
                        ),
                    ]
                } else if stream.state == StreamState::Playing {
                    seq![
                        ActionModel::Raise(
                            ServerEventModel::PlayStreamFinished {
                                app_name: server.app_name,
                                stream_key: stream.stream_key,
                            },
                        ),
                    ]
                } else {
                    Seq::empty()
                },
            ),
        }
    }
}

/// A command arrived on message stream `stream_id`.
///
/// Before the client is connected the server answers to `connect` alone, and
/// after that to every command but `connect`. A command that lacks what it
/// needs, or that the server does not know, is handed on.
pub open spec fn on_command(
    server: ServerModel,
    stream_id: u32,
    command_name: Seq<char>,
    transaction_id: u64,
    command_object: AmfModel,
    arguments: Seq<AmfModel>,
) -> ServerOutcome {
    let connected = server.state == ServerState::Connected;
    let key = text_argument(arguments, 0);
    if command_name == "connect"@ && !connected && named_app(command_object) is Some {
        on_connect(server, transaction_id, named_app(command_object).unwrap())
    } else if command_name == "createStream"@ && connected {
        on_create_stream(server, transaction_id)
    } else if command_name == "releaseStream"@ && connected && key is Some {
        on_release_stream(server, transaction_id, key.unwrap())
    } else if command_name == "FCPublish"@ && connected && key is Some {
        on_fc_publish(server, key.unwrap())
    } else if command_name == "publish"@ && connected && key is Some && is_idle(server, stream_id) {
        on_publish(server, stream_id, transaction_id, key.unwrap())
    } else if command_name == "play"@ && connected && key is Some && is_idle(server, stream_id) {
        on_play(server, stream_id, transaction_id, key.unwrap(), arguments)
    } else if command_name == "deleteStream"@ && connected && arguments.len() >= 1
        && arguments[0] is Number {
        on_delete_stream(server, whole_u32(arguments[0]->Number_0))
    } else {
        hand_on(server, command_name, transaction_id, command_object, arguments)
    }
}

/// Whether data values set the metadata of a stream: `@setDataFrame`, then
/// `onMetaData`, then an object.
pub open spec fn sets_metadata(values: Seq<AmfModel>) -> bool {
    values.len() >= 3 && values[0] == AmfModel::Utf8String("@setDataFrame"@) && values[1]
        == AmfModel::Utf8String("onMetaData"@) && values[2] is Object
}

/// The stream key that is published on a message stream, if one is.
pub open spec fn published_key(server: ServerModel, stream_id: u32) -> Option<Seq<char>> {
    if server.streams.contains_key(stream_id) && server.streams[stream_id].state
        == StreamState::Publishing {
        Some(server.streams[stream_id].stream_key)
    } else {
        None
    }
}

/// A message arrived, apart from the count of its bytes.
pub open spec fn on_message(server: ServerModel, payload: PayloadModel, message: MessageModel)
    -> ServerOutcome {
    let unhandled = ServerOutcome { server, result: Ok(seq![ActionModel::Unhandled(payload)]) };
    let raised = |event: ServerEventModel|
        ServerOutcome { server, result: Ok(seq![ActionModel::Raise(event)]) };
    let key = published_key(server, payload.message_stream_id);
    match message {
        MessageModel::SetChunkSize { size } => raised(
            ServerEventModel::ClientChunkSizeChanged { new_chunk_size: size },
        ),
        MessageModel::WindowAcknowledgement { size } => ServerOutcome {
            server: ServerModel { peer_window_ack_size: Some(size), ..server },
            result: Ok(Seq::empty()),
        },
        MessageModel::Acknowledgement { sequence_number } => raised(
            ServerEventModel::AcknowledgementReceived { bytes_received: sequence_number },
        ),
        MessageModel::UserControl { event_type, timestamp, .. } => if event_type
            == UserControlEventType::PingResponse && timestamp is Some {
            raised(
                ServerEventModel::PingResponseReceived { timestamp: timestamp.unwrap().value },
            )
        } else {
            unhandled
        },
        MessageModel::Amf0Command {
            command_name,
            transaction_id,
            command_object,
            additional_arguments,
        } => on_command(
            server,
            payload.message_stream_id,
            command_name,
            transaction_id,
            command_object,
            additional_arguments,
        ),
        MessageModel::Amf0Data { values } => if key is Some && sets_metadata(values) {
            raised(
                ServerEventModel::StreamMetadataChanged {
                    app_name: server.app_name,
                    stream_key: key.unwrap(),
                    metadata: metadata_of(values[2]->Object_0),
                },
            )
        } else {
            unhandled
        },
        MessageModel::AudioData { data } => if key is Some {
            raised(
                ServerEventModel::AudioDataReceived {
                    app_name: server.app_name,
                    stream_key: key.unwrap(),
                    data,
                    timestamp: payload.timestamp,
                },
            )
        } else {
            unhandled
        },
        MessageModel::VideoData { data } => if key is Some {
            raised(
                ServerEventModel::VideoDataReceived {
                    app_name: server.app_name,
                    stream_key: key.unwrap(),
                    data,
                    timestamp: payload.timestamp,
                },
            )
        } else {
            unhandled
        },
        _ => unhandled,
    }
}

/// The server after `count` more bytes of message body.
pub open spec fn counted(server: ServerModel, count: nat) -> ServerModel {
    ServerModel { bytes_received: ((server.bytes_received + count) % span()) as u32, ..server }
}

/// Whether an acknowledgement is due: the client has announced a window, and
/// as many bytes have arrived since the last acknowledgement.
pub open spec fn acknowledgement_due(server: ServerModel) -> bool {
    match server.peer_window_ack_size {
        Some(window) => (server.bytes_received - server.bytes_received_at_last_ack) % span()
            >= window,
        None => false,
    }
}

/// A message arrived. Its bytes are counted first, and if that makes an
/// acknowledgement due, the acknowledgement comes before everything else that
/// the message asks for.
pub open spec fn on_payload(server: ServerModel, payload: PayloadModel, message: MessageModel)
    -> ServerOutcome {
    let after_count = counted(server, payload.data.len());
    if acknowledgement_due(after_count) {
        let acknowledged = ServerModel {
            bytes_received_at_last_ack: after_count.bytes_received,
            ..after_count
        };
        let outcome = on_message(acknowledged, payload, message);
        ServerOutcome {
            server: outcome.server,
            result: match outcome.result {
                Ok(actions) => Ok(
                    seq![
                        send(
                            0,
                            MessageModel::Acknowledgement {
                                sequence_number: after_count.bytes_received,
                            },
                        ),
                    ] + actions,
                ),
                Err(kind) => Err(kind),
            },
        }
    } else {
        on_message(after_count, payload, message)
    }
}

/// The `_result` that accepts a connection.
pub open spec fn connection_accepted(server: ServerModel, transaction_id: u64)
    -> ServerActionModel {
    command(
        0,
        "_result"@,
        transaction_id,
        AmfModel::Object(
            Map::<Seq<char>, AmfModel>::empty().insert(
                "fmsVer"@,
                AmfModel::Utf8String(server.fms_version),
            ).insert("capabilities"@, AmfModel::Number(bits_of_u32(31))),
        ),
        seq![
            AmfModel::Object(
                Map::<Seq<char>, AmfModel>::empty().insert(
                    "level"@,
                    AmfModel::Utf8String("status"@),
                ).insert("code"@, AmfModel::Utf8String("NetConnection.Connect.Success"@)).insert(
                    "description"@,
                    AmfModel::Utf8String("Successfully connected"@),
                ).insert("objectEncoding"@, AmfModel::Number(0)),
            ),
        ],
    )
}

/// What the client is sent when it may play: that the stream begins, that
/// playing is reset and has started, that samples may be read, and that data
/// starts.
pub open spec fn play_started(stream_id: u32, stream_key: Seq<char>) -> Seq<ServerActionModel> {
    seq![
        send(
            0,
            MessageModel::UserControl {
                event_type: UserControlEventType::StreamBegin,
                stream_id: Some(stream_id),
                buffer_length: None,
                timestamp: None,
            },
        ),
        status(stream_id, "status"@, "NetStream.Play.Reset"@, stream_key),
        status(stream_id, "status"@, "NetStream.Play.Start"@, stream_key),
        send(
            stream_id,
            MessageModel::Amf0Data {
                values: seq![
                    AmfModel::Utf8String("|RtmpSampleAccess"@),
                    AmfModel::Boolean(false),
                    AmfModel::Boolean(false),
                ],
            },
        ),
        status(stream_id, "status"@, "NetStream.Data.Start"@, stream_key),
    ]
}

/// The server with a message stream put to use.
pub open spec fn with_stream(
    server: ServerModel,
    stream_id: u32,
    state: StreamState,
    stream_key: Seq<char>,
) -> ServerModel {
    ServerModel {
        streams: server.streams.insert(stream_id, StreamModel { state, stream_key }),
        ..server
    }
}

/// The embedding application accepts a request.
///
/// A connection: the client is connected and told so. A stream key to
/// release: nothing more. Leave to publish or to play: the message stream is
/// put to that use and the client is told that publishing or playing starts.
/// An id under which no request waits is refused.
pub open spec fn on_accept(server: ServerModel, request_id: u32) -> ServerOutcome {
    if !server.requests.contains_key(request_id) {
        ServerOutcome { server, result: Err(SessionErrorKind::UnknownRequestId) }
    } else {
        let request = server.requests[request_id];
        let rest = ServerModel { requests: server.requests.remove(request_id), ..server };
        match request.kind {
            RequestKind::Connection => ServerOutcome {
                server: ServerModel {
                    state: ServerState::Connected,
                    app_name: request.app_name,
                    ..rest
                },
                result: Ok(seq![connection_accepted(server, request.transaction_id)]),
            },
            RequestKind::ReleaseStream => ServerOutcome { server: rest, result: Ok(Seq::empty()) },
            RequestKind::Publish => ServerOutcome {
                server: with_stream(
                    rest,
                    request.stream_id,
                    StreamState::Publishing,
                    request.stream_key,
                ),
                result: Ok(
                    seq![
                        status(
                            request.stream_id,
                            "status"@,
                            "NetStream.Publish.Start"@,
                            request.stream_key,
                        ),
                    ],
                ),
            },
            RequestKind::Play => ServerOutcome {
                server: with_stream(
                    rest,
                    request.stream_id,
                    StreamState::Playing,
                    request.stream_key,
                ),
                result: Ok(play_started(request.stream_id, request.stream_key)),
            },
        }
    }
}

/// The embedding application rejects a request, and the client is told why.
/// An id under which no request waits is refused.
pub open spec fn on_reject(server: ServerModel, request_id: u32, description: Seq<char>)
    -> ServerOutcome {
    if !server.requests.contains_key(request_id) {
        ServerOutcome { server, result: Err(SessionErrorKind::UnknownRequestId) }
    } else {
        let request = server.requests[request_id];
        let rest = ServerModel { requests: server.requests.remove(request_id), ..server };
        ServerOutcome {
            server: rest,
            result: Ok(
                match request.kind {
                    RequestKind::Connection => seq![
                        command(
                            0,
                            "_error"@,
                            request.transaction_id,
                            AmfModel::Null,
                            seq![
                                status_object(
                                    "error"@,
                                    "NetConnection.Connect.Failed"@,
                                    description,
                                ),
                            ],
                        ),
                    ],
                    RequestKind::ReleaseStream => Seq::empty(),
                    RequestKind::Publish => seq![
                        status(
                            request.stream_id,
                            "error"@,
                            "NetStream.Publish.Failed"@,
                            description,
                        ),
                    ],
                    RequestKind::Play => seq![
                        status(request.stream_id, "error"@, "NetStream.Play.Failed"@, description),
                    ],
                },
            ),
        }
    }
}

/// Whether a message stream is played.
pub open spec fn is_played(server: ServerModel, stream_id: u32) -> bool {
    server.streams.contains_key(stream_id) && server.streams[stream_id].state
        == StreamState::Playing
}

/// Something is to be sent on a message stream that is played: only on such
/// a stream can the server send media and metadata.
pub open spec fn on_send(server: ServerModel, outbound: OutboundModel) -> ServerOutcome {
    if is_played(server, outbound.message_stream_id) {
        ServerOutcome { server, result: Ok(seq![ActionModel::Send(outbound)]) }
    } else {
        ServerOutcome { server, result: Err(SessionErrorKind::ActionNotAllowedInCurrentState) }
    }
}

/// The data message that tells a player the metadata of a stream.
pub open spec fn metadata_message(metadata: MetadataModel) -> MessageModel {
    MessageModel::Amf0Data {
        values: seq![
            AmfModel::Utf8String("onMetaData"@),
            AmfModel::Object(properties_of(metadata)),
        ],
    }
}

/// A ping is sent, and the embedding application is told that it was.
pub open spec fn on_ping(server: ServerModel, timestamp: RtmpTimestamp) -> ServerOutcome {
    ServerOutcome {
        server,
        result: Ok(
            seq![
                send(
                    0,
                    MessageModel::UserControl {
                        event_type: UserControlEventType::PingRequest,
                        stream_id: None,
                        buffer_length: None,
                        timestamp: Some(timestamp),
                    },
                ),
                ActionModel::Raise(ServerEventModel::PingRequestSent { timestamp: timestamp.value }),
            ],
        ),
    }
}

/// A user control message is sent as it is asked for.
pub open spec fn on_user_control(
    server: ServerModel,
    event_type: UserControlEventType,
    stream_id: Option<u32>,
    buffer_length: Option<u32>,
    timestamp: Option<RtmpTimestamp>,
) -> ServerOutcome {
    ServerOutcome {
        server,
        result: Ok(
            seq![
                send(
                    0,
                    MessageModel::UserControl { event_type, stream_id, buffer_length, timestamp },
                ),
            ],
        ),
    }
}

} // verus!
