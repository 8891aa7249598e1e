//! The client's rules: what a client does on each call and on each message,
//! stated over what the client knows.

use crate::amf0::number::{bits_of_u32, whole_u32};
use crate::amf0::{text_property, AmfModel};
use crate::messages::message_payload::PayloadModel;
use crate::messages::{MessageModel, UserControlEventType};
use crate::sessions::client::events::ClientEventModel;
use crate::sessions::metadata::{metadata_of, properties_of, MetadataModel};
use crate::sessions::{ActionModel, OutboundModel, SessionErrorKind};
use crate::time::span;
use vstd::prelude::*;

verus! {

/// Where a client stands in the connect, play and publish workflows.
#[derive(Debug, Clone, Copy, PartialEq, Eq, Structural)]
pub enum ClientState {
    Disconnected,
    Connecting,
    Connected,
    PlaybackRequested,
    Playing,
    PublishRequested,
    Publishing,
}

/// What the server is to do with a published stream.
#[derive(Debug, Clone, Copy, PartialEq, Eq, Structural)]
pub enum PublishRequestType {
    Live,
    Record,
    Append,
}

/// What a client knows, as the contracts speak of it.
pub struct ClientModel {
    pub flash_version: Seq<char>,
    pub playback_buffer_length_ms: u32,
    pub state: ClientState,
    /// The id that the next command is sent under. Never 0.
    pub next_transaction_id: u32,
    pub connection_transaction_id: Option<u32>,
    pub create_stream_transaction_id: Option<u32>,
    pub active_stream_id: Option<u32>,
    pub active_stream_key: Option<Seq<char>>,
    pub app_name: Option<Seq<char>>,
    pub publish_type: PublishRequestType,
    /// After how many bytes the server wants an acknowledgement.
    pub peer_window_ack_size: Option<u32>,
    /// The window that the client has announced or was told to announce.
    pub window_ack_size: u32,
    /// The bytes of message bodies received so far, modulo 2^32.
    pub bytes_received: u32,
    pub bytes_received_at_last_ack: u32,
}

/// A client's actions.
pub type ClientActionModel = ActionModel<ClientEventModel>;

/// How a call or a message leaves the client, and what it asks for.
pub struct ClientOutcome {
    pub client: ClientModel,
    pub result: Result<Seq<ClientActionModel>, SessionErrorKind>,
}

/// A message to send on message stream 0 at time 0, which the transport may
/// not drop.
pub open spec fn control(message: MessageModel) -> ClientActionModel {
    ActionModel::Send(
        OutboundModel { message, message_stream_id: 0, timestamp: 0, can_be_dropped: false },
    )
}

/// A command to send on a message stream at time 0, which the transport may
/// not drop.
pub open spec fn command(
    message_stream_id: u32,
    name: Seq<char>,
    transaction_id: u32,
    command_object: AmfModel,
    arguments: Seq<AmfModel>,
) -> ClientActionModel {
    ActionModel::Send(
        OutboundModel {
            message: MessageModel::Amf0Command {
                command_name: name,
                transaction_id: bits_of_u32(transaction_id),
                command_object,
                additional_arguments: arguments,
            },
            message_stream_id,
            timestamp: 0,
            can_be_dropped: false,
        },
    )
}

/// The transaction id after `id`: one more, and 1 after the largest.
pub open spec fn id_after(id: u32) -> u32 {
    if id == u32::MAX {
        1
    } else {
        (id + 1) as u32
    }
}

/// The command object of a connect command.
pub open spec fn connect_object(app_name: Seq<char>, flash_version: Seq<char>) -> AmfModel {
    AmfModel::Object(
        Map::<Seq<char>, AmfModel>::empty().insert("app"@, AmfModel::Utf8String(app_name)).insert(
            "flashVer"@,
            AmfModel::Utf8String(flash_version),
        ).insert("objectEncoding"@, AmfModel::Number(0)),
    )
}

/// The word that a publish command names a publish type by.
pub open spec fn publish_word(publish_type: PublishRequestType) -> Seq<char> {
    match publish_type {
        PublishRequestType::Live => "live"@,
        PublishRequestType::Record => "record"@,
        PublishRequestType::Append => "append"@,
    }
}

/// The characters of an optional string; none where there is no string.
pub open spec fn text_or_empty(text: Option<Seq<char>>) -> Seq<char> {
    match text {
        Some(t) => t,
        None => Seq::empty(),
    }
}

/// A connection is asked for: only a client that is disconnected can do so.
/// It sends a connect command under a new transaction id and waits.
pub open spec fn on_request_connection(client: ClientModel, app_name: Seq<char>) -> ClientOutcome {
    if client.state != ClientState::Disconnected {
        ClientOutcome {
            client,
            result: Err(SessionErrorKind::CantConnectWhileAlreadyConnected),
        }
    } else {
        let id = client.next_transaction_id;
        ClientOutcome {
            client: ClientModel {
                state: ClientState::Connecting,
                next_transaction_id: id_after(id),
                connection_transaction_id: Some(id),
                app_name: Some(app_name),
                ..client
            },
            result: Ok(
                seq![
                    command(
                        0,
                        "connect"@,
                        id,
                        connect_object(app_name, client.flash_version),
                        Seq::empty(),
                    ),
                ],
            ),
        }
    }
}

/// A stream is asked for, to play or to publish: only a client that is
/// connected and has no stream can do so. It asks the server for a message
/// stream under a new transaction id and waits.
pub open spec fn on_request_stream(
    client: ClientModel,
    stream_key: Seq<char>,
    next: ClientState,
    publish_type: PublishRequestType,
) -> ClientOutcome {
    if client.state != ClientState::Connected {
        ClientOutcome { client, result: Err(SessionErrorKind::ActionNotAllowedInCurrentState) }
    } else {
        let id = client.next_transaction_id;
        ClientOutcome {
            client: ClientModel {
                state: next,
                next_transaction_id: id_after(id),
                create_stream_transaction_id: Some(id),
                active_stream_key: Some(stream_key),
                publish_type,
                ..client
            },
            result: Ok(seq![command(0, "createStream"@, id, AmfModel::Null, Seq::empty())]),
        }
    }
}

/// The message stream that a publishing client sends on.
pub open spec fn publishing_stream(client: ClientModel) -> Option<u32> {
    if client.state == ClientState::Publishing {
        client.active_stream_id
    } else {
        None
    }
}

/// Something is to be published: only a client that is publishing can do so.
pub open spec fn on_publish(client: ClientModel, outbound: OutboundModel) -> ClientOutcome {
    match publishing_stream(client) {
        Some(_) => ClientOutcome { client, result: Ok(seq![ActionModel::Send(outbound)]) },
        None => ClientOutcome {
            client,
            result: Err(SessionErrorKind::ActionNotAllowedInCurrentState),
        },
    }
}

/// The data message that announces metadata.
pub open spec fn metadata_message(metadata: MetadataModel) -> MessageModel {
    MessageModel::Amf0Data {
        values: seq![
            AmfModel::Utf8String("@setDataFrame"@),
            AmfModel::Utf8String("onMetaData"@),
            AmfModel::Object(properties_of(metadata)),
        ],
    }
}

/// The client after `count` more bytes of message body.
pub open spec fn counted(client: ClientModel, count: nat) -> ClientModel {
    ClientModel { bytes_received: ((client.bytes_received + count) % span()) as u32, ..client }
}

/// Whether an acknowledgement is due: the server has announced a window, and
/// as many bytes have arrived since the last acknowledgement.
pub open spec fn acknowledgement_due(client: ClientModel) -> bool {
    match client.peer_window_ack_size {
        Some(window) => (client.bytes_received - client.bytes_received_at_last_ack) % span()
            >= window,
        None => false,
    }
}

/// The text property `name` of the first argument of a command, if that is
/// an object and has it.
pub open spec fn status_text(arguments: Seq<AmfModel>, name: Seq<char>) -> Option<Seq<char>> {
    if arguments.len() >= 1 {
        match arguments[0] {
            AmfModel::Object(object) => text_property(object, name),
            _ => None,
        }
    } else {
        None
    }
}

/// The client without a stream, back in the state of being connected.
pub open spec fn without_stream(client: ClientModel) -> ClientModel {
    ClientModel {
        state: ClientState::Connected,
        create_stream_transaction_id: None,
        active_stream_id: None,
        active_stream_key: None,
        ..client
    }
}

/// Whether a client waits for a message stream.
pub open spec fn awaits_stream(client: ClientModel) -> bool {
    client.state == ClientState::PlaybackRequested || client.state
        == ClientState::PublishRequested
}

/// The command that follows the creation of the message stream: play, or
/// publish.
pub open spec fn stream_command(client: ClientModel, stream_id: u32) -> ClientActionModel {
    let key = AmfModel::Utf8String(text_or_empty(client.active_stream_key));
    if client.state == ClientState::PlaybackRequested {
        command(stream_id, "play"@, 0, AmfModel::Null, seq![key])
    } else {
        command(
            stream_id,
            "publish"@,
            0,
            AmfModel::Null,
            seq![key, AmfModel::Utf8String(publish_word(client.publish_type))],
        )
    }
}

/// Whether a number names the transaction id.
pub open spec fn names(transaction_id: u64, id: Option<u32>) -> bool {
    match id {
        Some(n) => transaction_id == bits_of_u32(n),
        None => false,
    }
}

/// A `_result` arrived. It answers the connect command, and the client is
/// connected and announces its window; or it answers the createStream
/// command with the id of the message stream, and the client sets the buffer
/// length and asks to play or to publish on that stream. A result that
/// answers neither is refused.
pub open spec fn on_result(client: ClientModel, transaction_id: u64, arguments: Seq<AmfModel>)
    -> ClientOutcome {
    if client.state == ClientState::Connecting && names(
        transaction_id,
        client.connection_transaction_id,
    ) {
        ClientOutcome {
            client: ClientModel {
                state: ClientState::Connected,
                connection_transaction_id: None,
                ..client
            },
            result: Ok(
                seq![
                    ActionModel::Raise(ClientEventModel::ConnectionRequestAccepted),
                    control(MessageModel::WindowAcknowledgement { size: client.window_ack_size }),
                ],
            ),
        }
    } else if awaits_stream(client) && names(transaction_id, client.create_stream_transaction_id)
        && arguments.len() >= 1 && arguments[0] is Number {
        let stream_id = whole_u32(arguments[0]->Number_0);
        ClientOutcome {
            client: ClientModel {
                create_stream_transaction_id: None,
                active_stream_id: Some(stream_id),
                ..client
            },
            result: Ok(
                seq![
                    control(
                        MessageModel::UserControl {
                            event_type: UserControlEventType::SetBufferLength,
                            stream_id: Some(stream_id),
                            buffer_length: Some(client.playback_buffer_length_ms),
                            timestamp: None,
                        },
                    ),
                    stream_command(client, stream_id),
                ],
            ),
        }
    } else {
        ClientOutcome { client, result: Err(SessionErrorKind::InvalidTransactionId) }
    }
}

/// An `_error` arrived. It refuses the connection, and the client is
/// disconnected; or it refuses the message stream, and the client is
/// connected without a stream. An error that answers neither is refused.
pub open spec fn on_error(client: ClientModel, transaction_id: u64, arguments: Seq<AmfModel>)
    -> ClientOutcome {
    let description = text_or_empty(status_text(arguments, "description"@));
    if client.state == ClientState::Connecting && names(
        transaction_id,
        client.connection_transaction_id,
    ) {
        ClientOutcome {
            client: ClientModel {
                state: ClientState::Disconnected,
                connection_transaction_id: None,
                app_name: None,
                ..client
            },
            result: Ok(
                seq![
                    ActionModel::Raise(ClientEventModel::ConnectionRequestRejected { description }),
                ],
            ),
        }
    } else if awaits_stream(client) && names(transaction_id, client.create_stream_transaction_id) {
        ClientOutcome {
            client: without_stream(client),
            result: Ok(
                seq![
                    ActionModel::Raise(
                        if client.state == ClientState::PlaybackRequested {
                            ClientEventModel::PlaybackRequestRejected { description }
                        } else {
                            ClientEventModel::PublishRequestRejected { description }
                        },
                    ),
                ],
            ),
        }
    } else {
        ClientOutcome { client, result: Err(SessionErrorKind::InvalidTransactionId) }
    }
}

/// Whether a status code says that the connection was refused.
pub open spec fn refuses_connection(code: Seq<char>) -> bool {
    code == "NetConnection.Connect.Failed"@ || code == "NetConnection.Connect.Rejected"@
}

/// Whether a status code says that playing was refused.
pub open spec fn refuses_play(code: Seq<char>) -> bool {
    code == "NetStream.Play.Failed"@ || code == "NetStream.Play.Rejected"@
}

/// Whether a status code says that publishing was refused.
pub open spec fn refuses_publish(code: Seq<char>) -> bool {
    code == "NetStream.Publish.Failed"@ || code == "NetStream.Publish.Rejected"@ || code
        == "NetStream.Publish.BadName"@
}

/// An `onStatus` arrived. The start of playing or publishing that the client
/// has asked for on its message stream is accepted. A status that says that
/// what the client waits for failed or was rejected raises the rejection of
/// that request: of the connection, and the client is disconnected; of
/// playing or publishing, and the client is connected without a stream. Any
/// other status is handed on.
pub open spec fn on_status(client: ClientModel, code: Seq<char>, description: Seq<char>)
    -> ClientOutcome {
    let key = text_or_empty(client.active_stream_key);
    if code == "NetStream.Play.Start"@ && client.state == ClientState::PlaybackRequested
        && client.active_stream_id is Some {
        ClientOutcome {
            client: ClientModel { state: ClientState::Playing, ..client },
            result: Ok(
                seq![
                    ActionModel::Raise(
                        ClientEventModel::PlaybackRequestAccepted { stream_key: key },
                    ),
                ],
            ),
        }
    } else if code == "NetStream.Publish.Start"@ && client.state
        == ClientState::PublishRequested && client.active_stream_id is Some {
        ClientOutcome {
            client: ClientModel { state: ClientState::Publishing, ..client },
            result: Ok(
                seq![
                    ActionModel::Raise(ClientEventModel::PublishRequestAccepted { stream_key: key }),
                ],
            ),
        }
    } else if refuses_connection(code) && client.state == ClientState::Connecting {
        ClientOutcome {
            client: ClientModel {
                state: ClientState::Disconnected,
                connection_transaction_id: None,
                app_name: None,
                ..client
            },
            result: Ok(
                seq![
                    ActionModel::Raise(ClientEventModel::ConnectionRequestRejected { description }),
                ],
            ),
        }
    } else if refuses_play(code) && client.state == ClientState::PlaybackRequested {
        ClientOutcome {
            client: without_stream(client),
            result: Ok(
                seq![ActionModel::Raise(ClientEventModel::PlaybackRequestRejected { description })],
            ),
        }
    } else if refuses_publish(code) && client.state == ClientState::PublishRequested {
        ClientOutcome {
            client: without_stream(client),
            result: Ok(
                seq![ActionModel::Raise(ClientEventModel::PublishRequestRejected { description })],
            ),
        }
    } else {
        ClientOutcome {
            client,
            result: Ok(
                seq![ActionModel::Raise(ClientEventModel::UnhandleableOnStatusCode { code })],
            ),
        }
    }
}

/// A command arrived.
pub open spec fn on_command(
    client: ClientModel,
    command_name: Seq<char>,
    transaction_id: u64,
    command_object: AmfModel,
    arguments: Seq<AmfModel>,
) -> ClientOutcome {
    if command_name == "_result"@ {
        on_result(client, transaction_id, arguments)
    } else if command_name == "_error"@ {
        on_error(client, transaction_id, arguments)
    } else if command_name == "onStatus"@ && status_text(arguments, "code"@) is Some {
        on_status(
            client,
            status_text(arguments, "code"@).unwrap(),
            text_or_empty(status_text(arguments, "description"@)),
        )
    } else {
        ClientOutcome {
            client,
            result: Ok(
                seq![
                    ActionModel::Raise(
                        ClientEventModel::UnhandleableAmf0Command {
                            command_name,
                            transaction_id,
                            command_object,
                            additional_values: arguments,
                        },
                    ),
                ],
            ),
        }
    }
}

/// Whether data values announce metadata: the first is the string
/// `onMetaData`, the second an object.
pub open spec fn announces_metadata(values: Seq<AmfModel>) -> bool {
    values.len() >= 2 && values[0] == AmfModel::Utf8String("onMetaData"@) && values[1] is Object
}

/// A message arrived, apart from the count of its bytes.
pub open spec fn on_message(client: ClientModel, payload: PayloadModel, message: MessageModel)
    -> ClientOutcome {
    let unhandled = ClientOutcome { client, result: Ok(seq![ActionModel::Unhandled(payload)]) };
    let playing = client.state == ClientState::Playing;
    match message {
        MessageModel::SetChunkSize { .. } => ClientOutcome { client, result: Ok(Seq::empty()) },
        MessageModel::WindowAcknowledgement { size } => ClientOutcome {
            client: ClientModel { peer_window_ack_size: Some(size), ..client },
            result: Ok(Seq::empty()),
        },
        MessageModel::SetPeerBandwidth { size, .. } => if size != client.window_ack_size {
            ClientOutcome {
                client: ClientModel { window_ack_size: size, ..client },
                result: Ok(seq![control(MessageModel::WindowAcknowledgement { size })]),
            }
        } else {
            ClientOutcome { client, result: Ok(Seq::empty()) }
        },
        MessageModel::Acknowledgement { sequence_number } => ClientOutcome {
            client,
            result: Ok(
                seq![
                    ActionModel::Raise(
                        ClientEventModel::AcknowledgementReceived {
                            bytes_received: sequence_number,
                        },
                    ),
                ],
            ),
        },
        MessageModel::Amf0Command {
            command_name,
            transaction_id,
            command_object,
            additional_arguments,
        } => on_command(client, command_name, transaction_id, command_object, additional_arguments),
        MessageModel::Amf0Data { values } => if playing && announces_metadata(values) {
            ClientOutcome {
                client,
                result: Ok(
                    seq![
                        ActionModel::Raise(
                            ClientEventModel::StreamMetadataReceived {
                                metadata: metadata_of(values[1]->Object_0),
                            },
                        ),
                    ],
                ),
            }
        } else {
            unhandled
        },
        MessageModel::VideoData { data } => if playing {
            ClientOutcome {
                client,
                result: Ok(
                    seq![
                        ActionModel::Raise(
                            ClientEventModel::VideoDataReceived {
                                data,
                                timestamp: payload.timestamp,
                            },
                        ),
                    ],
                ),
            }
        } else {
            unhandled
        },
        MessageModel::AudioData { data } => if playing {
            ClientOutcome {
                client,
                result: Ok(
                    seq![
                        ActionModel::Raise(
                            ClientEventModel::AudioDataReceived {
                                data,
                                timestamp: payload.timestamp,
                            },
                        ),
                    ],
                ),
            }
        } else {
            unhandled
        },
        _ => unhandled,
    }
}

/// A message arrived. Its bytes are counted first, and if that makes an
/// acknowledgement due, the acknowledgement comes before everything else that
/// the message asks for.
pub open spec fn on_payload(client: ClientModel, payload: PayloadModel, message: MessageModel)
    -> ClientOutcome {
    let after_count = counted(client, payload.data.len());
    if acknowledgement_due(after_count) {
        let acknowledged = ClientModel {
            bytes_received_at_last_ack: after_count.bytes_received,
            ..after_count
        };
        let outcome = on_message(acknowledged, payload, message);
        ClientOutcome {
            client: outcome.client,
            result: match outcome.result {
                Ok(actions) => Ok(
                    seq![
                        control(
                            MessageModel::Acknowledgement {
                                sequence_number: after_count.bytes_received,
                            },
                        ),
                    ] + actions,
                ),
                Err(kind) => Err(kind),
            },
        }
    } else {
        on_message(after_count, payload, message)
    }
}

} // verus!
