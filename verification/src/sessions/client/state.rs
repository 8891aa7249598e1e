//! The client's state machine: the rules, carried out.

use crate::amf0::number::{number_from_u32, number_to_u32};
use crate::amf0::{get_text_property, object_model, push_property, values_model};
use crate::amf0::{AmfModel, AmfValue};
use crate::messages::message_payload::MessagePayload;
use crate::messages::{RtmpMessage, UserControlEventType};
use crate::sessions::client::events::ClientSessionEvent;
use crate::sessions::client::rules::{announces_metadata, command, control, id_after, on_command};
use crate::sessions::client::rules::{on_error, on_message, on_payload, on_request_connection};
use crate::sessions::client::rules::{on_request_stream, on_result, on_status, publishing_stream};
use crate::sessions::client::rules::{status_text, text_or_empty, without_stream};
use crate::sessions::client::rules::{ClientActionModel, ClientModel, ClientOutcome, ClientState};
use crate::sessions::client::rules::PublishRequestType;
use crate::sessions::metadata::{metadata_of, text_model, StreamMetadata};
use crate::sessions::{action_models, Action, OutboundMessage, SessionError, SessionErrorKind};
use crate::text::{owned, str_eq};
use crate::time::{span, RtmpTimestamp};
use vstd::prelude::*;

verus! {

/// What a client session goes by.
#[derive(Debug, Clone, PartialEq)]
pub struct ClientSessionConfig {
    /// The chunk size that the client announces and sends with.
    pub chunk_size: u32,
    pub flash_version: String,
    pub playback_buffer_length_ms: u32,
    /// The window that the client announces once it is connected.
    pub window_ack_size: u32,
    pub peer_bandwidth: u32,
}

impl ClientSessionConfig {
    /// The settings of a common Flash client: chunks of 4096 bytes, a window
    /// and a bandwidth of 2,500,000 bytes, and a buffer of two seconds.
    pub fn new() -> (r: ClientSessionConfig)
        ensures
            r.chunk_size == 4096,
            r.flash_version@ == "WIN 23,0,0,207"@,
            r.playback_buffer_length_ms == 2_000,
            r.window_ack_size == 2_500_000,
            r.peer_bandwidth == 2_500_000,
    {
        ClientSessionConfig {
            chunk_size: 4096,
            flash_version: owned("WIN 23,0,0,207"),
            playback_buffer_length_ms: 2_000,
            window_ack_size: 2_500_000,
            peer_bandwidth: 2_500_000,
        }
    }
}

/// A client's actions.
pub type ClientAction = Action<ClientSessionEvent>;

/// The client's state machine.
pub struct ClientCore {
    flash_version: String,
    playback_buffer_length_ms: u32,
    state: ClientState,
    next_transaction_id: u32,
    connection_transaction_id: Option<u32>,
    create_stream_transaction_id: Option<u32>,
    active_stream_id: Option<u32>,
    active_stream_key: Option<String>,
    app_name: Option<String>,
    publish_type: PublishRequestType,
    peer_window_ack_size: Option<u32>,
    window_ack_size: u32,
    bytes_received: u32,
    bytes_received_at_last_ack: u32,
}

impl View for ClientCore {
    type V = ClientModel;

    closed spec fn view(&self) -> ClientModel {
        ClientModel {
            flash_version: self.flash_version@,
            playback_buffer_length_ms: self.playback_buffer_length_ms,
            state: self.state,
            next_transaction_id: self.next_transaction_id,
            connection_transaction_id: self.connection_transaction_id,
            create_stream_transaction_id: self.create_stream_transaction_id,
            active_stream_id: self.active_stream_id,
            active_stream_key: text_model(self.active_stream_key),
            app_name: text_model(self.app_name),
            publish_type: self.publish_type,
            peer_window_ack_size: self.peer_window_ack_size,
            window_ack_size: self.window_ack_size,
            bytes_received: self.bytes_received,
            bytes_received_at_last_ack: self.bytes_received_at_last_ack,
        }
    }
}

/// A client that has done nothing yet.
pub open spec fn fresh_client(config: ClientSessionConfig) -> ClientModel {
    ClientModel {
        flash_version: config.flash_version@,
        playback_buffer_length_ms: config.playback_buffer_length_ms,
        state: ClientState::Disconnected,
        next_transaction_id: 1,
        connection_transaction_id: None,
        create_stream_transaction_id: None,
        active_stream_id: None,
        active_stream_key: None,
        app_name: None,
        publish_type: PublishRequestType::Live,
        peer_window_ack_size: None,
        window_ack_size: config.window_ack_size,
        bytes_received: 0,
        bytes_received_at_last_ack: 0,
    }
}

/// Whether what the state machine did is what the outcome says.
pub open spec fn outcome_is(
    client: ClientModel,
    r: Result<Vec<ClientAction>, SessionError>,
    expected: ClientOutcome,
) -> bool {
    &&& client == expected.client
    &&& match (r, expected.result) {
        (Ok(actions), Ok(models)) => action_models(actions@) == models,
        (Err(e), Err(kind)) => e.kind == kind,
        _ => false,
    }
}

/// No actions.
fn no_actions() -> (r: Vec<ClientAction>)
    ensures
        action_models(r@) == Seq::<ClientActionModel>::empty(),
{
    let r: Vec<ClientAction> = Vec::new();
    assert(action_models(r@) =~= Seq::<ClientActionModel>::empty());
    r
}

/// One action.
fn one_action(action: ClientAction) -> (r: Vec<ClientAction>)
    ensures
        action_models(r@) == seq![action@],
{
    let mut r: Vec<ClientAction> = Vec::new();
    r.push(action);
    assert(action_models(r@) =~= seq![action@]);
    r
}

/// Two actions.
fn two_actions(first: ClientAction, second: ClientAction) -> (r: Vec<ClientAction>)
    ensures
        action_models(r@) == seq![first@, second@],
{
    let mut r: Vec<ClientAction> = Vec::new();
    r.push(first);
    r.push(second);
    assert(action_models(r@) =~= seq![first@, second@]);
    r
}

/// An event to raise.
fn raise(event: ClientSessionEvent) -> (r: ClientAction)
    ensures
        r@ == ClientActionModel::Raise(event@),
{
    Action::Raise(event)
}

/// A message to send on message stream 0 at time 0.
fn control_action(message: RtmpMessage) -> (r: ClientAction)
    ensures
        r@ == control(message@),
{
    Action::Send(
        OutboundMessage {
            message,
            message_stream_id: 0,
            timestamp: RtmpTimestamp::new(0),
            can_be_dropped: false,
        },
    )
}

/// A command to send at time 0.
fn command_action(
    message_stream_id: u32,
    name: &str,
    transaction_id: u32,
    command_object: AmfValue,
    arguments: Vec<AmfValue>,
) -> (r: ClientAction)
    ensures
        r@ == command(
            message_stream_id,
            name@,
            transaction_id,
            command_object@,
            values_model(arguments@),
        ),
{
    Action::Send(
        OutboundMessage {
            message: RtmpMessage::Amf0Command {
                command_name: owned(name),
                transaction_id: number_from_u32(transaction_id),
                command_object,
                additional_arguments: arguments,
            },
            message_stream_id,
            timestamp: RtmpTimestamp::new(0),
            can_be_dropped: false,
        },
    )
}

/// The text property `name` of the first argument of a command.
fn get_status_text(arguments: &Vec<AmfValue>, name: &str) -> (r: Option<String>)
    ensures
        text_model(r) == status_text(values_model(arguments@), name@),
{
    if arguments.len() >= 1 {
        match &arguments[0] {
            AmfValue::Object(properties) => {
                let r = get_text_property(properties, name);
                assert(arguments@[0]@ == AmfModel::Object(object_model(properties@)));
                r
            },
            _ => None,
        }
    } else {
        None
    }
}

/// The string, or an empty one.
fn or_empty(text: Option<String>) -> (r: String)
    ensures
        r@ == text_or_empty(text_model(text)),
{
    match text {
        Some(t) => t,
        None => String::new(),
    }
}

/// A copy of an optional string.
fn copy_text(text: &Option<String>) -> (r: Option<String>)
    ensures
        text_model(r) == text_model(*text),
{
    match text {
        Some(t) => Some(t.clone()),
        None => None,
    }
}

impl ClientCore {
    /// A client that has done nothing yet.
    pub fn new(config: &ClientSessionConfig) -> (r: ClientCore)
        ensures
            r@ == fresh_client(*config),
    {
        ClientCore {
            flash_version: config.flash_version.clone(),
            playback_buffer_length_ms: config.playback_buffer_length_ms,
            state: ClientState::Disconnected,
            next_transaction_id: 1,
            connection_transaction_id: None,
            create_stream_transaction_id: None,
            active_stream_id: None,
            active_stream_key: None,
            app_name: None,
            publish_type: PublishRequestType::Live,
            peer_window_ack_size: None,
            window_ack_size: config.window_ack_size,
            bytes_received: 0,
            bytes_received_at_last_ack: 0,
        }
    }

    /// Takes the next transaction id.
    fn take_transaction_id(&mut self) -> (id: u32)
        ensures
            id == old(self).next_transaction_id,
            *final(self) == (ClientCore { next_transaction_id: id_after(id), ..*old(self) }),
    {
        let id = self.next_transaction_id;
        self.next_transaction_id = if id == u32::MAX {
            1
        } else {
            id + 1
        };
        id
    }

    /// A connection is asked for.
    pub fn request_connection(&mut self, app_name: String) -> (r: Result<
        Vec<ClientAction>,
        SessionError,
    >)
        ensures
            outcome_is(final(self)@, r, on_request_connection(old(self)@, app_name@)),
    {
        if self.state != ClientState::Disconnected {
            return Err(
                SessionError { kind: SessionErrorKind::CantConnectWhileAlreadyConnected },
            );
        }
        let id = self.take_transaction_id();
        let mut properties: Vec<(String, AmfValue)> = Vec::new();
        assert(object_model(properties@) =~= Map::<Seq<char>, AmfModel>::empty());
        push_property(&mut properties, "app", AmfValue::Utf8String(app_name.clone()));
        push_property(
            &mut properties,
            "flashVer",
            AmfValue::Utf8String(self.flash_version.clone()),
        );
        push_property(&mut properties, "objectEncoding", AmfValue::Number(0));
        let arguments: Vec<AmfValue> = Vec::new();
        assert(values_model(arguments@) =~= Seq::<AmfModel>::empty());
        let action = command_action(0, "connect", id, AmfValue::Object(properties), arguments);
        self.state = ClientState::Connecting;
        self.connection_transaction_id = Some(id);
        self.app_name = Some(app_name);
        Ok(one_action(action))
    }

    /// A stream is asked for, to play or to publish.
    fn request_stream(
        &mut self,
        stream_key: String,
        next: ClientState,
        publish_type: PublishRequestType,
    ) -> (r: Result<Vec<ClientAction>, SessionError>)
        ensures
            outcome_is(
                final(self)@,
                r,
                on_request_stream(old(self)@, stream_key@, next, publish_type),
            ),
    {
        if self.state != ClientState::Connected {
            return Err(SessionError { kind: SessionErrorKind::ActionNotAllowedInCurrentState });
        }
        let id = self.take_transaction_id();
        let arguments: Vec<AmfValue> = Vec::new();
        assert(values_model(arguments@) =~= Seq::<AmfModel>::empty());
        let action = command_action(0, "createStream", id, AmfValue::Null, arguments);
        self.state = next;
        self.create_stream_transaction_id = Some(id);
        self.active_stream_key = Some(stream_key);
        self.publish_type = publish_type;
        Ok(one_action(action))
    }

    /// Playback of a stream is asked for.
    pub fn request_playback(&mut self, stream_key: String) -> (r: Result<
        Vec<ClientAction>,
        SessionError,
    >)
        ensures
            outcome_is(
                final(self)@,
                r,
                on_request_stream(
                    old(self)@,
                    stream_key@,
                    ClientState::PlaybackRequested,
                    old(self)@.publish_type,
                ),
            ),
    {
        let publish_type = self.publish_type;
        self.request_stream(stream_key, ClientState::PlaybackRequested, publish_type)
    }

    /// Leave to publish a stream is asked for.
    pub fn request_publishing(&mut self, stream_key: String, publish_type: PublishRequestType) -> (r:
        Result<Vec<ClientAction>, SessionError>)
        ensures
            outcome_is(
                final(self)@,
                r,
                on_request_stream(
                    old(self)@,
                    stream_key@,
                    ClientState::PublishRequested,
                    publish_type,
                ),
            ),
    {
        self.request_stream(stream_key, ClientState::PublishRequested, publish_type)
    }

    /// The message stream that the client publishes on, if it publishes.
    pub fn publishing_stream_id(&self) -> (r: Option<u32>)
        ensures
            r == publishing_stream(self@),
    {
        if self.state == ClientState::Publishing {
            self.active_stream_id
        } else {
            None
        }
    }

    /// A `_result` arrived.
    fn handle_result(&mut self, transaction_id: u64, arguments: Vec<AmfValue>) -> (r: Result<
        Vec<ClientAction>,
        SessionError,
    >)
        ensures
            outcome_is(
                final(self)@,
                r,
                on_result(old(self)@, transaction_id, values_model(arguments@)),
            ),
    {
        let connecting = match self.connection_transaction_id {
            Some(id) => self.state == ClientState::Connecting && transaction_id
                == number_from_u32(id),
            None => false,
        };
        if connecting {
            self.state = ClientState::Connected;
            self.connection_transaction_id = None;
            let window = RtmpMessage::WindowAcknowledgement { size: self.window_ack_size };
            return Ok(
                two_actions(
                    raise(ClientSessionEvent::ConnectionRequestAccepted),
                    control_action(window),
                ),
            );
        }
        let waiting = (self.state == ClientState::PlaybackRequested || self.state
            == ClientState::PublishRequested) && match self.create_stream_transaction_id {
            Some(id) => transaction_id == number_from_u32(id),
            None => false,
        };
        if waiting && arguments.len() >= 1 {
            match &arguments[0] {
                AmfValue::Number(bits) => {
                    let stream_id = number_to_u32(*bits);
                    assert(values_model(arguments@)[0] == AmfModel::Number(*bits));
                    let buffer = RtmpMessage::UserControl {
                        event_type: UserControlEventType::SetBufferLength,
                        stream_id: Some(stream_id),
                        buffer_length: Some(self.playback_buffer_length_ms),
                        timestamp: None,
                    };
                    let key = or_empty(copy_text(&self.active_stream_key));
                    let mut parameters: Vec<AmfValue> = Vec::new();
                    parameters.push(AmfValue::Utf8String(key));
                    let request = if self.state == ClientState::PlaybackRequested {
                        assert(values_model(parameters@) =~= seq![parameters@[0]@]);
                        command_action(stream_id, "play", 0, AmfValue::Null, parameters)
                    } else {
                        let word = match self.publish_type {
                            PublishRequestType::Live => owned("live"),
                            PublishRequestType::Record => owned("record"),
                            PublishRequestType::Append => owned("append"),
                        };
                        parameters.push(AmfValue::Utf8String(word));
                        assert(values_model(parameters@) =~= seq![
                            parameters@[0]@,
                            parameters@[1]@,
                        ]);
                        command_action(stream_id, "publish", 0, AmfValue::Null, parameters)
                    };
                    self.create_stream_transaction_id = None;
                    self.active_stream_id = Some(stream_id);
                    return Ok(two_actions(control_action(buffer), request));
                },
                _ => {
                    assert(!(values_model(arguments@)[0] is Number));
                },
            }
        }
        Err(SessionError { kind: SessionErrorKind::InvalidTransactionId })
    }

    /// Forgets the stream: the client is connected and no more.
    fn drop_stream(&mut self)
        ensures
            final(self)@ == without_stream(old(self)@),
    {
        self.state = ClientState::Connected;
        self.create_stream_transaction_id = None;
        self.active_stream_id = None;
        self.active_stream_key = None;
    }

    /// An `_error` arrived.
    fn handle_error(&mut self, transaction_id: u64, arguments: Vec<AmfValue>) -> (r: Result<
        Vec<ClientAction>,
        SessionError,
    >)
        ensures
            outcome_is(
                final(self)@,
                r,
                on_error(old(self)@, transaction_id, values_model(arguments@)),
            ),
    {
        let description = or_empty(get_status_text(&arguments, "description"));
        let connecting = match self.connection_transaction_id {
            Some(id) => self.state == ClientState::Connecting && transaction_id
                == number_from_u32(id),
            None => false,
        };
        if connecting {
            self.state = ClientState::Disconnected;
            self.connection_transaction_id = None;
            self.app_name = None;
            return Ok(
                one_action(raise(ClientSessionEvent::ConnectionRequestRejected { description })),
            );
        }
        let waiting = (self.state == ClientState::PlaybackRequested || self.state
            == ClientState::PublishRequested) && match self.create_stream_transaction_id {
            Some(id) => transaction_id == number_from_u32(id),
            None => false,
        };
        if waiting {
            let event = if self.state == ClientState::PlaybackRequested {
                ClientSessionEvent::PlaybackRequestRejected { description }
            } else {
                ClientSessionEvent::PublishRequestRejected { description }
            };
            self.drop_stream();
            return Ok(one_action(raise(event)));
        }
        Err(SessionError { kind: SessionErrorKind::InvalidTransactionId })
    }

    /// An `onStatus` arrived.
    fn handle_status(&mut self, code: String, description: String) -> (r: Result<
        Vec<ClientAction>,
        SessionError,
    >)
        ensures
            outcome_is(final(self)@, r, on_status(old(self)@, code@, description@)),
    {
        let key = or_empty(copy_text(&self.active_stream_key));
        if str_eq(code.as_str(), "NetStream.Play.Start") && self.state
            == ClientState::PlaybackRequested && self.active_stream_id.is_some() {
            self.state = ClientState::Playing;
            return Ok(
                one_action(raise(ClientSessionEvent::PlaybackRequestAccepted { stream_key: key })),
            );
        }
        if str_eq(code.as_str(), "NetStream.Publish.Start") && self.state
            == ClientState::PublishRequested && self.active_stream_id.is_some() {
            self.state = ClientState::Publishing;
            return Ok(
                one_action(raise(ClientSessionEvent::PublishRequestAccepted { stream_key: key })),
            );
        }
        let name = code.as_str();
        if (str_eq(name, "NetConnection.Connect.Failed") || str_eq(
            name,
            "NetConnection.Connect.Rejected",
        )) && self.state == ClientState::Connecting {
            self.state = ClientState::Disconnected;
            self.connection_transaction_id = None;
            self.app_name = None;
            return Ok(
                one_action(raise(ClientSessionEvent::ConnectionRequestRejected { description })),
            );
        }
        if (str_eq(name, "NetStream.Play.Failed") || str_eq(name, "NetStream.Play.Rejected"))
            && self.state == ClientState::PlaybackRequested {
            self.drop_stream();
            return Ok(
                one_action(raise(ClientSessionEvent::PlaybackRequestRejected { description })),
            );
        }
        if (str_eq(name, "NetStream.Publish.Failed") || str_eq(name, "NetStream.Publish.Rejected")
            || str_eq(name, "NetStream.Publish.BadName")) && self.state
            == ClientState::PublishRequested {
            self.drop_stream();
            return Ok(
                one_action(raise(ClientSessionEvent::PublishRequestRejected { description })),
            );
        }
        Ok(one_action(raise(ClientSessionEvent::UnhandleableOnStatusCode { code })))
    }

    /// A command arrived.
    fn handle_command(
        &mut self,
        command_name: String,
        transaction_id: u64,
        command_object: AmfValue,
        arguments: Vec<AmfValue>,
    ) -> (r: Result<Vec<ClientAction>, SessionError>)
        ensures
            outcome_is(
                final(self)@,
                r,
                on_command(
                    old(self)@,
                    command_name@,
                    transaction_id,
                    command_object@,
                    values_model(arguments@),
                ),
            ),
    {
        if str_eq(command_name.as_str(), "_result") {
            return self.handle_result(transaction_id, arguments);
        }
        if str_eq(command_name.as_str(), "_error") {
            return self.handle_error(transaction_id, arguments);
        }
        if str_eq(command_name.as_str(), "onStatus") {
            match get_status_text(&arguments, "code") {
                Some(code) => {
                    let description = or_empty(get_status_text(&arguments, "description"));
                    return self.handle_status(code, description);
                },
                None => {},
            }
        }
        Ok(
            one_action(
                raise(
                    ClientSessionEvent::UnhandleableAmf0Command {
                        command_name,
                        transaction_id,
                        command_object,
                        additional_values: arguments,
                    },
                ),
            ),
        )
    }

    /// Reads the metadata that data values announce, if they do.
    fn read_metadata(values: &Vec<AmfValue>) -> (r: Option<StreamMetadata>)
        ensures
            match r {
                Some(metadata) => announces_metadata(values_model(values@)) && metadata@
                    == metadata_of(values_model(values@)[1]->Object_0),
                None => !announces_metadata(values_model(values@)),
            },
    {
        if values.len() < 2 {
            return None;
        }
        match &values[0] {
            AmfValue::Utf8String(name) => {
                assert(values_model(values@)[0] == AmfModel::Utf8String(name@));
                if !str_eq(name.as_str(), "onMetaData") {
                    return None;
                }
            },
            _ => {
                assert(!(values_model(values@)[0] is Utf8String));
                return None;
            },
        }
        match &values[1] {
            AmfValue::Object(properties) => {
                assert(values_model(values@)[1] == AmfModel::Object(object_model(properties@)));
                Some(StreamMetadata::from_properties(properties))
            },
            _ => {
                assert(!(values_model(values@)[1] is Object));
                None
            },
        }
    }

    /// A message arrived, apart from the count of its bytes.
    fn handle_message(&mut self, payload: MessagePayload, message: RtmpMessage) -> (r: Result<
        Vec<ClientAction>,
        SessionError,
    >)
        ensures
            outcome_is(final(self)@, r, on_message(old(self)@, payload@, message@)),
    {
        let playing = self.state == ClientState::Playing;
        match message {
            RtmpMessage::SetChunkSize { .. } => Ok(no_actions()),
            RtmpMessage::WindowAcknowledgement { size } => {
                self.peer_window_ack_size = Some(size);
                Ok(no_actions())
            },
            RtmpMessage::SetPeerBandwidth { size, .. } => {
                if size != self.window_ack_size {
                    self.window_ack_size = size;
                    Ok(one_action(control_action(RtmpMessage::WindowAcknowledgement { size })))
                } else {
                    Ok(no_actions())
                }
            },
            RtmpMessage::Acknowledgement { sequence_number } => Ok(
                one_action(
                    raise(
                        ClientSessionEvent::AcknowledgementReceived {
                            bytes_received: sequence_number,
                        },
                    ),
                ),
            ),
            RtmpMessage::Amf0Command {
                command_name,
                transaction_id,
                command_object,
                additional_arguments,
            } => self.handle_command(
                command_name,
                transaction_id,
                command_object,
                additional_arguments,
            ),
            RtmpMessage::Amf0Data { values } => {
                if playing {
                    match ClientCore::read_metadata(&values) {
                        Some(metadata) => {
                            return Ok(
                                one_action(
                                    raise(ClientSessionEvent::StreamMetadataReceived { metadata }),
                                ),
                            );
                        },
                        None => {},
                    }
                }
                Ok(one_action(Action::Unhandled(payload)))
            },
            RtmpMessage::VideoData { data } => {
                if playing {
                    Ok(
                        one_action(
                            raise(
                                ClientSessionEvent::VideoDataReceived {
                                    data,
                                    timestamp: payload.timestamp,
                                },
                            ),
                        ),
                    )
                } else {
                    Ok(one_action(Action::Unhandled(payload)))
                }
            },
            RtmpMessage::AudioData { data } => {
                if playing {
                    Ok(
                        one_action(
                            raise(
                                ClientSessionEvent::AudioDataReceived {
                                    data,
                                    timestamp: payload.timestamp,
                                },
                            ),
                        ),
                    )
                } else {
                    Ok(one_action(Action::Unhandled(payload)))
                }
            },
            _ => Ok(one_action(Action::Unhandled(payload))),
        }
    }

    /// A message arrived.
    pub fn handle_payload(&mut self, payload: MessagePayload, message: RtmpMessage) -> (r: Result<
        Vec<ClientAction>,
        SessionError,
    >)
        ensures
            outcome_is(final(self)@, r, on_payload(old(self)@, payload@, message@)),
    {
        let count = (payload.data.len() as u64 % 0x1_0000_0000) as u32;
        proof {
            vstd::arithmetic::div_mod::lemma_add_mod_noop(
                self.bytes_received as int,
                payload.data@.len() as int,
                span(),
            );
            vstd::arithmetic::div_mod::lemma_small_mod(self.bytes_received as nat, span() as nat);
        }
        self.bytes_received = self.bytes_received.wrapping_add(count);
        let due = match self.peer_window_ack_size {
            Some(window) => self.bytes_received.wrapping_sub(self.bytes_received_at_last_ack)
                >= window,
            None => false,
        };
        if !due {
            return self.handle_message(payload, message);
        }
        self.bytes_received_at_last_ack = self.bytes_received;
        let acknowledgement = control_action(
            RtmpMessage::Acknowledgement { sequence_number: self.bytes_received },
        );
        let mut actions = one_action(acknowledgement);
        let ghost first = action_models(actions@);
        match self.handle_message(payload, message) {
            Ok(more) => {
                let ghost rest = action_models(more@);
                let mut more = more;
                actions.append(&mut more);
                assert(action_models(actions@) =~= first + rest);
                Ok(actions)
            },
            Err(e) => Err(e),
        }
    }
}

} // verus!
