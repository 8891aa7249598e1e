//! The server's state machine: the rules, carried out.

use crate::amf0::number::{number_from_u32, number_to_u32};
use crate::amf0::{get_text_property, object_model, push_property, values_model};
use crate::amf0::{AmfModel, AmfValue};
use crate::messages::message_payload::MessagePayload;
use crate::messages::{PeerBandwidthLimitType, RtmpMessage, UserControlEventType};
use crate::sessions::metadata::StreamMetadata;
use crate::sessions::server::events::ServerSessionEvents;
use crate::sessions::server::rules::{announcements, bool_argument, command, connection_accepted};
use crate::sessions::server::rules::{fresh_server, hand_on, is_idle, is_played};
use crate::sessions::server::rules::{named_app, on_accept, on_command, on_connect};
use crate::sessions::server::rules::{on_create_stream, on_delete_stream, on_fc_publish};
use crate::sessions::server::rules::{on_message, on_payload, on_ping, on_play, on_publish};
use crate::sessions::server::rules::{on_reject, on_release_stream, play_started, published_key};
use crate::sessions::server::rules::{send, sets_metadata, status, status_object, text_argument};
use crate::sessions::server::rules::{u32_argument, with_request, with_stream, RequestKind};
use crate::sessions::server::rules::{RequestModel, ServerActionModel, ServerModel, ServerOutcome};
use crate::sessions::server::rules::{ServerState, StreamModel, StreamState};
use crate::sessions::metadata::metadata_of;
use crate::sessions::{action_models, Action, OutboundMessage, SessionError, SessionErrorKind};
use crate::text::{owned, str_eq};
use crate::time::{span, RtmpTimestamp};
use std::collections::HashMap;
use vstd::prelude::*;

verus! {

broadcast use vstd::std_specs::hash::group_hash_axioms;

/// What a server session goes by.
#[derive(Debug, Clone, PartialEq)]
pub struct ServerSessionConfig {
    pub fms_version: String,
    /// The chunk size that the server announces and sends with.
    pub chunk_size: u32,
    /// The bandwidth that the server asks the client to keep to.
    pub peer_bandwidth: u32,
    /// The window that the server announces.
    pub window_ack_size: u32,
}

impl ServerSessionConfig {
    /// The settings of a common media server: chunks of 4096 bytes, a
    /// bandwidth of 2,500,000 bytes and a window of 2^30 bytes.
    pub fn new() -> (r: ServerSessionConfig)
        ensures
            r.fms_version@ == "FMS/3,0,1,123"@,
            r.chunk_size == 4096,
            r.peer_bandwidth == 2_500_000,
            r.window_ack_size == 1_073_741_824,
    {
        ServerSessionConfig {
            fms_version: owned("FMS/3,0,1,123"),
            chunk_size: 4096,
            peer_bandwidth: 2_500_000,
            window_ack_size: 1_073_741_824,
        }
    }
}

/// A message stream that the client has created.
pub struct ActiveStream {
    state: StreamState,
    stream_key: String,
}

impl View for ActiveStream {
    type V = StreamModel;

    closed spec fn view(&self) -> StreamModel {
        StreamModel { state: self.state, stream_key: self.stream_key@ }
    }
}

/// A request that waits for the embedding application.
pub struct PendingRequest {
    kind: RequestKind,
    transaction_id: u64,
    app_name: String,
    stream_key: String,
    stream_id: u32,
}

impl View for PendingRequest {
    type V = RequestModel;

    closed spec fn view(&self) -> RequestModel {
        RequestModel {
            kind: self.kind,
            transaction_id: self.transaction_id,
            app_name: self.app_name@,
            stream_key: self.stream_key@,
            stream_id: self.stream_id,
        }
    }
}

/// The models of the message streams held in memory.
pub closed spec fn stream_models(streams: Map<u32, ActiveStream>) -> Map<u32, StreamModel> {
    Map::new(|id: u32| streams.contains_key(id), |id: u32| streams[id]@)
}

/// The models of the requests held in memory.
pub closed spec fn request_models(requests: Map<u32, PendingRequest>) -> Map<u32, RequestModel> {
    Map::new(|id: u32| requests.contains_key(id), |id: u32| requests[id]@)
}

/// A server's actions.
pub type ServerAction = Action<ServerSessionEvents>;

/// The server's state machine.
pub struct ServerCore {
    fms_version: String,
    state: ServerState,
    app_name: String,
    streams: HashMap<u32, ActiveStream>,
    requests: HashMap<u32, PendingRequest>,
    next_request_id: u32,
    next_stream_id: u32,
    peer_window_ack_size: Option<u32>,
    bytes_received: u32,
    bytes_received_at_last_ack: u32,
}

impl View for ServerCore {
    type V = ServerModel;

    closed spec fn view(&self) -> ServerModel {
        ServerModel {
            fms_version: self.fms_version@,
            state: self.state,
            app_name: self.app_name@,
            streams: stream_models(self.streams@),
            requests: request_models(self.requests@),
            next_request_id: self.next_request_id,
            next_stream_id: self.next_stream_id,
            peer_window_ack_size: self.peer_window_ack_size,
            bytes_received: self.bytes_received,
            bytes_received_at_last_ack: self.bytes_received_at_last_ack,
        }
    }
}

/// Whether what the state machine did is what the outcome says.
pub open spec fn outcome_is(
    server: ServerModel,
    r: Result<Vec<ServerAction>, SessionError>,
    expected: ServerOutcome,
) -> bool {
    &&& server == expected.server
    &&& match (r, expected.result) {
        (Ok(actions), Ok(models)) => action_models(actions@) == models,
        (Err(e), Err(kind)) => e.kind == kind,
        _ => false,
    }
}

/// No actions.
fn no_actions() -> (r: Vec<ServerAction>)
    ensures
        action_models(r@) == Seq::<ServerActionModel>::empty(),
{
    let r: Vec<ServerAction> = Vec::new();
    assert(action_models(r@) =~= Seq::<ServerActionModel>::empty());
    r
}

/// One action.
fn one_action(action: ServerAction) -> (r: Vec<ServerAction>)
    ensures
        action_models(r@) == seq![action@],
{
    let mut r: Vec<ServerAction> = Vec::new();
    r.push(action);
    assert(action_models(r@) =~= seq![action@]);
    r
}

/// An event to raise, and nothing else.
fn raise(event: ServerSessionEvents) -> (r: Vec<ServerAction>)
    ensures
        action_models(r@) == seq![ServerActionModel::Raise(event@)],
{
    one_action(Action::Raise(event))
}

/// A message to send at time 0.
fn send_action(message_stream_id: u32, message: RtmpMessage) -> (r: ServerAction)
    ensures
        r@ == send(message_stream_id, message@),
{
    Action::Send(
        OutboundMessage {
            message,
            message_stream_id,
            timestamp: RtmpTimestamp::new(0),
            can_be_dropped: false,
        },
    )
}

/// A command to send at time 0.
fn command_action(
    message_stream_id: u32,
    name: &str,
    transaction_id: u64,
    command_object: AmfValue,
    arguments: Vec<AmfValue>,
) -> (r: ServerAction)
    ensures
        r@ == command(
            message_stream_id,
            name@,
            transaction_id,
            command_object@,
            values_model(arguments@),
        ),
{
    send_action(
        message_stream_id,
        RtmpMessage::Amf0Command {
            command_name: owned(name),
            transaction_id,
            command_object,
            additional_arguments: arguments,
        },
    )
}

/// One value as a list of arguments.
fn one_value(value: AmfValue) -> (r: Vec<AmfValue>)
    ensures
        values_model(r@) == seq![value@],
{
    let mut r: Vec<AmfValue> = Vec::new();
    r.push(value);
    assert(values_model(r@) =~= seq![value@]);
    r
}

/// An object without properties yet.
fn no_properties() -> (r: Vec<(String, AmfValue)>)
    ensures
        object_model(r@) == Map::<Seq<char>, AmfModel>::empty(),
{
    let r: Vec<(String, AmfValue)> = Vec::new();
    assert(object_model(r@) =~= Map::<Seq<char>, AmfModel>::empty());
    r
}

/// The object that reports a status.
fn status_value(level: &str, code: &str, description: String) -> (r: AmfValue)
    ensures
        r@ == status_object(level@, code@, description@),
{
    let mut properties = no_properties();
    push_property(&mut properties, "level", AmfValue::Utf8String(owned(level)));
    push_property(&mut properties, "code", AmfValue::Utf8String(owned(code)));
    push_property(&mut properties, "description", AmfValue::Utf8String(description));
    AmfValue::Object(properties)
}

/// An `onStatus` command on a message stream.
fn status_action(message_stream_id: u32, level: &str, code: &str, description: String) -> (r:
    ServerAction)
    ensures
        r@ == status(message_stream_id, level@, code@, description@),
{
    command_action(
        message_stream_id,
        "onStatus",
        0,
        AmfValue::Null,
        one_value(status_value(level, code, description)),
    )
}

/// The string that is argument `i` of a command, if there is one.
fn get_text_argument(arguments: &Vec<AmfValue>, i: usize) -> (r: Option<String>)
    ensures
        crate::sessions::metadata::text_model(r) == text_argument(
            values_model(arguments@),
            i as int,
        ),
{
    if i < arguments.len() {
        match &arguments[i] {
            AmfValue::Utf8String(text) => Some(text.clone()),
            _ => None,
        }
    } else {
        None
    }
}

/// The number that is argument `i` of a command, as a `u32`.
fn get_u32_argument(arguments: &Vec<AmfValue>, i: usize) -> (r: u32)
    ensures
        r == u32_argument(values_model(arguments@), i as int),
{
    if i < arguments.len() {
        match &arguments[i] {
            AmfValue::Number(bits) => number_to_u32(*bits),
            _ => 0,
        }
    } else {
        0
    }
}

/// The boolean that is argument `i` of a command.
fn get_bool_argument(arguments: &Vec<AmfValue>, i: usize) -> (r: bool)
    ensures
        r == bool_argument(values_model(arguments@), i as int),
{
    if i < arguments.len() {
        match &arguments[i] {
            AmfValue::Boolean(b) => *b,
            _ => false,
        }
    } else {
        false
    }
}

/// The application that a connect command names.
fn get_named_app(command_object: &AmfValue) -> (r: Option<String>)
    ensures
        crate::sessions::metadata::text_model(r) == named_app(command_object@),
{
    match command_object {
        AmfValue::Object(properties) => get_text_property(properties, "app"),
        _ => None,
    }
}

/// What a server announces once it has told its chunk size.
pub fn announce(window_ack_size: u32, peer_bandwidth: u32) -> (r: Vec<ServerAction>)
    ensures
        action_models(r@) == announcements(window_ack_size, peer_bandwidth),
{
    let mut r: Vec<ServerAction> = Vec::new();
    r.push(send_action(0, RtmpMessage::WindowAcknowledgement { size: window_ack_size }));
    r.push(
        send_action(
            0,
            RtmpMessage::SetPeerBandwidth {
                size: peer_bandwidth,
                limit_type: PeerBandwidthLimitType::Dynamic,
            },
        ),
    );
    assert(action_models(r@) =~= announcements(window_ack_size, peer_bandwidth));
    r
}

impl ServerCore {
    /// A server that has done nothing yet.
    pub fn new(config: &ServerSessionConfig) -> (r: ServerCore)
        ensures
            r@ == fresh_server(config.fms_version@),
    {
        let r = ServerCore {
            fms_version: config.fms_version.clone(),
            state: ServerState::Started,
            app_name: String::new(),
            streams: HashMap::new(),
            requests: HashMap::new(),
            next_request_id: 1,
            next_stream_id: 1,
            peer_window_ack_size: None,
            bytes_received: 0,
            bytes_received_at_last_ack: 0,
        };
        assert(stream_models(r.streams@) =~= Map::<u32, StreamModel>::empty());
        assert(request_models(r.requests@) =~= Map::<u32, RequestModel>::empty());
        r
    }

    /// Puts a request under the next request id.
    fn add_request(&mut self, request: PendingRequest) -> (id: u32)
        ensures
            id == old(self)@.next_request_id,
            final(self)@ == with_request(old(self)@, request@),
    {
        let id = self.next_request_id;
        self.next_request_id = if id == u32::MAX {
            1
        } else {
            id + 1
        };
        self.requests.insert(id, request);
        assert(request_models(self.requests@) =~= request_models(old(self).requests@).insert(
            id,
            request@,
        ));
        id
    }

    /// Takes a request out.
    fn take_request(&mut self, request_id: u32) -> (r: Option<PendingRequest>)
        ensures
            match r {
                Some(request) => {
                    &&& old(self)@.requests.contains_key(request_id)
                    &&& request@ == old(self)@.requests[request_id]
                    &&& final(self)@ == (ServerModel {
                        requests: old(self)@.requests.remove(request_id),
                        ..old(self)@
                    })
                },
                None => !old(self)@.requests.contains_key(request_id) && final(self)@ == old(
                    self,
                )@,
            },
    {
        let r = self.requests.remove(&request_id);
        match &r {
            Some(_) => {
                assert(request_models(self.requests@) =~= request_models(
                    old(self).requests@,
                ).remove(request_id));
            },
            None => {
                assert(self.requests@ =~= old(self).requests@);
            },
        }
        r
    }

    /// Puts a message stream to a use.
    fn put_stream(&mut self, stream_id: u32, state: StreamState, stream_key: String)
        ensures
            final(self)@ == with_stream(old(self)@, stream_id, state, stream_key@),
    {
        let stream = ActiveStream { state, stream_key };
        self.streams.insert(stream_id, stream);
        assert(stream_models(self.streams@) =~= stream_models(old(self).streams@).insert(
            stream_id,
            stream@,
        ));
    }

    /// The use that a message stream is put to, if it exists.
    fn stream_state(&self, stream_id: u32) -> (r: Option<StreamState>)
        ensures
            match r {
                Some(state) => self@.streams.contains_key(stream_id) && self@.streams[stream_id].state
                    == state,
                None => !self@.streams.contains_key(stream_id),
            },
    {
        match self.streams.get(&stream_id) {
            Some(stream) => Some(stream.state),
            None => None,
        }
    }

    /// The stream key that is published on a message stream, if one is.
    fn get_published_key(&self, stream_id: u32) -> (r: Option<String>)
        ensures
            crate::sessions::metadata::text_model(r) == published_key(self@, stream_id),
    {
        match self.streams.get(&stream_id) {
            Some(stream) => {
                if stream.state == StreamState::Publishing {
                    Some(stream.stream_key.clone())
                } else {
                    None
                }
            },
            None => None,
        }
    }

    /// Whether a message stream is played.
    pub fn plays(&self, stream_id: u32) -> (r: bool)
        ensures
            r == is_played(self@, stream_id),
    {
        match self.stream_state(stream_id) {
            Some(state) => state == StreamState::Playing,
            None => false,
        }
    }

    /// A command that the server has no answer to is handed on.
    fn hand_command_on(
        &self,
        command_name: String,
        transaction_id: u64,
        command_object: AmfValue,
        arguments: Vec<AmfValue>,
    ) -> (r: Result<Vec<ServerAction>, SessionError>)
        ensures
            outcome_is(
                self@,
                r,
                hand_on(
                    self@,
                    command_name@,
                    transaction_id,
                    command_object@,
                    values_model(arguments@),
                ),
            ),
    {
        Ok(
            raise(
                ServerSessionEvents::UnhandleableAmf0Command {
                    command_name,
                    transaction_id: number_to_u32(transaction_id),
                    command_object,
                    additional_values: arguments,
                },
            ),
        )
    }

    /// A `connect` command arrived.
    fn handle_connect(&mut self, transaction_id: u64, app_name: String) -> (r: Result<
        Vec<ServerAction>,
        SessionError,
    >)
        ensures
            outcome_is(final(self)@, r, on_connect(old(self)@, transaction_id, app_name@)),
    {
        let request_id = self.add_request(
            PendingRequest {
                kind: RequestKind::Connection,
                transaction_id,
                app_name: app_name.clone(),
                stream_key: String::new(),
                stream_id: 0,
            },
        );
        Ok(raise(ServerSessionEvents::ConnectionRequested { request_id, app_name }))
    }

    /// A `createStream` command arrived.
    fn handle_create_stream(&mut self, transaction_id: u64) -> (r: Result<
        Vec<ServerAction>,
        SessionError,
    >)
        ensures
            outcome_is(final(self)@, r, on_create_stream(old(self)@, transaction_id)),
    {
        let stream_id = self.next_stream_id;
        self.next_stream_id = if stream_id == u32::MAX {
            1
        } else {
            stream_id + 1
        };
        self.put_stream(stream_id, StreamState::Created, String::new());
        let reply = command_action(
            0,
            "_result",
            transaction_id,
            AmfValue::Null,
            one_value(AmfValue::Number(number_from_u32(stream_id))),
        );
        Ok(one_action(reply))
    }

    /// A `releaseStream` command arrived.
    fn handle_release_stream(&mut self, transaction_id: u64, stream_key: String) -> (r: Result<
        Vec<ServerAction>,
        SessionError,
    >)
        ensures
            outcome_is(
                final(self)@,
                r,
                on_release_stream(old(self)@, transaction_id, stream_key@),
            ),
    {
        let app_name = self.app_name.clone();
        let request_id = self.add_request(
            PendingRequest {
                kind: RequestKind::ReleaseStream,
                transaction_id,
                app_name: app_name.clone(),
                stream_key: stream_key.clone(),
                stream_id: 0,
            },
        );
        Ok(raise(ServerSessionEvents::ReleaseStreamRequested { request_id, app_name, stream_key }))
    }

    /// An `FCPublish` command arrived.
    fn handle_fc_publish(&self, stream_key: String) -> (r: Result<Vec<ServerAction>, SessionError>)
        ensures
            outcome_is(self@, r, on_fc_publish(self@, stream_key@)),
    {
        let mut properties = no_properties();
        push_property(
            &mut properties,
            "code",
            AmfValue::Utf8String(owned("NetStream.Publish.Start")),
        );
        push_property(&mut properties, "description", AmfValue::Utf8String(stream_key));
        let reply = command_action(
            0,
            "onFCPublish",
            0,
            AmfValue::Null,
            one_value(AmfValue::Object(properties)),
        );
        Ok(one_action(reply))
    }

    /// A `publish` command arrived on an idle message stream.
    fn handle_publish(&mut self, stream_id: u32, transaction_id: u64, stream_key: String) -> (r:
        Result<Vec<ServerAction>, SessionError>)
        ensures
            outcome_is(
                final(self)@,
                r,
                on_publish(old(self)@, stream_id, transaction_id, stream_key@),
            ),
    {
        let app_name = self.app_name.clone();
        let request_id = self.add_request(
            PendingRequest {
                kind: RequestKind::Publish,
                transaction_id,
                app_name: app_name.clone(),
                stream_key: stream_key.clone(),
                stream_id,
            },
        );
        Ok(
            raise(
                ServerSessionEvents::PublishStreamRequested {
                    request_id,
                    app_name,
                    stream_key,
                    stream_id,
                },
            ),
        )
    }

    /// A `play` command arrived on an idle message stream.
    fn handle_play(
        &mut self,
        stream_id: u32,
        transaction_id: u64,
        stream_key: String,
        arguments: &Vec<AmfValue>,
    ) -> (r: Result<Vec<ServerAction>, SessionError>)
        ensures
            outcome_is(
                final(self)@,
                r,
                on_play(
                    old(self)@,
                    stream_id,
                    transaction_id,
                    stream_key@,
                    values_model(arguments@),
                ),
            ),
    {
        let app_name = self.app_name.clone();
        let request_id = self.add_request(
            PendingRequest {
                kind: RequestKind::Play,
                transaction_id,
                app_name: app_name.clone(),
                stream_key: stream_key.clone(),
                stream_id,
            },
        );
        Ok(
            raise(
                ServerSessionEvents::PlayStreamRequested {
                    request_id,
                    app_name,
                    stream_key,
                    start_at: get_u32_argument(arguments, 1),
                    duration: get_u32_argument(arguments, 2),
                    reset: get_bool_argument(arguments, 3),
                    stream_id,
                },
            ),
        )
    }

    /// A `deleteStream` command arrived.
    fn handle_delete_stream(&mut self, stream_id: u32) -> (r: Result<
        Vec<ServerAction>,
        SessionError,
    >)
        ensures
            outcome_is(final(self)@, r, on_delete_stream(old(self)@, stream_id)),
    {
        match self.streams.remove(&stream_id) {
            None => {
                assert(self.streams@ =~= old(self).streams@);
                Ok(no_actions())
            },
            Some(stream) => {
                assert(stream_models(self.streams@) =~= stream_models(old(self).streams@).remove(
                    stream_id,
                ));
                assert(old(self)@.streams[stream_id] == stream@);
                let app_name = self.app_name.clone();
                match stream.state {
                    StreamState::Publishing => Ok(
                        raise(
                            ServerSessionEvents::PublishStreamFinished {
                                app_name,
                                stream_key: stream.stream_key,
                            },
                        ),
                    ),
                    StreamState::Playing => Ok(
                        raise(
                            ServerSessionEvents::PlayStreamFinished {
                                app_name,
                                stream_key: stream.stream_key,
                            },
                        ),
                    ),
                    StreamState::Created => Ok(no_actions()),
                }
            },
        }
    }

    /// Whether a message stream exists and is not in use.
    fn idle(&self, stream_id: u32) -> (r: bool)
        ensures
            r == is_idle(self@, stream_id),
    {
        match self.stream_state(stream_id) {
            Some(state) => state == StreamState::Created,
            None => false,
        }
    }

    /// A command arrived on message stream `stream_id`.
    fn handle_command(
        &mut self,
        stream_id: u32,
        command_name: String,
        transaction_id: u64,
        command_object: AmfValue,
        arguments: Vec<AmfValue>,
    ) -> (r: Result<Vec<ServerAction>, SessionError>)
        ensures
            outcome_is(
                final(self)@,
                r,
                on_command(
                    old(self)@,
                    stream_id,
                    command_name@,
                    transaction_id,
                    command_object@,
                    values_model(arguments@),
                ),
            ),
    {
        let connected = self.state == ServerState::Connected;
        let name = command_name.as_str();
        if str_eq(name, "connect") && !connected {
            match get_named_app(&command_object) {
                Some(app_name) => {
                    return self.handle_connect(transaction_id, app_name);
                },
                None => {},
            }
        }
        if str_eq(name, "createStream") && connected {
            return self.handle_create_stream(transaction_id);
        }
        let key = get_text_argument(&arguments, 0);
        if str_eq(name, "releaseStream") && connected {
            match &key {
                Some(stream_key) => {
                    return self.handle_release_stream(transaction_id, stream_key.clone());
                },
                None => {},
            }
        }
        if str_eq(name, "FCPublish") && connected {
            match &key {
                Some(stream_key) => {
                    return self.handle_fc_publish(stream_key.clone());
                },
                None => {},
            }
        }
        if str_eq(name, "publish") && connected && self.idle(stream_id) {
            match &key {
                Some(stream_key) => {
                    return self.handle_publish(stream_id, transaction_id, stream_key.clone());
                },
                None => {},
            }
        }
        if str_eq(name, "play") && connected && self.idle(stream_id) {
            match &key {
                Some(stream_key) => {
                    return self.handle_play(
                        stream_id,
                        transaction_id,
                        stream_key.clone(),
                        &arguments,
                    );
                },
                None => {},
            }
        }
        if str_eq(name, "deleteStream") && connected && arguments.len() >= 1 {
            match &arguments[0] {
                AmfValue::Number(bits) => {
                    assert(values_model(arguments@)[0] == AmfModel::Number(*bits));
                    let ended = number_to_u32(*bits);
                    return self.handle_delete_stream(ended);
                },
                _ => {
                    assert(!(values_model(arguments@)[0] is Number));
                },
            }
        }
        self.hand_command_on(command_name, transaction_id, command_object, arguments)
    }

    /// Reads the metadata that data values set, if they do.
    fn read_metadata(values: &Vec<AmfValue>) -> (r: Option<StreamMetadata>)
        ensures
            match r {
                Some(metadata) => sets_metadata(values_model(values@)) && metadata@ == metadata_of(
                    values_model(values@)[2]->Object_0,
                ),
                None => !sets_metadata(values_model(values@)),
            },
    {
        if values.len() < 3 {
            return None;
        }
        match &values[0] {
            AmfValue::Utf8String(name) => {
                assert(values_model(values@)[0] == AmfModel::Utf8String(name@));
                if !str_eq(name.as_str(), "@setDataFrame") {
                    return None;
                }
            },
            _ => {
                assert(!(values_model(values@)[0] is Utf8String));
                return None;
            },
        }
        match &values[1] {
            AmfValue::Utf8String(name) => {
                assert(values_model(values@)[1] == AmfModel::Utf8String(name@));
                if !str_eq(name.as_str(), "onMetaData") {
                    return None;
                }
            },
            _ => {
                assert(!(values_model(values@)[1] is Utf8String));
                return None;
            },
        }
        match &values[2] {
            AmfValue::Object(properties) => {
                assert(values_model(values@)[2] == AmfModel::Object(object_model(properties@)));
                Some(StreamMetadata::from_properties(properties))
            },
            _ => {
                assert(!(values_model(values@)[2] is Object));
                None
            },
        }
    }

    /// A message arrived, apart from the count of its bytes.
    fn handle_message(&mut self, payload: MessagePayload, message: RtmpMessage) -> (r: Result<
        Vec<ServerAction>,
        SessionError,
    >)
        ensures
            outcome_is(final(self)@, r, on_message(old(self)@, payload@, message@)),
    {
        let key = self.get_published_key(payload.message_stream_id);
        match message {
            RtmpMessage::SetChunkSize { size } => Ok(
                raise(ServerSessionEvents::ClientChunkSizeChanged { new_chunk_size: size }),
            ),
            RtmpMessage::WindowAcknowledgement { size } => {
                self.peer_window_ack_size = Some(size);
                Ok(no_actions())
            },
            RtmpMessage::Acknowledgement { sequence_number } => Ok(
                raise(
                    ServerSessionEvents::AcknowledgementReceived { bytes_received: sequence_number },
                ),
            ),
            RtmpMessage::UserControl { event_type, timestamp, .. } => {
                match (event_type, timestamp) {
                    (UserControlEventType::PingResponse, Some(time)) => Ok(
                        raise(ServerSessionEvents::PingResponseReceived { timestamp: time }),
                    ),
                    _ => Ok(one_action(Action::Unhandled(payload))),
                }
            },
            RtmpMessage::Amf0Command {
                command_name,
                transaction_id,
                command_object,
                additional_arguments,
            } => self.handle_command(
                payload.message_stream_id,
                command_name,
                transaction_id,
                command_object,
                additional_arguments,
            ),
            RtmpMessage::Amf0Data { values } => {
                match key {
                    Some(stream_key) => {
                        match ServerCore::read_metadata(&values) {
                            Some(metadata) => {
                                return Ok(
                                    raise(
                                        ServerSessionEvents::StreamMetadataChanged {
                                            app_name: self.app_name.clone(),
                                            stream_key,
                                            metadata,
                                        },
                                    ),
                                );
                            },
                            None => {},
                        }
                    },
                    None => {},
                }
                Ok(one_action(Action::Unhandled(payload)))
            },
            RtmpMessage::AudioData { data } => {
                match key {
                    Some(stream_key) => Ok(
                        raise(
                            ServerSessionEvents::AudioDataReceived {
                                app_name: self.app_name.clone(),
                                stream_key,
                                data,
                                timestamp: payload.timestamp,
                            },
                        ),
                    ),
                    None => Ok(one_action(Action::Unhandled(payload))),
                }
            },
            RtmpMessage::VideoData { data } => {
                match key {
                    Some(stream_key) => Ok(
                        raise(
                            ServerSessionEvents::VideoDataReceived {
                                app_name: self.app_name.clone(),
                                stream_key,
                                data,
                                timestamp: payload.timestamp,
                            },
                        ),
                    ),
                    None => Ok(one_action(Action::Unhandled(payload))),
                }
            },
            _ => Ok(one_action(Action::Unhandled(payload))),
        }
    }

    /// A message arrived.
    pub fn handle_payload(&mut self, payload: MessagePayload, message: RtmpMessage) -> (r: Result<
        Vec<ServerAction>,
        SessionError,
    >)
        ensures
            outcome_is(final(self)@, r, on_payload(old(self)@, payload@, message@)),
    {
        let count = (payload.data.len() as u64 % 0x1_0000_0000) as u32;
        proof {
            vstd::arithmetic::div_mod::lemma_add_mod_noop(
                self.bytes_received as int,
                payload.data@.len() as int,
                span(),
            );
            vstd::arithmetic::div_mod::lemma_small_mod(self.bytes_received as nat, span() as nat);
        }
        self.bytes_received = self.bytes_received.wrapping_add(count);
        let due = match self.peer_window_ack_size {
            Some(window) => self.bytes_received.wrapping_sub(self.bytes_received_at_last_ack)
                >= window,
            None => false,
        };
        if !due {
            return self.handle_message(payload, message);
        }
        self.bytes_received_at_last_ack = self.bytes_received;
        let acknowledgement = send_action(
            0,
            RtmpMessage::Acknowledgement { sequence_number: self.bytes_received },
        );
        let mut actions = one_action(acknowledgement);
        let ghost first = action_models(actions@);
        match self.handle_message(payload, message) {
            Ok(more) => {
                let ghost rest = action_models(more@);
                let mut more = more;
                actions.append(&mut more);
                assert(action_models(actions@) =~= first + rest);
                Ok(actions)
            },
            Err(e) => Err(e),
        }
    }

    /// The `_result` that accepts a connection.
    fn accept_connection(&self, transaction_id: u64) -> (r: ServerAction)
        ensures
            r@ == connection_accepted(self@, transaction_id),
    {
        let mut about = no_properties();
        push_property(&mut about, "fmsVer", AmfValue::Utf8String(self.fms_version.clone()));
        push_property(&mut about, "capabilities", AmfValue::Number(number_from_u32(31)));
        let mut report = no_properties();
        push_property(&mut report, "level", AmfValue::Utf8String(owned("status")));
        push_property(
            &mut report,
            "code",
            AmfValue::Utf8String(owned("NetConnection.Connect.Success")),
        );
        push_property(
            &mut report,
            "description",
            AmfValue::Utf8String(owned("Successfully connected")),
        );
        push_property(&mut report, "objectEncoding", AmfValue::Number(0));
        command_action(
            0,
            "_result",
            transaction_id,
            AmfValue::Object(about),
            one_value(AmfValue::Object(report)),
        )
    }

    /// What the client is sent when it may play.
    fn start_play(stream_id: u32, stream_key: &String) -> (r: Vec<ServerAction>)
        ensures
            action_models(r@) == play_started(stream_id, stream_key@),
    {
        let mut r: Vec<ServerAction> = Vec::new();
        r.push(
            send_action(
                0,
                RtmpMessage::UserControl {
                    event_type: UserControlEventType::StreamBegin,
                    stream_id: Some(stream_id),
                    buffer_length: None,
                    timestamp: None,
                },
            ),
        );
        r.push(status_action(stream_id, "status", "NetStream.Play.Reset", stream_key.clone()));
        r.push(status_action(stream_id, "status", "NetStream.Play.Start", stream_key.clone()));
        let mut access: Vec<AmfValue> = Vec::new();
        access.push(AmfValue::Utf8String(owned("|RtmpSampleAccess")));
        access.push(AmfValue::Boolean(false));
        access.push(AmfValue::Boolean(false));
        assert(values_model(access@) =~= seq![access@[0]@, access@[1]@, access@[2]@]);
        r.push(send_action(stream_id, RtmpMessage::Amf0Data { values: access }));
        r.push(status_action(stream_id, "status", "NetStream.Data.Start", stream_key.clone()));
        assert(action_models(r@) =~= play_started(stream_id, stream_key@));
        r
    }

    /// The embedding application accepts a request.
    pub fn accept_request(&mut self, request_id: u32) -> (r: Result<
        Vec<ServerAction>,
        SessionError,
    >)
        ensures
            outcome_is(final(self)@, r, on_accept(old(self)@, request_id)),
    {
        let request = match self.take_request(request_id) {
            Some(request) => request,
            None => {
                return Err(SessionError { kind: SessionErrorKind::UnknownRequestId });
            },
        };
        match request.kind {
            RequestKind::Connection => {
                let reply = self.accept_connection(request.transaction_id);
                self.state = ServerState::Connected;
                self.app_name = request.app_name;
                Ok(one_action(reply))
            },
            RequestKind::ReleaseStream => Ok(no_actions()),
            RequestKind::Publish => {
                let reply = status_action(
                    request.stream_id,
                    "status",
                    "NetStream.Publish.Start",
                    request.stream_key.clone(),
                );
                self.put_stream(request.stream_id, StreamState::Publishing, request.stream_key);
                Ok(one_action(reply))
            },
            RequestKind::Play => {
                let replies = ServerCore::start_play(request.stream_id, &request.stream_key);
                self.put_stream(request.stream_id, StreamState::Playing, request.stream_key);
                Ok(replies)
            },
        }
    }

    /// The embedding application rejects a request.
    pub fn reject_request(&mut self, request_id: u32, description: String) -> (r: Result<
        Vec<ServerAction>,
        SessionError,
    >)
        ensures
            outcome_is(final(self)@, r, on_reject(old(self)@, request_id, description@)),
    {
        let request = match self.take_request(request_id) {
            Some(request) => request,
            None => {
                return Err(SessionError { kind: SessionErrorKind::UnknownRequestId });
            },
        };
        match request.kind {
            RequestKind::Connection => {
                let report = status_value("error", "NetConnection.Connect.Failed", description);
                Ok(
                    one_action(
                        command_action(
                            0,
                            "_error",
                            request.transaction_id,
                            AmfValue::Null,
                            one_value(report),
                        ),
                    ),
                )
            },
            RequestKind::ReleaseStream => Ok(no_actions()),
            RequestKind::Publish => Ok(
                one_action(
                    status_action(
                        request.stream_id,
                        "error",
                        "NetStream.Publish.Failed",
                        description,
                    ),
                ),
            ),
            RequestKind::Play => Ok(
                one_action(
                    status_action(request.stream_id, "error", "NetStream.Play.Failed", description),
                ),
            ),
        }
    }

    /// A ping is sent.
    pub fn ping(&self, timestamp: RtmpTimestamp) -> (r: Result<Vec<ServerAction>, SessionError>)
        ensures
            outcome_is(self@, r, on_ping(self@, timestamp)),
    {
        let mut r: Vec<ServerAction> = Vec::new();
        r.push(
            send_action(
                0,
                RtmpMessage::UserControl {
                    event_type: UserControlEventType::PingRequest,
                    stream_id: None,
                    buffer_length: None,
                    timestamp: Some(timestamp),
                },
            ),
        );
        r.push(Action::Raise(ServerSessionEvents::PingRequestSent { timestamp }));
        assert(action_models(r@) =~= on_ping(self@, timestamp).result->Ok_0);
        Ok(r)
    }
}

} // verus!
