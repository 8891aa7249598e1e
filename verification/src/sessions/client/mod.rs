//! The client session: the client's state machine between a deserializer
//! for what arrives and a serializer for what is sent.

use crate::chunk_io::deserializer::{read_agrees, run};
use crate::chunk_io::format::{message_bytes, MAX_CHUNK_SIZE, MAX_MESSAGE_LEN};
use crate::chunk_io::laws::lemma_run_consumes;
use crate::chunk_io::serializer::chunk_size_header;
use crate::chunk_io::ChunkDeserializer;
use crate::chunk_io::{ChunkSerializationErrorKind, ChunkSerializer};
use crate::messages::message_payload::message_of;
use crate::messages::{MessageModel, RtmpMessage};
use crate::sessions::metadata::StreamMetadata;
use crate::sessions::{action_models, adopt_chunk_size, delivered};
use crate::sessions::{deliver, fresh_receiver, lemma_single_action, outcome_models};
use crate::sessions::{receiver_of, result_models};
use crate::sessions::{sender_of, Action, ActionModel, OutboundMessage};
use crate::sessions::OutboundModel;
use crate::sessions::{ReceiverModel, ResultModel, SenderModel, SessionError, SessionErrorKind};
use crate::sessions::SessionResult;
use crate::amf0::AmfValue;
use crate::text::owned;
use crate::time::RtmpTimestamp;
use crate::wire::be32_bytes;
use vstd::prelude::*;

pub mod events;
pub mod rules;
pub mod state;

pub use events::ClientSessionEvent;
pub use rules::{ClientState, PublishRequestType};
pub use state::ClientSessionConfig;

use events::ClientEventModel;
use rules::{metadata_message, on_payload, on_publish, on_request_connection, on_request_stream};
use rules::{publishing_stream, ClientActionModel, ClientModel, ClientOutcome};
use state::{fresh_client, ClientAction, ClientCore};

verus! {

/// What a client session hands to the embedding application.
pub type ClientSessionResult = SessionResult<ClientSessionEvent>;

/// Why a client session refused a call or gave up on its input.
pub type ClientSessionError = SessionError;

/// The kinds of `ClientSessionError`.
pub type ClientSessionErrorKind = SessionErrorKind;

/// A client session as the contracts speak of it.
pub struct ClientSessionModel {
    pub client: ClientModel,
    pub sender: SenderModel,
    pub receiver: ReceiverModel,
    /// The error at which the session gave up on its input, if it has.
    pub failed: Option<SessionErrorKind>,
}

/// What came of the bytes received: how they leave the client and the
/// receiver, what they ask for, and at which error reading stopped, if at any.
pub struct Received {
    pub client: ClientModel,
    pub receiver: ReceiverModel,
    pub actions: Seq<ClientActionModel>,
    pub failure: Option<SessionErrorKind>,
}

/// Takes `input` in and handles the messages that it completes, one after
/// another, until no whole message is left or one fails. `so_far` is what the
/// messages before asked for.
///
/// A message is read from its payload; a set chunk size message changes the
/// chunk size that is read with from then on; and the state machine says
/// what the message asks for.
pub open spec fn receive_from(
    client: ClientModel,
    receiver: ReceiverModel,
    input: Seq<u8>,
    so_far: Seq<ClientActionModel>,
) -> Received
    decreases receiver.pending.len() + input.len(),
{
    let read = run(receiver.max, receiver.streams, receiver.pending + input);
    let next = ReceiverModel { streams: read.streams, pending: read.rest, max: receiver.max };
    let stopped = |kind: SessionErrorKind|
        Received { client, receiver: next, actions: so_far, failure: Some(kind) };
    match read.result {
        Err(kind) => stopped(SessionErrorKind::ChunkDeserialization(kind)),
        Ok(None) => Received { client, receiver: next, actions: so_far, failure: None },
        Ok(Some(payload)) => match message_of(payload.type_id, payload.data) {
            Err(kind) => stopped(SessionErrorKind::MessageDeserialization(kind)),
            Ok(message) => match adopt_chunk_size(next, message) {
                Err(kind) => stopped(kind),
                Ok(adopted) => {
                    let outcome = on_payload(client, payload, message);
                    match outcome.result {
                        Err(kind) => Received {
                            client: outcome.client,
                            receiver: adopted,
                            actions: so_far,
                            failure: Some(kind),
                        },
                        Ok(actions) => if read.rest.len() < receiver.pending.len() + input.len() {
                            receive_from(outcome.client, adopted, Seq::empty(), so_far + actions)
                        } else {
                            Received {
                                client: outcome.client,
                                receiver: adopted,
                                actions: so_far + actions,
                                failure: None,
                            }
                        },
                    }
                },
            },
        },
    }
}

/// The error that makes a session give up on its input for good: bytes or a
/// message that cannot be read.
pub open spec fn gives_up(failure: Option<SessionErrorKind>) -> Option<SessionErrorKind> {
    match failure {
        Some(kind) => if kind is ChunkDeserialization || kind is MessageDeserialization {
            Some(kind)
        } else {
            None
        },
        None => None,
    }
}

/// Takes `input` in and handles the messages that it completes.
pub open spec fn receive(client: ClientModel, receiver: ReceiverModel, input: Seq<u8>)
    -> Received {
    receive_from(client, receiver, input, Seq::empty())
}

/// Whether a call left the session as its outcome says, and gave the results
/// that the outcome asks for.
///
/// A call that the state machine refuses changes nothing. A call that it
/// accepts changes the client as the outcome says, and what it asks for is
/// brought forth, all of it or nothing: the call fails exactly where one of
/// the messages to send has no body or too long a one, and then nothing was
/// sent at all.
pub open spec fn called(
    before: ClientSessionModel,
    after: ClientSessionModel,
    r: Result<Vec<ClientSessionResult>, SessionError>,
    expected: ClientOutcome,
) -> bool {
    &&& after.receiver == before.receiver
    &&& after.sender.max == before.sender.max
    &&& after.failed == before.failed
    &&& match expected.result {
        Err(kind) => r matches Err(e) && e.kind == kind && after == before,
        Ok(actions) => {
            &&& after.client == expected.client
            &&& delivered(before.sender, after.sender, actions, outcome_models(r))
        },
    }
}

/// The message that a publishing client sends media or metadata as.
pub open spec fn published(
    client: ClientModel,
    message: MessageModel,
    timestamp: u32,
    can_be_dropped: bool,
) -> OutboundModel {
    OutboundModel {
        message,
        message_stream_id: match publishing_stream(client) {
            Some(id) => id,
            None => 0,
        },
        timestamp,
        can_be_dropped,
    }
}

/// A client session.
pub struct ClientSession {
    core: ClientCore,
    serializer: ChunkSerializer,
    deserializer: ChunkDeserializer,
    failed: Option<SessionErrorKind>,
}

impl View for ClientSession {
    type V = ClientSessionModel;

    closed spec fn view(&self) -> ClientSessionModel {
        ClientSessionModel {
            client: self.core@,
            sender: sender_of(&self.serializer),
            receiver: receiver_of(&self.deserializer),
            failed: self.failed,
        }
    }
}

impl ClientSession {
    /// The serializer and the deserializer are as they must be.
    pub closed spec fn wf(&self) -> bool {
        self.serializer.wf() && self.deserializer.wf()
    }

    /// A session for a client that is not connected, and the packet that
    /// tells the server the chunk size that the client sends with.
    ///
    /// Fails exactly where the chunk size of the configuration is 0 or has
    /// more than 31 bits.
    pub fn new(config: ClientSessionConfig) -> (r: Result<
        (ClientSession, Vec<ClientSessionResult>),
        ClientSessionError,
    >)
        ensures
            match r {
                Ok((session, results)) => {
                    &&& 1 <= config.chunk_size <= MAX_CHUNK_SIZE
                    &&& session.wf()
                    &&& session@.client == fresh_client(config)
                    &&& session@.receiver == fresh_receiver()
                    &&& session@.failed is None
                    &&& session@.sender == (SenderModel {
                        headers: Map::<u32, crate::chunk_io::format::ChunkHeader>::empty().insert(
                            2,
                            chunk_size_header(),
                        ),
                        max: config.chunk_size as nat,
                    })
                    &&& result_models(results@) == seq![
                        ResultModel::<ClientEventModel>::OutboundResponse {
                            bytes: message_bytes(
                                2,
                                0,
                                chunk_size_header(),
                                be32_bytes(config.chunk_size as int),
                                128,
                            ),
                            can_be_dropped: false,
                        },
                    ]
                },
                Err(e) => {
                    &&& config.chunk_size == 0 || config.chunk_size > MAX_CHUNK_SIZE
                    &&& e.kind == SessionErrorKind::ChunkSerialization(
                        ChunkSerializationErrorKind::InvalidChunkSize,
                    )
                },
            },
    {
        let mut serializer = ChunkSerializer::new();
        let deserializer = ChunkDeserializer::new();
        let packet = match serializer.set_max_chunk_size(config.chunk_size, true) {
            Ok(Some(packet)) => packet,
            Ok(None) => {
                assert(false);
                return Err(
                    SessionError {
                        kind: SessionErrorKind::ChunkSerialization(
                            ChunkSerializationErrorKind::InvalidChunkSize,
                        ),
                    },
                );
            },
            Err(e) => {
                return Err(SessionError { kind: SessionErrorKind::ChunkSerialization(e.kind) });
            },
        };
        let core = ClientCore::new(&config);
        let mut results: Vec<ClientSessionResult> = Vec::new();
        results.push(SessionResult::OutboundResponse(packet));
        assert(result_models(results@) =~= seq![results@[0]@]);
        Ok((ClientSession { core, serializer, deserializer, failed: None }, results))
    }

    /// Brings forth what the state machine asked for.
    fn answer(&mut self, outcome: Result<Vec<ClientAction>, SessionError>) -> (r: Result<
        Vec<ClientSessionResult>,
        ClientSessionError,
    >)
        requires
            old(self).wf(),
        ensures
            final(self).wf(),
            final(self)@.client == old(self)@.client,
            final(self)@.receiver == old(self)@.receiver,
            final(self)@.sender.max == old(self)@.sender.max,
            final(self)@.failed == old(self)@.failed,
            match outcome {
                Err(e) => r == Err::<Vec<ClientSessionResult>, SessionError>(e) && final(self)@
                    == old(self)@,
                Ok(actions) => delivered(
                    old(self)@.sender,
                    final(self)@.sender,
                    action_models(actions@),
                    outcome_models(r),
                ),
            },
    {
        match outcome {
            Ok(actions) => deliver(&mut self.serializer, actions),
            Err(e) => Err(e),
        }
    }

    /// Asks the server for a connection to the application `app_name`.
    ///
    /// Only a client that is disconnected can do so: any other is refused with
    /// `CantConnectWhileAlreadyConnected`. The result is the packet of a
    /// `connect` command under a new transaction id, with a command object
    /// that names the application, the Flash version and AMF0 as the encoding.
    pub fn request_connection(&mut self, app_name: String) -> (r: Result<
        Vec<ClientSessionResult>,
        ClientSessionError,
    >)
        requires
            old(self).wf(),
        ensures
            final(self).wf(),
            called(
                old(self)@,
                final(self)@,
                r,
                on_request_connection(old(self)@.client, app_name@),
            ),
    {
        let outcome = self.core.request_connection(app_name);
        self.answer(outcome)
    }

    /// Asks the server to play the stream `stream_key`.
    ///
    /// Only a client that is connected and has no stream can do so: any other
    /// is refused with `ActionNotAllowedInCurrentState`. The result is the
    /// packet of a `createStream` command under a new transaction id.
    pub fn request_playback(&mut self, stream_key: String) -> (r: Result<
        Vec<ClientSessionResult>,
        ClientSessionError,
    >)
        requires
            old(self).wf(),
        ensures
            final(self).wf(),
            called(
                old(self)@,
                final(self)@,
                r,
                on_request_stream(
                    old(self)@.client,
                    stream_key@,
                    ClientState::PlaybackRequested,
                    old(self)@.client.publish_type,
                ),
            ),
    {
        let outcome = self.core.request_playback(stream_key);
        self.answer(outcome)
    }

    /// Asks the server for leave to publish the stream `stream_key`.
    ///
    /// Only a client that is connected and has no stream can do so: any other
    /// is refused with `ActionNotAllowedInCurrentState`. The result is the
    /// packet of a `createStream` command under a new transaction id.
    pub fn request_publishing(&mut self, stream_key: String, publish_type: PublishRequestType) -> (r:
        Result<Vec<ClientSessionResult>, ClientSessionError>)
        requires
            old(self).wf(),
        ensures
            final(self).wf(),
            called(
                old(self)@,
                final(self)@,
                r,
                on_request_stream(
                    old(self)@.client,
                    stream_key@,
                    ClientState::PublishRequested,
                    publish_type,
                ),
            ),
    {
        let outcome = self.core.request_publishing(stream_key, publish_type);
        self.answer(outcome)
    }

    /// Sends a message on the stream that is published.
    fn publish(&mut self, message: RtmpMessage, timestamp: RtmpTimestamp, can_be_dropped: bool) -> (r:
        Result<Vec<ClientSessionResult>, ClientSessionError>)
        requires
            old(self).wf(),
        ensures
            final(self).wf(),
            called(
                old(self)@,
                final(self)@,
                r,
                on_publish(
                    old(self)@.client,
                    published(old(self)@.client, message@, timestamp.value, can_be_dropped),
                ),
            ),
    {
        let outcome = match self.core.publishing_stream_id() {
            Some(message_stream_id) => {
                let mut actions: Vec<ClientAction> = Vec::new();
                actions.push(
                    Action::Send(
                        OutboundMessage { message, message_stream_id, timestamp, can_be_dropped },
                    ),
                );
                assert(action_models(actions@) =~= seq![actions@[0]@]);
                Ok(actions)
            },
            None => Err(SessionError { kind: SessionErrorKind::ActionNotAllowedInCurrentState }),
        };
        self.answer(outcome)
    }

    /// Announces the properties of the stream that is published.
    ///
    /// Only a client that is publishing can do so: any other is refused with
    /// `ActionNotAllowedInCurrentState`. The result is the packet of a data
    /// message that holds `@setDataFrame`, `onMetaData` and the properties.
    pub fn publish_metadata(&mut self, metadata: &StreamMetadata) -> (r: Result<
        Vec<ClientSessionResult>,
        ClientSessionError,
    >)
        requires
            old(self).wf(),
        ensures
            final(self).wf(),
            called(
                old(self)@,
                final(self)@,
                r,
                on_publish(
                    old(self)@.client,
                    published(old(self)@.client, metadata_message(metadata@), 0, false),
                ),
            ),
    {
        let mut values: Vec<AmfValue> = Vec::new();
        values.push(AmfValue::Utf8String(owned("@setDataFrame")));
        values.push(AmfValue::Utf8String(owned("onMetaData")));
        values.push(AmfValue::Object(metadata.to_properties()));
        assert(crate::amf0::values_model(values@) =~= seq![
            values@[0]@,
            values@[1]@,
            values@[2]@,
        ]);
        self.publish(RtmpMessage::Amf0Data { values }, RtmpTimestamp::new(0), false)
    }

    /// Sends audio data of the stream that is published.
    ///
    /// Only a client that is publishing can do so: any other is refused with
    /// `ActionNotAllowedInCurrentState`. Data of up to 16,777,215 bytes is
    /// always sent; longer data is refused and changes nothing.
    pub fn publish_audio_data(
        &mut self,
        data: Vec<u8>,
        timestamp: RtmpTimestamp,
        can_be_dropped: bool,
    ) -> (r: Result<Vec<ClientSessionResult>, ClientSessionError>)
        requires
            old(self).wf(),
        ensures
            final(self).wf(),
            called(
                old(self)@,
                final(self)@,
                r,
                on_publish(
                    old(self)@.client,
                    published(
                        old(self)@.client,
                        MessageModel::AudioData { data: data@ },
                        timestamp.value,
                        can_be_dropped,
                    ),
                ),
            ),
            data@.len() <= MAX_MESSAGE_LEN && publishing_stream(old(self)@.client) is Some ==> r
                is Ok,
    {
        proof {
            lemma_single_action(
                ActionModel::<ClientEventModel>::Send(
                    published(
                        self@.client,
                        MessageModel::AudioData { data: data@ },
                        timestamp.value,
                        can_be_dropped,
                    ),
                ),
            );
        }
        self.publish(RtmpMessage::AudioData { data }, timestamp, can_be_dropped)
    }

    /// Sends video data of the stream that is published.
    ///
    /// Only a client that is publishing can do so: any other is refused with
    /// `ActionNotAllowedInCurrentState`. Data of up to 16,777,215 bytes is
    /// always sent; longer data is refused and changes nothing.
    pub fn publish_video_data(
        &mut self,
        data: Vec<u8>,
        timestamp: RtmpTimestamp,
        can_be_dropped: bool,
    ) -> (r: Result<Vec<ClientSessionResult>, ClientSessionError>)
        requires
            old(self).wf(),
        ensures
            final(self).wf(),
            called(
                old(self)@,
                final(self)@,
                r,
                on_publish(
                    old(self)@.client,
                    published(
                        old(self)@.client,
                        MessageModel::VideoData { data: data@ },
                        timestamp.value,
                        can_be_dropped,
                    ),
                ),
            ),
            data@.len() <= MAX_MESSAGE_LEN && publishing_stream(old(self)@.client) is Some ==> r
                is Ok,
    {
        proof {
            lemma_single_action(
                ActionModel::<ClientEventModel>::Send(
                    published(
                        self@.client,
                        MessageModel::VideoData { data: data@ },
                        timestamp.value,
                        can_be_dropped,
                    ),
                ),
            );
        }
        self.publish(RtmpMessage::VideoData { data }, timestamp, can_be_dropped)
    }

    /// Takes in bytes from the server, handles each message that they
    /// complete, and brings forth what the messages ask for, in order.
    ///
    /// Fails where the bytes are not a chunk stream, where a message cannot be
    /// read, where a set chunk size message names the size 0, or where a
    /// response names a transaction that the client did not start: then the
    /// session has read up to the failure, and has sent nothing. After bytes
    /// or a message that could not be read the session takes no more input:
    /// every later call fails with the same error and changes nothing.
    ///
    /// Where reading does not fail, what the messages ask for is brought
    /// forth, all of it or nothing: the call fails exactly where one of the
    /// messages to send has no body or too long a one, with the error of the
    /// first such message, and then nothing was sent.
    pub fn handle_input(&mut self, bytes: &[u8]) -> (r: Result<
        Vec<ClientSessionResult>,
        ClientSessionError,
    >)
        requires
            old(self).wf(),
        ensures
            final(self).wf(),
            final(self)@.sender.max == old(self)@.sender.max,
            old(self)@.failed is Some ==> {
                &&& r is Err
                &&& r->Err_0.kind == old(self)@.failed->Some_0
                &&& final(self)@ == old(self)@
            },
            old(self)@.failed is None ==> ({
                let received = receive(old(self)@.client, old(self)@.receiver, bytes@);
                &&& final(self)@.client == received.client
                &&& final(self)@.receiver == received.receiver
                &&& final(self)@.failed == gives_up(received.failure)
                &&& match received.failure {
                    Some(kind) => r matches Err(e) && e.kind == kind && final(self)@.sender
                        == old(self)@.sender,
                    None => delivered(
                        old(self)@.sender,
                        final(self)@.sender,
                        received.actions,
                        outcome_models(r),
                    ),
                }
            }),
    {
        match self.failed {
            Some(kind) => {
                return Err(SessionError { kind });
            },
            None => {},
        }
        let ghost goal = receive(self@.client, self@.receiver, bytes@);
        let ghost mut before = self@.receiver;
        let ghost mut fed = bytes@;
        let mut actions: Vec<ClientAction> = Vec::new();
        assert(action_models(actions@) =~= Seq::<ClientActionModel>::empty());
        let mut next = self.deserializer.get_next_message(bytes);
        loop
            invariant
                self.serializer.wf(),
                self.deserializer.wf(),
                self.failed is None,
                old(self).failed is None,
                sender_of(&self.serializer) == sender_of(&old(self).serializer),
                goal == receive(old(self)@.client, old(self)@.receiver, bytes@),
                goal == receive_from(self.core@, before, fed, action_models(actions@)),
                ({
                    let read = run(before.max, before.streams, before.pending + fed);
                    &&& receiver_of(&self.deserializer) == (ReceiverModel {
                        streams: read.streams,
                        pending: read.rest,
                        max: before.max,
                    })
                    &&& read_agrees(next, read.result)
                }),
            decreases before.pending.len() + fed.len(),
        {
            let ghost read = run(before.max, before.streams, before.pending + fed);
            proof {
                lemma_run_consumes(before.max, before.streams, before.pending + fed);
            }
            let payload = match next {
                Err(e) => {
                    let kind = SessionErrorKind::ChunkDeserialization(e.kind);
                    self.failed = Some(kind);
                    return Err(SessionError { kind });
                },
                Ok(None) => {
                    return deliver(&mut self.serializer, actions);
                },
                Ok(Some(payload)) => payload,
            };
            let message = match payload.to_rtmp_message() {
                Ok(message) => message,
                Err(e) => {
                    let kind = SessionErrorKind::MessageDeserialization(e.kind);
                    self.failed = Some(kind);
                    return Err(SessionError { kind });
                },
            };
            match &message {
                RtmpMessage::SetChunkSize { size } => {
                    match self.deserializer.set_max_chunk_size(*size as usize) {
                        Ok(_) => {},
                        Err(e) => {
                            let kind = SessionErrorKind::ChunkDeserialization(e.kind);
                            self.failed = Some(kind);
                            return Err(SessionError { kind });
                        },
                    }
                },
                _ => {},
            }
            let ghost so_far = action_models(actions@);
            match self.core.handle_payload(payload, message) {
                Ok(more) => {
                    let ghost added = action_models(more@);
                    let mut more = more;
                    actions.append(&mut more);
                    assert(action_models(actions@) =~= so_far + added);
                },
                Err(e) => {
                    return Err(e);
                },
            }
            proof {
                before = receiver_of(&self.deserializer);
                fed = Seq::empty();
                assert(before.pending + fed =~= before.pending);
            }
            next = self.deserializer.get_next_message(&[]);
        }
    }
}

} // verus!
