//! The server session: the server's state machine between a deserializer
//! for what arrives and a serializer for what is sent.

use crate::amf0::AmfValue;
use crate::chunk_io::deserializer::{read_agrees, run};
use crate::chunk_io::format::{message_bytes, MAX_CHUNK_SIZE, MAX_MESSAGE_LEN};
use crate::chunk_io::laws::lemma_run_consumes;
use crate::chunk_io::serializer::chunk_size_header;
use crate::chunk_io::ChunkDeserializer;
use crate::chunk_io::{ChunkSerializationErrorKind, ChunkSerializer};
use crate::messages::message_payload::message_of;
use crate::messages::{MessageModel, RtmpMessage, UserControlEventType};
use crate::sessions::metadata::StreamMetadata;
use crate::sessions::{action_models, adopt_chunk_size, all_answered, delivered};
use crate::sessions::{deliver, fresh_receiver, lemma_single_action, outcome_models};
use crate::sessions::{receiver_of, result_models};
use crate::sessions::{sender_at, sender_of, Action, ActionModel, OutboundMessage};
use crate::sessions::OutboundModel;
use crate::sessions::{ReceiverModel, ResultModel, SenderModel, SessionError, SessionErrorKind};
use crate::sessions::SessionResult;
use crate::text::owned;
use crate::time::RtmpTimestamp;
use crate::wire::be32_bytes;
use vstd::prelude::*;

pub mod events;
pub mod rules;
pub mod state;

pub use events::ServerSessionEvents;
pub use state::ServerSessionConfig;

use events::ServerEventModel;
use rules::{announcements, fresh_server, is_played, metadata_message, on_accept, on_payload};
use rules::{on_ping, on_reject, on_send, on_user_control, ServerActionModel, ServerModel};
use rules::ServerOutcome;
use state::{announce, ServerAction, ServerCore};

verus! {

/// What a server session hands to the embedding application.
pub type ServerSessionResult = SessionResult<ServerSessionEvents>;

/// Why a server session refused a call or gave up on its input.
pub type ServerSessionError = SessionError;

/// The kinds of `ServerSessionError`.
pub type ServerSessionErrorKind = SessionErrorKind;

/// A server session as the contracts speak of it.
pub struct ServerSessionModel {
    pub server: ServerModel,
    pub sender: SenderModel,
    pub receiver: ReceiverModel,
    /// The error at which the session gave up on its input, if it has.
    pub failed: Option<SessionErrorKind>,
}

/// What came of the bytes received: how they leave the server and the
/// receiver, what they ask for, and at which error reading stopped, if at any.
pub struct Received {
    pub server: ServerModel,
    pub receiver: ReceiverModel,
    pub actions: Seq<ServerActionModel>,
    pub failure: Option<SessionErrorKind>,
}

/// Takes `input` in and handles the messages that it completes, one after
/// another, until no whole message is left or one fails. `so_far` is what the
/// messages before asked for.
///
/// A message is read from its payload; a set chunk size message changes the
/// chunk size that is read with from then on; and the state machine says
/// what the message asks for.
pub open spec fn receive_from(
    server: ServerModel,
    receiver: ReceiverModel,
    input: Seq<u8>,
    so_far: Seq<ServerActionModel>,
) -> Received
    decreases receiver.pending.len() + input.len(),
{
    let read = run(receiver.max, receiver.streams, receiver.pending + input);
    let next = ReceiverModel { streams: read.streams, pending: read.rest, max: receiver.max };
    let stopped = |kind: SessionErrorKind|
        Received { server, receiver: next, actions: so_far, failure: Some(kind) };
    match read.result {
        Err(kind) => stopped(SessionErrorKind::ChunkDeserialization(kind)),
        Ok(None) => Received { server, receiver: next, actions: so_far, failure: None },
        Ok(Some(payload)) => match message_of(payload.type_id, payload.data) {
            Err(kind) => stopped(SessionErrorKind::MessageDeserialization(kind)),
            Ok(message) => match adopt_chunk_size(next, message) {
                Err(kind) => stopped(kind),
                Ok(adopted) => {
                    let outcome = on_payload(server, payload, message);
                    match outcome.result {
                        Err(kind) => Received {
                            server: outcome.server,
                            receiver: adopted,
                            actions: so_far,
                            failure: Some(kind),
                        },
                        Ok(actions) => if read.rest.len() < receiver.pending.len() + input.len() {
                            receive_from(outcome.server, adopted, Seq::empty(), so_far + actions)
                        } else {
                            Received {
                                server: outcome.server,
                                receiver: adopted,
                                actions: so_far + actions,
                                failure: None,
                            }
                        },
                    }
                },
            },
        },
    }
}

/// The error that makes a session give up on its input for good: bytes or a
/// message that cannot be read.
pub open spec fn gives_up(failure: Option<SessionErrorKind>) -> Option<SessionErrorKind> {
    match failure {
        Some(kind) => if kind is ChunkDeserialization || kind is MessageDeserialization {
            Some(kind)
        } else {
            None
        },
        None => None,
    }
}

/// Takes `input` in and handles the messages that it completes.
pub open spec fn receive(server: ServerModel, receiver: ReceiverModel, input: Seq<u8>)
    -> Received {
    receive_from(server, receiver, input, Seq::empty())
}

/// Whether a call left the session as its outcome says, and gave the results
/// that the outcome asks for.
///
/// A call that the state machine refuses changes nothing. A call that it
/// accepts changes the server as the outcome says, and what it asks for is
/// brought forth, all of it or nothing: the call fails exactly where one of
/// the messages to send has no body or too long a one, and then nothing was
/// sent at all.
pub open spec fn called(
    before: ServerSessionModel,
    after: ServerSessionModel,
    r: Result<Vec<ServerSessionResult>, SessionError>,
    expected: ServerOutcome,
) -> bool {
    &&& after.receiver == before.receiver
    &&& after.sender.max == before.sender.max
    &&& after.failed == before.failed
    &&& match expected.result {
        Err(kind) => r matches Err(e) && e.kind == kind && after == before,
        Ok(actions) => {
            &&& after.server == expected.server
            &&& delivered(before.sender, after.sender, actions, outcome_models(r))
        },
    }
}

/// A server session.
pub struct ServerSession {
    core: ServerCore,
    serializer: ChunkSerializer,
    deserializer: ChunkDeserializer,
    failed: Option<SessionErrorKind>,
}

impl View for ServerSession {
    type V = ServerSessionModel;

    closed spec fn view(&self) -> ServerSessionModel {
        ServerSessionModel {
            server: self.core@,
            sender: sender_of(&self.serializer),
            receiver: receiver_of(&self.deserializer),
            failed: self.failed,
        }
    }
}

impl ServerSession {
    /// The serializer and the deserializer are as they must be.
    pub closed spec fn wf(&self) -> bool {
        self.serializer.wf() && self.deserializer.wf()
    }

    /// A session for a client that has not connected yet, and the packets
    /// that the server sends first: its chunk size, its window, and the
    /// bandwidth that it asks the client to keep to.
    ///
    /// Fails exactly where the chunk size of the configuration is 0 or has
    /// more than 31 bits.
    pub fn new(config: ServerSessionConfig) -> (r: Result<
        (ServerSession, Vec<ServerSessionResult>),
        ServerSessionError,
    >)
        ensures
            match r {
                Ok((session, results)) => {
                    let told = SenderModel {
                        headers: Map::<u32, crate::chunk_io::format::ChunkHeader>::empty().insert(
                            2,
                            chunk_size_header(),
                        ),
                        max: config.chunk_size as nat,
                    };
                    let models = result_models(results@);
                    &&& 1 <= config.chunk_size <= MAX_CHUNK_SIZE
                    &&& session.wf()
                    &&& session@.server == fresh_server(config.fms_version@)
                    &&& session@.receiver == fresh_receiver()
                    &&& session@.failed is None
                    &&& models.len() == 3
                    &&& models[0] == ResultModel::<ServerEventModel>::OutboundResponse {
                        bytes: message_bytes(
                            2,
                            0,
                            chunk_size_header(),
                            be32_bytes(config.chunk_size as int),
                            128,
                        ),
                        can_be_dropped: false,
                    }
                    &&& all_answered(
                        told,
                        announcements(config.window_ack_size, config.peer_bandwidth),
                        models.skip(1),
                    )
                    &&& session@.sender == sender_at(told, models.skip(1), 2)
                },
                Err(e) => {
                    &&& config.chunk_size == 0 || config.chunk_size > MAX_CHUNK_SIZE
                    &&& e.kind == SessionErrorKind::ChunkSerialization(
                        ChunkSerializationErrorKind::InvalidChunkSize,
                    )
                },
            },
    {
        let mut serializer = ChunkSerializer::new();
        let deserializer = ChunkDeserializer::new();
        let packet = match serializer.set_max_chunk_size(config.chunk_size, true) {
            Ok(Some(packet)) => packet,
            Ok(None) => {
                assert(false);
                return Err(
                    SessionError {
                        kind: SessionErrorKind::ChunkSerialization(
                            ChunkSerializationErrorKind::InvalidChunkSize,
                        ),
                    },
                );
            },
            Err(e) => {
                return Err(SessionError { kind: SessionErrorKind::ChunkSerialization(e.kind) });
            },
        };
        let core = ServerCore::new(&config);
        let announced = announce(config.window_ack_size, config.peer_bandwidth);
        proof {
            crate::sessions::lemma_no_failure(
                announcements(config.window_ack_size, config.peer_bandwidth),
            );
        }
        let mut rest = match deliver(&mut serializer, announced) {
            Ok(rest) => rest,
            Err(e) => {
                assert(false);
                return Err(e);
            },
        };
        let ghost later = result_models(rest@);
        let mut results: Vec<ServerSessionResult> = Vec::new();
        results.push(SessionResult::OutboundResponse(packet));
        results.append(&mut rest);
        assert(result_models(results@).skip(1) =~= later);
        Ok((ServerSession { core, serializer, deserializer, failed: None }, results))
    }

    /// Brings forth what the state machine asked for.
    fn answer(&mut self, outcome: Result<Vec<ServerAction>, SessionError>) -> (r: Result<
        Vec<ServerSessionResult>,
        ServerSessionError,
    >)
        requires
            old(self).wf(),
        ensures
            final(self).wf(),
            final(self)@.server == old(self)@.server,
            final(self)@.receiver == old(self)@.receiver,
            final(self)@.sender.max == old(self)@.sender.max,
            final(self)@.failed == old(self)@.failed,
            match outcome {
                Err(e) => r == Err::<Vec<ServerSessionResult>, SessionError>(e) && final(self)@
                    == old(self)@,
                Ok(actions) => delivered(
                    old(self)@.sender,
                    final(self)@.sender,
                    action_models(actions@),
                    outcome_models(r),
                ),
            },
    {
        match outcome {
            Ok(actions) => deliver(&mut self.serializer, actions),
            Err(e) => Err(e),
        }
    }

    /// Accepts the request that waits under `request_id`.
    ///
    /// For a connection the result is the packet of a `_result` that reports
    /// `NetConnection.Connect.Success`; for leave to publish, of an `onStatus`
    /// that reports `NetStream.Publish.Start`; for leave to play, the packets
    /// that tell the client that the stream begins and playing starts. An id
    /// under which no request waits is refused with `UnknownRequestId`.
    pub fn accept_request(&mut self, request_id: u32) -> (r: Result<
        Vec<ServerSessionResult>,
        ServerSessionError,
    >)
        requires
            old(self).wf(),
        ensures
            final(self).wf(),
            called(old(self)@, final(self)@, r, on_accept(old(self)@.server, request_id)),
    {
        let outcome = self.core.accept_request(request_id);
        self.answer(outcome)
    }

    /// Rejects the request that waits under `request_id`, and tells the
    /// client why.
    ///
    /// For a connection the result is the packet of an `_error` that reports
    /// `NetConnection.Connect.Failed`; for leave to publish or to play, of an
    /// `onStatus` that reports the failure. An id under which no request waits
    /// is refused with `UnknownRequestId`.
    pub fn reject_request(&mut self, request_id: u32, description: String) -> (r: Result<
        Vec<ServerSessionResult>,
        ServerSessionError,
    >)
        requires
            old(self).wf(),
        ensures
            final(self).wf(),
            called(
                old(self)@,
                final(self)@,
                r,
                on_reject(old(self)@.server, request_id, description@),
            ),
    {
        let outcome = self.core.reject_request(request_id, description);
        self.answer(outcome)
    }

    /// Sends a message on a stream that is played.
    fn send_on_stream(
        &mut self,
        stream_id: u32,
        message: RtmpMessage,
        timestamp: RtmpTimestamp,
        can_be_dropped: bool,
    ) -> (r: Result<Vec<ServerSessionResult>, ServerSessionError>)
        requires
            old(self).wf(),
        ensures
            final(self).wf(),
            called(
                old(self)@,
                final(self)@,
                r,
                on_send(
                    old(self)@.server,
                    OutboundModel {
                        message: message@,
                        message_stream_id: stream_id,
                        timestamp: timestamp.value,
                        can_be_dropped,
                    },
                ),
            ),
    {
        let outcome = if self.core.plays(stream_id) {
            let mut actions: Vec<ServerAction> = Vec::new();
            actions.push(
                Action::Send(
                    OutboundMessage {
                        message,
                        message_stream_id: stream_id,
                        timestamp,
                        can_be_dropped,
                    },
                ),
            );
            assert(action_models(actions@) =~= seq![actions@[0]@]);
            Ok(actions)
        } else {
            Err(SessionError { kind: SessionErrorKind::ActionNotAllowedInCurrentState })
        };
        self.answer(outcome)
    }

    /// Tells the player of a stream the properties of the stream.
    ///
    /// Only on a message stream that is played can the server do so: on any
    /// other it is refused with `ActionNotAllowedInCurrentState`. The result
    /// is the packet of a data message that holds `onMetaData` and the
    /// properties.
    pub fn send_metadata(&mut self, stream_id: u32, metadata: &StreamMetadata) -> (r: Result<
        Vec<ServerSessionResult>,
        ServerSessionError,
    >)
        requires
            old(self).wf(),
        ensures
            final(self).wf(),
            called(
                old(self)@,
                final(self)@,
                r,
                on_send(
                    old(self)@.server,
                    OutboundModel {
                        message: metadata_message(metadata@),
                        message_stream_id: stream_id,
                        timestamp: 0,
                        can_be_dropped: false,
                    },
                ),
            ),
    {
        let mut values: Vec<AmfValue> = Vec::new();
        values.push(AmfValue::Utf8String(owned("onMetaData")));
        values.push(AmfValue::Object(metadata.to_properties()));
        assert(crate::amf0::values_model(values@) =~= seq![values@[0]@, values@[1]@]);
        self.send_on_stream(
            stream_id,
            RtmpMessage::Amf0Data { values },
            RtmpTimestamp::new(0),
            false,
        )
    }

    /// Sends audio data to the player of a stream.
    ///
    /// Only on a message stream that is played can the server do so: on any
    /// other it is refused with `ActionNotAllowedInCurrentState`. Data of up
    /// to 16,777,215 bytes is always sent; longer data is refused and changes
    /// nothing.
    pub fn send_audio_data(
        &mut self,
        stream_id: u32,
        data: Vec<u8>,
        timestamp: RtmpTimestamp,
        can_be_dropped: bool,
    ) -> (r: Result<Vec<ServerSessionResult>, ServerSessionError>)
        requires
            old(self).wf(),
        ensures
            final(self).wf(),
            called(
                old(self)@,
                final(self)@,
                r,
                on_send(
                    old(self)@.server,
                    OutboundModel {
                        message: MessageModel::AudioData { data: data@ },
                        message_stream_id: stream_id,
                        timestamp: timestamp.value,
                        can_be_dropped,
                    },
                ),
            ),
            data@.len() <= MAX_MESSAGE_LEN && is_played(old(self)@.server, stream_id) ==> r is Ok,
    {
        proof {
            lemma_single_action(
                ActionModel::<ServerEventModel>::Send(
                    OutboundModel {
                        message: MessageModel::AudioData { data: data@ },
                        message_stream_id: stream_id,
                        timestamp: timestamp.value,
                        can_be_dropped,
                    },
                ),
            );
        }
        self.send_on_stream(stream_id, RtmpMessage::AudioData { data }, timestamp, can_be_dropped)
    }

    /// Sends video data to the player of a stream.
    ///
    /// Only on a message stream that is played can the server do so: on any
    /// other it is refused with `ActionNotAllowedInCurrentState`. Data of up
    /// to 16,777,215 bytes is always sent; longer data is refused and changes
    /// nothing.
    pub fn send_video_data(
        &mut self,
        stream_id: u32,
        data: Vec<u8>,
        timestamp: RtmpTimestamp,
        can_be_dropped: bool,
    ) -> (r: Result<Vec<ServerSessionResult>, ServerSessionError>)
        requires
            old(self).wf(),
        ensures
            final(self).wf(),
            called(
                old(self)@,
                final(self)@,
                r,
                on_send(
                    old(self)@.server,
                    OutboundModel {
                        message: MessageModel::VideoData { data: data@ },
                        message_stream_id: stream_id,
                        timestamp: timestamp.value,
                        can_be_dropped,
                    },
                ),
            ),
            data@.len() <= MAX_MESSAGE_LEN && is_played(old(self)@.server, stream_id) ==> r is Ok,
    {
        proof {
            lemma_single_action(
                ActionModel::<ServerEventModel>::Send(
                    OutboundModel {
                        message: MessageModel::VideoData { data: data@ },
                        message_stream_id: stream_id,
                        timestamp: timestamp.value,
                        can_be_dropped,
                    },
                ),
            );
        }
        self.send_on_stream(stream_id, RtmpMessage::VideoData { data }, timestamp, can_be_dropped)
    }

    /// Sends a ping that carries `timestamp`. The results are the packet of
    /// the ping and the event that says that it was sent. It never fails.
    pub fn send_ping_request(&mut self, timestamp: RtmpTimestamp) -> (r: Result<
        Vec<ServerSessionResult>,
        ServerSessionError,
    >)
        requires
            old(self).wf(),
        ensures
            final(self).wf(),
            called(old(self)@, final(self)@, r, on_ping(old(self)@.server, timestamp)),
            r is Ok,
    {
        let outcome = self.core.ping(timestamp);
        proof {
            crate::sessions::lemma_no_failure(on_ping(self@.server, timestamp).result->Ok_0);
        }
        self.answer(outcome)
    }

    /// Sends a user control message. It fails exactly where a field that the
    /// event carries is missing, with `InvalidMessageFormat`, and then
    /// changes nothing.
    pub fn send_user_control_message(
        &mut self,
        event_type: UserControlEventType,
        stream_id: Option<u32>,
        buffer_length: Option<u32>,
        timestamp: Option<RtmpTimestamp>,
    ) -> (r: Result<Vec<ServerSessionResult>, ServerSessionError>)
        requires
            old(self).wf(),
        ensures
            final(self).wf(),
            called(
                old(self)@,
                final(self)@,
                r,
                on_user_control(
                    old(self)@.server,
                    event_type,
                    stream_id,
                    buffer_length,
                    timestamp,
                ),
            ),
            r is Ok <==> crate::messages::types::user_control::body(
                event_type,
                stream_id,
                buffer_length,
                timestamp,
            ) is Some,
    {
        let message = RtmpMessage::UserControl { event_type, stream_id, buffer_length, timestamp };
        let mut actions: Vec<ServerAction> = Vec::new();
        actions.push(
            Action::Send(
                OutboundMessage {
                    message,
                    message_stream_id: 0,
                    timestamp: RtmpTimestamp::new(0),
                    can_be_dropped: false,
                },
            ),
        );
        assert(action_models(actions@) =~= seq![actions@[0]@]);
        proof {
            lemma_single_action(action_models(actions@)[0]);
        }
        let r = self.answer(Ok(actions));
        r
    }

    /// Takes in bytes from the client, handles each message that they
    /// complete, and brings forth what the messages ask for, in order.
    ///
    /// Fails where the bytes are not a chunk stream, where a message cannot be
    /// read, or where a set chunk size message names the size 0: then the
    /// session has read up to the failure, and has sent nothing. After bytes
    /// or a message that could not be read the session takes no more input:
    /// every later call fails with the same error and changes nothing.
    ///
    /// Where reading does not fail, what the messages ask for is brought
    /// forth, all of it or nothing: the call fails exactly where one of the
    /// messages to send has no body or too long a one, with the error of the
    /// first such message, and then nothing was sent.
    pub fn handle_input(&mut self, bytes: &[u8]) -> (r: Result<
        Vec<ServerSessionResult>,
        ServerSessionError,
    >)
        requires
            old(self).wf(),
        ensures
            final(self).wf(),
            final(self)@.sender.max == old(self)@.sender.max,
            old(self)@.failed is Some ==> {
                &&& r is Err
                &&& r->Err_0.kind == old(self)@.failed->Some_0
                &&& final(self)@ == old(self)@
            },
            old(self)@.failed is None ==> ({
                let received = receive(old(self)@.server, old(self)@.receiver, bytes@);
                &&& final(self)@.server == received.server
                &&& final(self)@.receiver == received.receiver
                &&& final(self)@.failed == gives_up(received.failure)
                &&& match received.failure {
                    Some(kind) => r matches Err(e) && e.kind == kind && final(self)@.sender
                        == old(self)@.sender,
                    None => delivered(
                        old(self)@.sender,
                        final(self)@.sender,
                        received.actions,
                        outcome_models(r),
                    ),
                }
            }),
    {
        match self.failed {
            Some(kind) => {
                return Err(SessionError { kind });
            },
            None => {},
        }
        let ghost goal = receive(self@.server, self@.receiver, bytes@);
        let ghost mut before = self@.receiver;
        let ghost mut fed = bytes@;
        let mut actions: Vec<ServerAction> = Vec::new();
        assert(action_models(actions@) =~= Seq::<ServerActionModel>::empty());
        let mut next = self.deserializer.get_next_message(bytes);
        loop
            invariant
                self.serializer.wf(),
                self.deserializer.wf(),
                self.failed is None,
                old(self).failed is None,
                sender_of(&self.serializer) == sender_of(&old(self).serializer),
                goal == receive(old(self)@.server, old(self)@.receiver, bytes@),
                goal == receive_from(self.core@, before, fed, action_models(actions@)),
                ({
                    let read = run(before.max, before.streams, before.pending + fed);
                    &&& receiver_of(&self.deserializer) == (ReceiverModel {
                        streams: read.streams,
                        pending: read.rest,
                        max: before.max,
                    })
                    &&& read_agrees(next, read.result)
                }),
            decreases before.pending.len() + fed.len(),
        {
            let ghost read = run(before.max, before.streams, before.pending + fed);
            proof {
                lemma_run_consumes(before.max, before.streams, before.pending + fed);
            }
            let payload = match next {
                Err(e) => {
                    let kind = SessionErrorKind::ChunkDeserialization(e.kind);
                    self.failed = Some(kind);
                    return Err(SessionError { kind });
                },
                Ok(None) => {
                    return deliver(&mut self.serializer, actions);
                },
                Ok(Some(payload)) => payload,
            };
            let message = match payload.to_rtmp_message() {
                Ok(message) => message,
                Err(e) => {
                    let kind = SessionErrorKind::MessageDeserialization(e.kind);
                    self.failed = Some(kind);
                    return Err(SessionError { kind });
                },
            };
            match &message {
                RtmpMessage::SetChunkSize { size } => {
                    match self.deserializer.set_max_chunk_size(*size as usize) {
                        Ok(_) => {},
                        Err(e) => {
                            let kind = SessionErrorKind::ChunkDeserialization(e.kind);
                            self.failed = Some(kind);
                            return Err(SessionError { kind });
                        },
                    }
                },
                _ => {},
            }
            let ghost so_far = action_models(actions@);
            match self.core.handle_payload(payload, message) {
                Ok(more) => {
                    let ghost added = action_models(more@);
                    let mut more = more;
                    actions.append(&mut more);
                    assert(action_models(actions@) =~= so_far + added);
                },
                Err(e) => {
                    return Err(e);
                },
            }
            proof {
                before = receiver_of(&self.deserializer);
                fed = Seq::empty();
                assert(before.pending + fed =~= before.pending);
            }
            next = self.deserializer.get_next_message(&[]);
        }
    }
}

} // verus!
