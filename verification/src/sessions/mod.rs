//! The client and server sessions: what to send and what to tell the
//! embedding application, message by message.

use crate::chunk_io::deserializer::{run, InboundModel};
use crate::chunk_io::format::{ChunkHeader, MAX_MESSAGE_LEN};
use crate::chunk_io::round_trip::{in_step, lemma_chunk_round_trip};
use crate::chunk_io::serializer::{csid_for, entry, next_header};
use crate::chunk_io::{ChunkDeserializationErrorKind, ChunkSerializationErrorKind};
use crate::chunk_io::{ChunkDeserializer, ChunkSerializer, Packet};
use crate::messages::message_payload::{body_len, is_body_of, refusal, writable};
use crate::messages::message_payload::{MessagePayload, PayloadModel};
use crate::messages::{MessageDeserializationErrorKind, MessageModel};
use crate::messages::{MessageSerializationErrorKind, RtmpMessage};
use crate::time::RtmpTimestamp;
use vstd::prelude::*;

pub mod client;
pub mod laws;
pub mod metadata;
pub mod server;

pub use metadata::StreamMetadata;

verus! {

/// Why a session refused a call or gave up on its input.
#[derive(Debug, Clone, Copy, PartialEq, Eq, Structural)]
pub enum SessionErrorKind {
    /// A connection was asked for while one exists or is being made.
    CantConnectWhileAlreadyConnected,
    /// The call is not one that the session's state allows.
    ActionNotAllowedInCurrentState,
    /// No request is waiting under that id.
    UnknownRequestId,
    /// A response names a transaction that the session did not start.
    InvalidTransactionId,
    /// The bytes received are not a chunk stream.
    ChunkDeserialization(ChunkDeserializationErrorKind),
    /// A message received could not be read.
    MessageDeserialization(MessageDeserializationErrorKind),
    /// A message could not be cut into chunks.
    ChunkSerialization(ChunkSerializationErrorKind),
    /// A message could not be written.
    MessageSerialization(MessageSerializationErrorKind),
}

#[derive(Debug, Clone, Copy, PartialEq, Eq, Structural)]
pub struct SessionError {
    pub kind: SessionErrorKind,
}

/// A message that a session wants sent.
#[derive(Debug, Clone, PartialEq)]
pub struct OutboundMessage {
    pub message: RtmpMessage,
    pub message_stream_id: u32,
    pub timestamp: RtmpTimestamp,
    pub can_be_dropped: bool,
}

/// What an `OutboundMessage` stands for.
pub struct OutboundModel {
    pub message: MessageModel,
    pub message_stream_id: u32,
    pub timestamp: u32,
    pub can_be_dropped: bool,
}

impl View for OutboundMessage {
    type V = OutboundModel;

    open spec fn view(&self) -> OutboundModel {
        OutboundModel {
            message: self.message@,
            message_stream_id: self.message_stream_id,
            timestamp: self.timestamp.value,
            can_be_dropped: self.can_be_dropped,
        }
    }
}

/// What a session decides on: a message to send, an event for the embedding
/// application, or a message that it hands on because it has no use for it.
#[derive(Debug, Clone, PartialEq)]
pub enum Action<E> {
    Send(OutboundMessage),
    Raise(E),
    Unhandled(MessagePayload),
}

/// What an `Action` stands for.
pub enum ActionModel<M> {
    Send(OutboundModel),
    Raise(M),
    Unhandled(PayloadModel),
}

impl<E: View> View for Action<E> {
    type V = ActionModel<E::V>;

    open spec fn view(&self) -> ActionModel<E::V> {
        match self {
            Action::Send(outbound) => ActionModel::Send(outbound@),
            Action::Raise(event) => ActionModel::Raise(event@),
            Action::Unhandled(payload) => ActionModel::Unhandled(payload@),
        }
    }
}

/// The models of a list of actions, in order.
pub open spec fn action_models<E: View>(actions: Seq<Action<E>>) -> Seq<ActionModel<E::V>> {
    Seq::new(actions.len(), |i: int| actions[i]@)
}

/// What a session hands to the embedding application: a packet for the
/// transport, an event, or a message that the session has no use for.
#[derive(Debug, Clone, PartialEq)]
pub enum SessionResult<E> {
    OutboundResponse(Packet),
    RaisedEvent(E),
    UnhandleableMessageReceived(MessagePayload),
}

/// What a `SessionResult` stands for.
pub enum ResultModel<M> {
    OutboundResponse { bytes: Seq<u8>, can_be_dropped: bool },
    RaisedEvent(M),
    UnhandleableMessageReceived(PayloadModel),
}

impl<E: View> View for SessionResult<E> {
    type V = ResultModel<E::V>;

    open spec fn view(&self) -> ResultModel<E::V> {
        match self {
            SessionResult::OutboundResponse(packet) => ResultModel::OutboundResponse {
                bytes: packet.bytes@,
                can_be_dropped: packet.can_be_dropped,
            },
            SessionResult::RaisedEvent(event) => ResultModel::RaisedEvent(event@),
            SessionResult::UnhandleableMessageReceived(payload) => {
                ResultModel::UnhandleableMessageReceived(payload@)
            },
        }
    }
}

/// The models of a list of results, in order.
pub open spec fn result_models<E: View>(results: Seq<SessionResult<E>>) -> Seq<
    ResultModel<E::V>,
> {
    Seq::new(results.len(), |i: int| results[i]@)
}

/// What a serializer goes by when it writes: the last header of each chunk
/// stream, and the chunk size.
pub struct SenderModel {
    pub headers: Map<u32, ChunkHeader>,
    pub max: nat,
}

/// What a serializer goes by.
pub open spec fn sender_of(serializer: &ChunkSerializer) -> SenderModel {
    SenderModel { headers: serializer.previous_headers(), max: serializer.max_chunk_size() }
}

/// What a deserializer goes by when it reads: what it holds of each chunk
/// stream, the bytes that are not yet a whole chunk, and the chunk size.
pub struct ReceiverModel {
    pub streams: Map<u32, InboundModel>,
    pub pending: Seq<u8>,
    pub max: nat,
}

/// What a deserializer goes by.
pub open spec fn receiver_of(deserializer: &ChunkDeserializer) -> ReceiverModel {
    ReceiverModel {
        streams: deserializer.streams(),
        pending: deserializer.pending(),
        max: deserializer.max_chunk_size(),
    }
}

/// A deserializer that has read nothing.
pub open spec fn fresh_receiver() -> ReceiverModel {
    ReceiverModel {
        streams: Map::empty(),
        pending: Seq::empty(),
        max: crate::chunk_io::format::INITIAL_CHUNK_SIZE as nat,
    }
}

/// What the receiver goes by after a message: a set chunk size message
/// changes the chunk size, and is refused if it names the size 0.
pub open spec fn adopt_chunk_size(receiver: ReceiverModel, message: MessageModel) -> Result<
    ReceiverModel,
    SessionErrorKind,
> {
    match message {
        MessageModel::SetChunkSize { size } => if 1 <= size
            <= crate::chunk_io::format::MAX_CHUNK_SIZE {
            Ok(ReceiverModel { max: size as nat, ..receiver })
        } else {
            Err(
                SessionErrorKind::ChunkDeserialization(
                    ChunkDeserializationErrorKind::InvalidChunkSize,
                ),
            )
        },
        _ => Ok(receiver),
    }
}

/// The state of a deserializer that has read all that a serializer wrote.
pub open spec fn mirror(headers: Map<u32, ChunkHeader>) -> Map<u32, InboundModel> {
    Map::new(
        |csid: u32| headers.contains_key(csid),
        |csid: u32| InboundModel { header: headers[csid], body: Seq::empty() },
    )
}

/// The message that a peer reads from a packet, if it has read all that the
/// sender wrote before and reads with the sender's chunk size, and if the
/// packet is one whole message.
pub open spec fn reads_as(sender: SenderModel, bytes: Seq<u8>) -> Option<PayloadModel> {
    let outcome = run(sender.max, mirror(sender.headers), bytes);
    match outcome.result {
        Ok(Some(payload)) => if outcome.rest.len() == 0 {
            Some(payload)
        } else {
            None
        },
        _ => None,
    }
}

/// What a serializer goes by after it has written `payload`.
pub open spec fn sender_after_payload(sender: SenderModel, payload: PayloadModel) -> SenderModel {
    let csid = csid_for(payload.type_id);
    SenderModel {
        headers: sender.headers.insert(
            csid,
            next_header(entry(sender.headers, csid), payload, false),
        ),
        max: sender.max,
    }
}

/// What a serializer goes by after it has brought forth `result`.
pub open spec fn sender_after<M>(sender: SenderModel, result: ResultModel<M>) -> SenderModel {
    match result {
        ResultModel::OutboundResponse { bytes, .. } => match reads_as(sender, bytes) {
            Some(payload) => sender_after_payload(sender, payload),
            None => sender,
        },
        _ => sender,
    }
}

/// Whether `result` is what `action` asks for: the event or the message
/// handed on; or, for a message to send, a packet from which the peer reads a
/// body of that message, under the message's type id, at the time and on the
/// message stream that the action names.
pub open spec fn answers<M>(sender: SenderModel, action: ActionModel<M>, result: ResultModel<M>)
    -> bool {
    match action {
        ActionModel::Send(outbound) => match result {
            ResultModel::OutboundResponse { bytes, can_be_dropped } => {
                &&& can_be_dropped == outbound.can_be_dropped
                &&& match reads_as(sender, bytes) {
                    Some(payload) => {
                        &&& payload.timestamp == outbound.timestamp
                        &&& payload.message_stream_id == outbound.message_stream_id
                        &&& payload.type_id == outbound.message.type_id()
                        &&& is_body_of(payload.data, outbound.message)
                    },
                    None => false,
                }
            },
            _ => false,
        },
        ActionModel::Raise(event) => result == ResultModel::<M>::RaisedEvent(event),
        ActionModel::Unhandled(payload) => result == ResultModel::<
            M,
        >::UnhandleableMessageReceived(payload),
    }
}

/// What a serializer goes by after it has brought forth the first `n` of
/// `results`.
pub open spec fn sender_at<M>(sender: SenderModel, results: Seq<ResultModel<M>>, n: nat)
    -> SenderModel
    decreases n,
{
    if n == 0 || n > results.len() {
        sender
    } else {
        sender_after(sender_at(sender, results, (n - 1) as nat), results[n - 1])
    }
}

/// Whether `results` are what `actions` ask for, one for one and in order,
/// from a serializer that starts as `sender`.
pub open spec fn all_answered<M>(
    sender: SenderModel,
    actions: Seq<ActionModel<M>>,
    results: Seq<ResultModel<M>>,
) -> bool {
    &&& results.len() == actions.len()
    &&& forall|i: int|
        0 <= i < actions.len() ==> answers(
            sender_at(sender, results, i as nat),
            #[trigger] actions[i],
            results[i],
        )
}

/// Why an action cannot be carried out, if it cannot: a message to send has
/// no body, or its body is longer than the 24 bit length of a message can
/// tell. An event or a message handed on can always be handed out.
pub open spec fn failure_of<M>(action: ActionModel<M>) -> Option<SessionErrorKind> {
    match action {
        ActionModel::Send(outbound) => if !writable(outbound.message) {
            Some(SessionErrorKind::MessageSerialization(refusal(outbound.message)))
        } else if body_len(outbound.message) > MAX_MESSAGE_LEN {
            Some(
                SessionErrorKind::ChunkSerialization(ChunkSerializationErrorKind::MessageTooLarge),
            )
        } else {
            None
        },
        _ => None,
    }
}

/// Why the first of the actions that cannot be carried out cannot; `None`
/// where all of them can.
pub open spec fn first_failure<M>(actions: Seq<ActionModel<M>>) -> Option<SessionErrorKind>
    decreases actions.len(),
{
    if actions.len() == 0 {
        None
    } else {
        match failure_of(actions[0]) {
            Some(kind) => Some(kind),
            None => first_failure(actions.skip(1)),
        }
    }
}

/// The outcome of a delivery, as the contracts speak of it.
pub open spec fn outcome_models<E: View>(r: Result<Vec<SessionResult<E>>, SessionError>) -> Result<
    Seq<ResultModel<E::V>>,
    SessionErrorKind,
> {
    match r {
        Ok(results) => Ok(result_models(results@)),
        Err(e) => Err(e.kind),
    }
}

/// Whether the actions were carried out as they must be: all of them or none.
///
/// Where every action can be carried out, the results are what the actions
/// ask for, one for one and in order, and the serializer has written every
/// packet among them. Where one cannot, the outcome is the error of the first
/// that cannot, no packet was written, and the serializer is as it was.
pub open spec fn delivered<M>(
    before: SenderModel,
    after: SenderModel,
    actions: Seq<ActionModel<M>>,
    r: Result<Seq<ResultModel<M>>, SessionErrorKind>,
) -> bool {
    match first_failure(actions) {
        Some(kind) => r == Err::<Seq<ResultModel<M>>, SessionErrorKind>(kind) && after == before,
        None => {
            &&& r matches Ok(results)
            &&& all_answered(before, actions, results)
            &&& after == sender_at(before, results, results.len())
        },
    }
}

/// Actions that can be carried out do not count for the first failure.
pub proof fn lemma_first_failure_after<M>(actions: Seq<ActionModel<M>>, n: int)
    requires
        0 <= n <= actions.len(),
        forall|i: int| 0 <= i < n ==> failure_of(#[trigger] actions[i]) is None,
    ensures
        first_failure(actions) == first_failure(actions.skip(n)),
    decreases n,
{
    if n > 0 {
        let rest = actions.skip(1);
        assert forall|i: int| 0 <= i < n - 1 implies failure_of(#[trigger] rest[i]) is None by {
            assert(rest[i] == actions[i + 1]);
        }
        lemma_first_failure_after(rest, n - 1);
        assert(rest.skip(n - 1) =~= actions.skip(n));
    } else {
        assert(actions.skip(0) =~= actions);
    }
}

/// Where every action can be carried out, none is the first that cannot.
pub proof fn lemma_no_failure<M>(actions: Seq<ActionModel<M>>)
    requires
        forall|i: int| 0 <= i < actions.len() ==> failure_of(#[trigger] actions[i]) is None,
    ensures
        first_failure(actions) is None,
{
    lemma_first_failure_after(actions, actions.len() as int);
    assert(actions.skip(actions.len() as int) =~= Seq::<ActionModel<M>>::empty());
}

/// Whether a single action can be carried out is whether it fails.
pub proof fn lemma_single_action<M>(action: ActionModel<M>)
    ensures
        first_failure(seq![action]) == failure_of(action),
{
    let one = seq![action];
    assert(one.skip(1) =~= Seq::<ActionModel<M>>::empty());
    assert(first_failure(one.skip(1)) is None);
}

/// The state of a deserializer that mirrors a serializer is in step with it.
pub proof fn lemma_mirror_in_step(headers: Map<u32, ChunkHeader>)
    ensures
        in_step(headers, mirror(headers)),
{
}

/// A message that is ready to be cut into chunks, or what is handed out
/// without a packet.
enum Prepared<E> {
    Packet { payload: MessagePayload, can_be_dropped: bool },
    Event(E),
    Handed(MessagePayload),
}

/// Whether `prepared` is what `action` asks for, ready to be written: for a
/// message to send, a payload with a body of the message that is not too long.
spec fn prepared_for<E: View>(prepared: Prepared<E>, action: ActionModel<E::V>) -> bool {
    match action {
        ActionModel::Send(outbound) => {
            &&& prepared matches Prepared::Packet { payload, can_be_dropped }
            &&& can_be_dropped == outbound.can_be_dropped
            &&& payload.timestamp.value == outbound.timestamp
            &&& payload.message_stream_id == outbound.message_stream_id
            &&& payload.type_id == outbound.message.type_id()
            &&& is_body_of(payload.data@, outbound.message)
            &&& payload.data@.len() <= MAX_MESSAGE_LEN
        },
        ActionModel::Raise(event) => prepared matches Prepared::Event(e) && e@ == event,
        ActionModel::Unhandled(payload) => prepared matches Prepared::Handed(p) && p@ == payload,
    }
}

/// Writes the body of a message that is to be sent.
///
/// Fails exactly where the message cannot be sent, with the error that says
/// why: the message has no body, or its body is too long for a message.
fn prepare<E: View>(outbound: OutboundMessage) -> (r: Result<Prepared<E>, SessionError>)
    ensures
        match failure_of(ActionModel::<E::V>::Send(outbound@)) {
            Some(kind) => r matches Err(e) && e.kind == kind,
            None => r matches Ok(prepared) && prepared_for(
                prepared,
                ActionModel::<E::V>::Send(outbound@),
            ),
        },
{
    let can_be_dropped = outbound.can_be_dropped;
    let payload = match MessagePayload::from_rtmp_message(
        outbound.message,
        outbound.timestamp,
        outbound.message_stream_id,
    ) {
        Ok(payload) => payload,
        Err(e) => {
            return Err(SessionError { kind: SessionErrorKind::MessageSerialization(e.kind) });
        },
    };
    if payload.data.len() > MAX_MESSAGE_LEN as usize {
        return Err(
            SessionError {
                kind: SessionErrorKind::ChunkSerialization(
                    ChunkSerializationErrorKind::MessageTooLarge,
                ),
            },
        );
    }
    Ok(Prepared::Packet { payload, can_be_dropped })
}

/// Hands out what was prepared: a message as a packet, anything else as it is.
fn emit<E: View>(
    serializer: &mut ChunkSerializer,
    prepared: Prepared<E>,
    Ghost(action): Ghost<ActionModel<E::V>>,
) -> (result: SessionResult<E>)
    requires
        old(serializer).wf(),
        prepared_for(prepared, action),
    ensures
        final(serializer).wf(),
        final(serializer).max_chunk_size() == old(serializer).max_chunk_size(),
        answers(sender_of(old(serializer)), action, result@),
        sender_of(final(serializer)) == sender_after(sender_of(old(serializer)), result@),
{
    match prepared {
        Prepared::Packet { payload, can_be_dropped } => {
            let sent = serializer.serialize(&payload, false, can_be_dropped);
            proof {
                let sender = sender_of(old(serializer));
                lemma_mirror_in_step(sender.headers);
                lemma_chunk_round_trip(
                    sender.headers,
                    mirror(sender.headers),
                    payload@,
                    false,
                    sender.max,
                );
            }
            match sent {
                Ok(packet) => SessionResult::OutboundResponse(packet),
                Err(_) => {
                    assert(false);
                    SessionResult::UnhandleableMessageReceived(payload)
                },
            }
        },
        Prepared::Event(event) => SessionResult::RaisedEvent(event),
        Prepared::Handed(payload) => SessionResult::UnhandleableMessageReceived(payload),
    }
}

/// Brings forth what the actions ask for, in order: a packet for each
/// message to send, and the events and messages handed on as they are.
///
/// Either everything is brought forth or nothing. It fails exactly where one
/// of the messages cannot be sent, because it has no body or because its body
/// is too long, with the error of the first such message; then no packet is
/// written at all, and the serializer is as it was.
pub fn deliver<E: View>(serializer: &mut ChunkSerializer, actions: Vec<Action<E>>) -> (r: Result<
    Vec<SessionResult<E>>,
    SessionError,
>)
    requires
        old(serializer).wf(),
    ensures
        final(serializer).wf(),
        final(serializer).max_chunk_size() == old(serializer).max_chunk_size(),
        delivered(
            sender_of(old(serializer)),
            sender_of(final(serializer)),
            action_models(actions@),
            outcome_models(r),
        ),
{
    let ghost asked = actions@;
    let ghost models = action_models(actions@);
    let ghost start = sender_of(serializer);
    let count = actions.len();
    let mut remaining = actions;
    let mut ready: Vec<Prepared<E>> = Vec::new();
    while remaining.len() > 0
        invariant
            serializer.wf(),
            serializer.max_chunk_size() == old(serializer).max_chunk_size(),
            sender_of(serializer) == sender_of(old(serializer)),
            start == sender_of(old(serializer)),
            asked == actions@,
            models == action_models(actions@),
            asked.len() <= usize::MAX,
            ready@.len() <= asked.len(),
            remaining@ == asked.skip(ready@.len() as int),
            forall|i: int| 0 <= i < ready@.len() ==> prepared_for(#[trigger] ready@[i], models[i]),
            forall|i: int| 0 <= i < ready@.len() ==> failure_of(#[trigger] models[i]) is None,
        decreases remaining.len(),
    {
        let ghost done = ready@.len() as int;
        let action = remaining.remove(0);
        assert(action == actions@[done]);
        assert(action@ == models[done]);
        assert(remaining@ =~= asked.skip(done + 1));
        let prepared = match action {
            Action::Send(outbound) => match prepare::<E>(outbound) {
                Ok(prepared) => prepared,
                Err(e) => {
                    proof {
                        lemma_first_failure_after(models, done);
                        assert(models.skip(done)[0] == models[done]);
                    }
                    return Err(e);
                },
            },
            Action::Raise(event) => Prepared::Event(event),
            Action::Unhandled(payload) => Prepared::Handed(payload),
        };
        assert(prepared_for(prepared, models[done]));
        ready.push(prepared);
    }
    assert(ready@.len() == asked.len());
    proof {
        lemma_first_failure_after(models, models.len() as int);
        assert(models.skip(models.len() as int) =~= Seq::<ActionModel<E::V>>::empty());
    }
    let mut results: Vec<SessionResult<E>> = Vec::new();
    let mut done: usize = 0;
    while ready.len() > 0
        invariant
            serializer.wf(),
            serializer.max_chunk_size() == old(serializer).max_chunk_size(),
            start == sender_of(old(serializer)),
            models == action_models(actions@),
            first_failure(models) is None,
            models.len() <= usize::MAX,
            done <= models.len(),
            ready@.len() == models.len() - done,
            forall|i: int|
                0 <= i < ready@.len() ==> prepared_for(#[trigger] ready@[i], models[done + i]),
            results@.len() == done,
            sender_of(serializer) == sender_at(start, result_models(results@), done as nat),
            forall|i: int|
                0 <= i < done ==> answers(
                    sender_at(start, result_models(results@), i as nat),
                    #[trigger] models[i],
                    result_models(results@)[i],
                ),
        decreases ready.len(),
    {
        let ghost before = result_models(results@);
        let ghost sender = sender_of(serializer);
        let ghost waiting = ready@;
        let prepared = ready.remove(0);
        assert(prepared == waiting[0]);
        assert forall|i: int| 0 <= i < ready@.len() implies prepared_for(
            #[trigger] ready@[i],
            models[done + 1 + i],
        ) by {
            assert(ready@[i] == waiting[i + 1]);
        }
        let result = emit(serializer, prepared, Ghost(models[done as int]));
        results.push(result);
        proof {
            let after = result_models(results@);
            assert(after =~= before.push(result@));
            lemma_sender_at_prefix(start, before, after, done as nat);
            assert forall|i: int| 0 <= i < done + 1 implies answers(
                sender_at(start, after, i as nat),
                #[trigger] models[i],
                after[i],
            ) by {
                lemma_sender_at_prefix(start, before, after, i as nat);
                if i < done {
                    assert(after[i] == before[i]);
                }
            }
        }
        done = done + 1;
    }
    Ok(results)
}

/// What the serializer goes by after the first results does not depend on
/// the results that follow.
pub proof fn lemma_sender_at_prefix<M>(
    sender: SenderModel,
    shorter: Seq<ResultModel<M>>,
    longer: Seq<ResultModel<M>>,
    n: nat,
)
    requires
        n <= shorter.len() <= longer.len(),
        forall|i: int| 0 <= i < shorter.len() ==> shorter[i] == longer[i],
    ensures
        sender_at(sender, longer, n) == sender_at(sender, shorter, n),
    decreases n,
{
    if n > 0 {
        lemma_sender_at_prefix(sender, shorter, longer, (n - 1) as nat);
    }
}

} // verus!
