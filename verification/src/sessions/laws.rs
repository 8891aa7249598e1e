//! What holds of the sessions in every state.

use crate::messages::message_payload::PayloadModel;
use crate::messages::MessageModel;
use crate::sessions::client::rules as client;
use crate::sessions::client::rules::{ClientModel, ClientState, PublishRequestType};
use crate::sessions::server::rules as server;
use crate::sessions::server::rules::{ServerModel, ServerState};
use crate::sessions::{ActionModel, OutboundModel};
use crate::time::{span, RtmpTimestamp};
use vstd::prelude::*;

verus! {

/// What holds of a client in every state: it never hands out the transaction
/// id 0; it waits for an answer to its connect command exactly while it is
/// connecting; it has a stream key exactly from when it asks for a stream;
/// and it knows its message stream when it plays or publishes.
pub open spec fn client_coherent(c: ClientModel) -> bool {
    &&& c.next_transaction_id != 0
    &&& c.connection_transaction_id != Some(0u32)
    &&& c.create_stream_transaction_id != Some(0u32)
    &&& c.state == ClientState::Connecting <==> c.connection_transaction_id is Some
    &&& c.state == ClientState::Disconnected ==> c.app_name is None
    &&& c.state == ClientState::Disconnected || c.state == ClientState::Connecting || c.state
        == ClientState::Connected ==> c.active_stream_id is None
        && c.create_stream_transaction_id is None
    &&& c.state == ClientState::Disconnected || c.state == ClientState::Connecting || c.state
        == ClientState::Connected ==> c.active_stream_key is None
    &&& client::awaits_stream(c) ==> c.active_stream_key is Some && (c.active_stream_id is None
        <==> c.create_stream_transaction_id is Some)
    &&& c.state == ClientState::Playing || c.state == ClientState::Publishing
        ==> c.active_stream_id is Some && c.active_stream_key is Some
        && c.create_stream_transaction_id is None
}

/// A client that has done nothing yet is coherent, and whatever is asked of a
/// coherent client and whatever message reaches it leaves it coherent.
pub proof fn lemma_client_stays_coherent(
    c: ClientModel,
    text: Seq<char>,
    publish_type: PublishRequestType,
    outbound: OutboundModel,
    payload: PayloadModel,
    message: MessageModel,
)
    requires
        client_coherent(c),
    ensures
        client_coherent(client::on_request_connection(c, text).client),
        client_coherent(
            client::on_request_stream(c, text, ClientState::PlaybackRequested, publish_type).client,
        ),
        client_coherent(
            client::on_request_stream(c, text, ClientState::PublishRequested, publish_type).client,
        ),
        client_coherent(client::on_publish(c, outbound).client),
        client_coherent(client::on_payload(c, payload, message).client),
{
}

/// Every command that a client sends under a transaction id of its own has
/// an id that is not 0, and the ids go up by one.
pub proof fn lemma_transaction_ids_go_up(c: ClientModel, text: Seq<char>)
    requires
        client_coherent(c),
    ensures
        c.state == ClientState::Disconnected ==> client::on_request_connection(
            c,
            text,
        ).client.connection_transaction_id == Some(c.next_transaction_id),
        c.state == ClientState::Connected ==> client::on_request_stream(
            c,
            text,
            ClientState::PlaybackRequested,
            c.publish_type,
        ).client.create_stream_transaction_id == Some(c.next_transaction_id),
        client::id_after(c.next_transaction_id) != 0,
        c.next_transaction_id < u32::MAX ==> client::id_after(c.next_transaction_id)
            == c.next_transaction_id + 1,
{
}

/// A call that a client refuses leaves the client as it was.
pub proof fn lemma_refused_call_changes_nothing(
    c: ClientModel,
    text: Seq<char>,
    next: ClientState,
    publish_type: PublishRequestType,
    outbound: OutboundModel,
)
    ensures
        client::on_request_connection(c, text).result is Err ==> client::on_request_connection(
            c,
            text,
        ).client == c,
        client::on_request_stream(c, text, next, publish_type).result is Err
            ==> client::on_request_stream(c, text, next, publish_type).client == c,
        client::on_publish(c, outbound).client == c,
{
}

/// What holds of a server in every state: it never hands out the request id
/// 0 nor the message stream id 0, and before the client is connected there
/// are no message streams and only connections are asked for.
pub open spec fn server_coherent(s: ServerModel) -> bool {
    &&& s.next_request_id != 0
    &&& s.next_stream_id != 0
    &&& !s.requests.contains_key(0)
    &&& !s.streams.contains_key(0)
    &&& s.state == ServerState::Started ==> s.streams == Map::<u32, server::StreamModel>::empty()
    &&& s.state == ServerState::Started ==> forall|id: u32| #[trigger]
        s.requests.contains_key(id) ==> s.requests[id].kind == server::RequestKind::Connection
    &&& forall|id: u32| #[trigger]
        s.requests.contains_key(id) ==> (s.requests[id].kind == server::RequestKind::Publish
            || s.requests[id].kind == server::RequestKind::Play ==> s.requests[id].stream_id != 0)
}

/// A server that has done nothing yet is coherent, and whatever is asked of a
/// coherent server and whatever message reaches it leaves it coherent.
pub proof fn lemma_server_stays_coherent(
    s: ServerModel,
    fms_version: Seq<char>,
    request_id: u32,
    description: Seq<char>,
    outbound: OutboundModel,
    timestamp: RtmpTimestamp,
    payload: PayloadModel,
    message: MessageModel,
)
    requires
        server_coherent(s),
    ensures
        server_coherent(server::fresh_server(fms_version)),
        server_coherent(server::on_accept(s, request_id).server),
        server_coherent(server::on_reject(s, request_id, description).server),
        server_coherent(server::on_send(s, outbound).server),
        server_coherent(server::on_ping(s, timestamp).server),
        server_coherent(server::on_payload(s, payload, message).server),
{
    let after = server::on_payload(s, payload, message).server;
    assert(server_coherent(after)) by {
        let counted = server::counted(s, payload.data.len());
        assert(server_coherent(counted));
    }
}

/// A call that a server refuses leaves the server as it was.
pub proof fn lemma_refused_request_changes_nothing(
    s: ServerModel,
    request_id: u32,
    description: Seq<char>,
    outbound: OutboundModel,
)
    ensures
        server::on_accept(s, request_id).result is Err ==> server::on_accept(s, request_id).server
            == s,
        server::on_reject(s, request_id, description).result is Err ==> server::on_reject(
            s,
            request_id,
            description,
        ).server == s,
        server::on_send(s, outbound).server == s,
        server::on_accept(s, request_id).result is Err <==> !s.requests.contains_key(request_id),
{
}

/// What a session counts for the window: the bytes of message bodies that
/// it has received, and how many of them it had received when it last sent an
/// acknowledgement; both modulo 2^32.
pub struct Flow {
    pub received: u32,
    pub acknowledged: u32,
}

/// What a client counts for the window.
pub open spec fn client_flow(c: ClientModel) -> Flow {
    Flow { received: c.bytes_received, acknowledged: c.bytes_received_at_last_ack }
}

/// What a server counts for the window.
pub open spec fn server_flow(s: ServerModel) -> Flow {
    Flow { received: s.bytes_received, acknowledged: s.bytes_received_at_last_ack }
}

/// The count of bytes received after `len` more bytes.
pub open spec fn count_after(f: Flow, len: nat) -> u32 {
    ((f.received + len) % span()) as u32
}

/// Whether a message of `len` bytes makes an acknowledgement due: with it, a
/// window's worth of bytes or more has arrived since the last acknowledgement.
pub open spec fn crosses(f: Flow, window: u32, len: nat) -> bool {
    (count_after(f, len) - f.acknowledged) % span() >= window
}

/// The count after a message of `len` bytes, and after the acknowledgement
/// that the message makes due, if it does.
pub open spec fn flow_after(f: Flow, window: u32, len: nat) -> Flow {
    Flow {
        received: count_after(f, len),
        acknowledged: if crosses(f, window, len) {
            count_after(f, len)
        } else {
            f.acknowledged
        },
    }
}

/// The sequence number that an action acknowledges, if it sends an
/// acknowledgement.
pub open spec fn acknowledged_by<M>(action: ActionModel<M>) -> Option<u32> {
    match action {
        ActionModel::Send(outbound) => match outbound.message {
            MessageModel::Acknowledgement { sequence_number } => Some(sequence_number),
            _ => None,
        },
        _ => None,
    }
}

/// The windowing rule of the client. A message that brings the bytes since
/// the last acknowledgement up to the window that the server announced makes
/// the client send one acknowledgement, before anything else, with the count
/// of bytes received so far; no other message makes it send one. Afterwards
/// the client has counted the message's bytes, and has acknowledged up to
/// that count or up to where it had.
pub proof fn lemma_client_acknowledges(
    c: ClientModel,
    window: u32,
    payload: PayloadModel,
    message: MessageModel,
)
    requires
        c.peer_window_ack_size == Some(window),
        !(message is WindowAcknowledgement),
    ensures
        ({
            let outcome = client::on_payload(c, payload, message);
            let f = client_flow(c);
            let len = payload.data.len();
            &&& client_flow(outcome.client) == flow_after(f, window, len)
            &&& outcome.client.peer_window_ack_size == Some(window)
            &&& outcome.result matches Ok(actions) ==> {
                &&& crosses(f, window, len) ==> actions.len() >= 1 && acknowledged_by(actions[0])
                    == Some(count_after(f, len))
                &&& forall|i: int|
                    (if crosses(f, window, len) {
                        1int
                    } else {
                        0int
                    }) <= i < actions.len() ==> acknowledged_by(#[trigger] actions[i]) is None
            }
        }),
{
}

/// The windowing rule of the server: that of the client, with the window
/// that the client announced.
pub proof fn lemma_server_acknowledges(
    s: ServerModel,
    window: u32,
    payload: PayloadModel,
    message: MessageModel,
)
    requires
        s.peer_window_ack_size == Some(window),
        !(message is WindowAcknowledgement),
    ensures
        ({
            let outcome = server::on_payload(s, payload, message);
            let f = server_flow(s);
            let len = payload.data.len();
            &&& server_flow(outcome.server) == flow_after(f, window, len)
            &&& outcome.server.peer_window_ack_size == Some(window)
            &&& outcome.result matches Ok(actions) ==> {
                &&& crosses(f, window, len) ==> actions.len() >= 1 && acknowledged_by(actions[0])
                    == Some(count_after(f, len))
                &&& forall|i: int|
                    (if crosses(f, window, len) {
                        1int
                    } else {
                        0int
                    }) <= i < actions.len() ==> acknowledged_by(#[trigger] actions[i]) is None
            }
        }),
{
}

/// The sequence numbers of the acknowledgements that messages of the lengths
/// `lens` make due, one after another.
pub open spec fn acknowledged_counts(f: Flow, window: u32, lens: Seq<nat>) -> Seq<u32>
    decreases lens.len(),
{
    if lens.len() == 0 {
        Seq::empty()
    } else {
        let later = acknowledged_counts(flow_after(f, window, lens[0]), window, lens.skip(1));
        if crosses(f, window, lens[0]) {
            seq![count_after(f, lens[0])] + later
        } else {
            later
        }
    }
}

/// The sum of the lengths.
pub open spec fn total(lens: Seq<nat>) -> nat
    decreases lens.len(),
{
    if lens.len() == 0 {
        0
    } else {
        lens[0] + total(lens.skip(1))
    }
}

/// Every window of bytes is acknowledged.
///
/// Messages of at most `longest` bytes each arrive, and the count does not
/// wrap. Then an acknowledgement is sent before `window + longest - 1` more
/// bytes have arrived since the last; each acknowledgement carries a count
/// that is a window or more above the one before it, and no more than what
/// has arrived. So after 250 bytes in messages of up to 51 bytes, under a
/// window of 100, at least two acknowledgements were sent, the first of 100 or
/// more and the second of 200 or more.
pub proof fn lemma_every_window_is_acknowledged(f: Flow, window: u32, lens: Seq<nat>, longest: nat)
    requires
        window >= 1,
        f.acknowledged <= f.received,
        f.received - f.acknowledged < window,
        f.received + total(lens) < span(),
        forall|i: int| 0 <= i < lens.len() ==> #[trigger] lens[i] <= longest,
    ensures
        ({
            let acks = acknowledged_counts(f, window, lens);
            &&& acks.len() * (window + longest - 1) + window > (f.received - f.acknowledged)
                + total(lens)
            &&& forall|i: int|
                0 <= i < acks.len() ==> f.acknowledged + (i + 1) * window <= #[trigger] acks[i]
                    <= f.received + total(lens)
            &&& forall|i: int| 0 <= i < acks.len() - 1 ==> #[trigger] acks[i] + window <= acks[i + 1]
        }),
    decreases lens.len(),
{
    let acks = acknowledged_counts(f, window, lens);
    if lens.len() > 0 {
        let len = lens[0];
        let rest = lens.skip(1);
        let g = flow_after(f, window, len);
        let later = acknowledged_counts(g, window, rest);
        let step = window + longest - 1;
        assert(count_after(f, len) == f.received + len);
        assert((f.received + len - f.acknowledged) % span() == f.received + len
            - f.acknowledged);
        assert forall|i: int| 0 <= i < rest.len() implies #[trigger] rest[i] <= longest by {
            assert(rest[i] == lens[i + 1]);
        }
        lemma_every_window_is_acknowledged(g, window, rest, longest);
        if crosses(f, window, len) {
            assert(acks =~= seq![g.received] + later);
            assert(acks.len() == later.len() + 1);
            assert((later.len() + 1) * step == later.len() * step + step) by (nonlinear_arith);
            assert forall|i: int| 0 <= i < acks.len() implies f.acknowledged + (i + 1) * window
                <= #[trigger] acks[i] <= f.received + total(lens) by {
                if i > 0 {
                    assert(acks[i] == later[i - 1]);
                    assert((i + 1) * window == i * window + window) by (nonlinear_arith);
                }
            }
            assert forall|i: int| 0 <= i < acks.len() - 1 implies #[trigger] acks[i] + window
                <= acks[i + 1] by {
                assert(acks[i + 1] == later[i]);
                if i > 0 {
                    assert(acks[i] == later[i - 1]);
                } else {
                    assert((0 + 1) * window == window) by (nonlinear_arith);
                }
            }
        } else {
            assert(acks == later);
        }
    }
}

/// The sequence numbers of the acknowledgements that a client sends while it
/// handles messages one after another, up to the first that it refuses.
pub open spec fn client_acknowledgements(
    c: ClientModel,
    inputs: Seq<(PayloadModel, MessageModel)>,
) -> Seq<u32>
    decreases inputs.len(),
{
    if inputs.len() == 0 {
        Seq::empty()
    } else {
        let outcome = client::on_payload(c, inputs[0].0, inputs[0].1);
        match outcome.result {
            Err(_) => Seq::empty(),
            Ok(actions) => {
                let later = client_acknowledgements(outcome.client, inputs.skip(1));
                if actions.len() >= 1 && acknowledged_by(actions[0]) is Some {
                    seq![acknowledged_by(actions[0])->Some_0] + later
                } else {
                    later
                }
            },
        }
    }
}

/// The lengths of the bodies of messages.
pub open spec fn body_lengths(inputs: Seq<(PayloadModel, MessageModel)>) -> Seq<nat> {
    Seq::new(inputs.len(), |i: int| inputs[i].0.data.len())
}

/// A client acknowledges as the windowing rule says, message after message.
///
/// Under a window that the server announced, and as long as no message
/// changes the window and none is a command, the acknowledgements that the
/// client sends are those that the lengths of the messages make due. With
/// `lemma_every_window_is_acknowledged` this says how many there are at least
/// and what they carry.
pub proof fn lemma_client_acknowledges_every_window(
    c: ClientModel,
    window: u32,
    inputs: Seq<(PayloadModel, MessageModel)>,
)
    requires
        c.peer_window_ack_size == Some(window),
        forall|i: int|
            0 <= i < inputs.len() ==> !((#[trigger] inputs[i]).1 is WindowAcknowledgement)
                && !(inputs[i].1 is Amf0Command),
    ensures
        client_acknowledgements(c, inputs) == acknowledged_counts(
            client_flow(c),
            window,
            body_lengths(inputs),
        ),
    decreases inputs.len(),
{
    if inputs.len() > 0 {
        let outcome = client::on_payload(c, inputs[0].0, inputs[0].1);
        let rest = inputs.skip(1);
        lemma_client_acknowledges(c, window, inputs[0].0, inputs[0].1);
        assert(outcome.result is Ok);
        assert forall|i: int| 0 <= i < rest.len() implies !((#[trigger] rest[i]).1
            is WindowAcknowledgement) && !(rest[i].1 is Amf0Command) by {
            assert(rest[i] == inputs[i + 1]);
        }
        lemma_client_acknowledges_every_window(outcome.client, window, rest);
        assert(body_lengths(inputs).skip(1) =~= body_lengths(rest));
        assert(body_lengths(inputs)[0] == inputs[0].0.data.len());
    }
}

/// The sequence numbers of the acknowledgements that a server sends while it
/// handles messages one after another.
pub open spec fn server_acknowledgements(
    s: ServerModel,
    inputs: Seq<(PayloadModel, MessageModel)>,
) -> Seq<u32>
    decreases inputs.len(),
{
    if inputs.len() == 0 {
        Seq::empty()
    } else {
        let outcome = server::on_payload(s, inputs[0].0, inputs[0].1);
        match outcome.result {
            Err(_) => Seq::empty(),
            Ok(actions) => {
                let later = server_acknowledgements(outcome.server, inputs.skip(1));
                if actions.len() >= 1 && acknowledged_by(actions[0]) is Some {
                    seq![acknowledged_by(actions[0])->Some_0] + later
                } else {
                    later
                }
            },
        }
    }
}

/// A server acknowledges as the windowing rule says, message after message.
///
/// Under a window that the client announced, and as long as no message
/// changes the window, the acknowledgements that the server sends are those
/// that the lengths of the messages make due.
pub proof fn lemma_server_acknowledges_every_window(
    s: ServerModel,
    window: u32,
    inputs: Seq<(PayloadModel, MessageModel)>,
)
    requires
        s.peer_window_ack_size == Some(window),
        forall|i: int|
            0 <= i < inputs.len() ==> !((#[trigger] inputs[i]).1 is WindowAcknowledgement),
    ensures
        server_acknowledgements(s, inputs) == acknowledged_counts(
            server_flow(s),
            window,
            body_lengths(inputs),
        ),
    decreases inputs.len(),
{
    if inputs.len() > 0 {
        let outcome = server::on_payload(s, inputs[0].0, inputs[0].1);
        let rest = inputs.skip(1);
        lemma_server_acknowledges(s, window, inputs[0].0, inputs[0].1);
        assert(outcome.result is Ok);
        assert forall|i: int| 0 <= i < rest.len() implies !((#[trigger] rest[i]).1
            is WindowAcknowledgement) by {
            assert(rest[i] == inputs[i + 1]);
        }
        lemma_server_acknowledges_every_window(outcome.server, window, rest);
        assert(body_lengths(inputs).skip(1) =~= body_lengths(rest));
        assert(body_lengths(inputs)[0] == inputs[0].0.data.len());
    }
}

} // verus!
