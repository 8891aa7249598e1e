//! What holds of the message codecs taken together.

use crate::messages::message_payload::{has_codec, is_body_of, message_of};
use crate::messages::types::{amf0_command, set_chunk_size, user_control};
use crate::messages::{field32, MessageDeserializationErrorKind, MessageModel};
use crate::wire::{be16, be16_bytes, be32_bytes, lemma_read_of_written};
use vstd::prelude::*;

verus! {

/// Whether a message is one that reading a body can give: a chunk size has 31
/// bits, a user control message holds the fields that its event carries and
/// no others, and an unknown message has a type id without a codec.
pub open spec fn readable(message: MessageModel) -> bool {
    match message {
        MessageModel::SetChunkSize { size } => size <= set_chunk_size::MAX_SIZE,
        MessageModel::UserControl { event_type, stream_id, buffer_length, timestamp } => {
            if user_control::is_stream_event(event_type) {
                stream_id is Some && buffer_length is None && timestamp is None
            } else if user_control::is_ping(event_type) {
                stream_id is None && buffer_length is None && timestamp is Some
            } else {
                stream_id is Some && buffer_length is Some && timestamp is None
            }
        },
        MessageModel::Unknown { type_id, .. } => !has_codec(type_id),
        _ => true,
    }
}

/// A field of 32 bits reads as what was written there, whatever stands
/// before and after it.
pub proof fn lemma_field_of_written(before: Seq<u8>, value: u32, after: Seq<u8>)
    ensures
        field32(before + be32_bytes(value as int) + after, before.len() as int) == value,
{
    let whole = before + be32_bytes(value as int) + after;
    let at = before.len() as int;
    assert(whole.subrange(at, at + 4) =~= be32_bytes(value as int));
    lemma_read_of_written(value as int);
}

/// Round trip of a message through its body: a body of a readable message,
/// read under the message's type id, gives the message again.
///
/// With the contracts of `MessagePayload::from_rtmp_message` and
/// `MessagePayload::to_rtmp_message` this says that a readable message written
/// to a payload and read back is unchanged.
pub proof fn lemma_message_round_trip(message: MessageModel, data: Seq<u8>)
    requires
        is_body_of(data, message),
        readable(message),
    ensures
        message_of(message.type_id(), data) == Ok::<
            MessageModel,
            MessageDeserializationErrorKind,
        >(message),
{
    let empty = Seq::<u8>::empty();
    match message {
        MessageModel::Abort { stream_id } => {
            lemma_field_of_written(empty, stream_id, empty);
            assert(data =~= empty + be32_bytes(stream_id as int) + empty);
        },
        MessageModel::Acknowledgement { sequence_number } => {
            lemma_field_of_written(empty, sequence_number, empty);
            assert(data =~= empty + be32_bytes(sequence_number as int) + empty);
        },
        MessageModel::WindowAcknowledgement { size } => {
            lemma_field_of_written(empty, size, empty);
            assert(data =~= empty + be32_bytes(size as int) + empty);
        },
        MessageModel::SetChunkSize { size } => {
            lemma_field_of_written(empty, size, empty);
            assert(data =~= empty + be32_bytes(size as int) + empty);
        },
        MessageModel::SetPeerBandwidth { size, limit_type } => {
            let code = seq![crate::messages::types::set_peer_bandwidth::limit_code(limit_type)];
            lemma_field_of_written(empty, size, code);
            assert(data =~= empty + be32_bytes(size as int) + code);
        },
        MessageModel::UserControl { event_type, stream_id, buffer_length, timestamp } => {
            let code = user_control::event_code(event_type);
            let head = be16_bytes(code as int);
            lemma_read_of_written(code as int);
            assert(be16(data) == code);
            if user_control::is_stream_event(event_type) {
                let id = stream_id.unwrap();
                lemma_field_of_written(head, id, empty);
                assert(data =~= head + be32_bytes(id as int) + empty);
            } else if user_control::is_ping(event_type) {
                let time = timestamp.unwrap();
                lemma_field_of_written(head, time.value, empty);
                assert(data =~= head + be32_bytes(time.value as int) + empty);
            } else {
                let id = stream_id.unwrap();
                let length = buffer_length.unwrap();
                lemma_field_of_written(head, id, be32_bytes(length as int));
                lemma_field_of_written(head + be32_bytes(id as int), length, empty);
                assert(data =~= head + be32_bytes(id as int) + be32_bytes(length as int));
                assert(data =~= head + be32_bytes(id as int) + be32_bytes(length as int) + empty);
            }
        },
        MessageModel::Amf0Command {
            command_name,
            transaction_id,
            command_object,
            additional_arguments,
        } => {
            let values = amf0_command::command_values(
                command_name,
                transaction_id,
                command_object,
                additional_arguments,
            );
            assert(values.subrange(3, values.len() as int) =~= additional_arguments);
        },
        _ => {},
    }
}

/// An unknown message keeps its type id and its bytes on the way into a
/// payload, whatever the type id is.
pub proof fn lemma_unknown_passes_through(type_id: u8, bytes: Seq<u8>, data: Seq<u8>)
    requires
        is_body_of(data, MessageModel::Unknown { type_id, data: bytes }),
    ensures
        data == bytes,
        (MessageModel::Unknown { type_id, data: bytes }).type_id() == type_id,
{
}

/// A body flagged as AMF3 data (type 15) reads as the AMF0 data (type 18) that
/// it is.
pub proof fn lemma_amf3_data_reads_as_amf0(data: Seq<u8>)
    ensures
        message_of(15, data) == message_of(18, data),
{
}

/// A body flagged as an AMF3 command (type 17) reads as the AMF0 command
/// (type 20) that follows its leading zero byte.
pub proof fn lemma_amf3_command_reads_as_amf0(data: Seq<u8>)
    ensures
        message_of(17, seq![0u8] + data) == message_of(20, data),
{
    let flagged = seq![0u8] + data;
    assert(flagged.subrange(1, flagged.len() as int) =~= data);
}

/// An AMF0 body flagged as AMF3 still reads as the message it was written for:
/// a data message under type 15, and a command under type 17 behind a zero byte.
pub proof fn lemma_amf3_flagged_round_trip(message: MessageModel, data: Seq<u8>)
    requires
        is_body_of(data, message),
    ensures
        message is Amf0Data ==> message_of(15, data) == Ok::<
            MessageModel,
            MessageDeserializationErrorKind,
        >(message),
        message is Amf0Command ==> message_of(17, seq![0u8] + data) == Ok::<
            MessageModel,
            MessageDeserializationErrorKind,
        >(message),
{
    if message is Amf0Data {
        lemma_message_round_trip(message, data);
    }
    if message is Amf0Command {
        lemma_message_round_trip(message, data);
        lemma_amf3_command_reads_as_amf0(data);
    }
}

/// The top bit of a chunk size on the wire is ignored: a word reads as its low
/// 31 bits.
pub proof fn lemma_chunk_size_top_bit_ignored(word: u32)
    ensures
        set_chunk_size::parsed(be32_bytes(word as int)) == Ok::<
            MessageModel,
            MessageDeserializationErrorKind,
        >(MessageModel::SetChunkSize { size: (word % 0x8000_0000) as u32 }),
{
    let empty = Seq::<u8>::empty();
    lemma_field_of_written(empty, word, empty);
    assert(be32_bytes(word as int) =~= empty + be32_bytes(word as int) + empty);
}

} // verus!
