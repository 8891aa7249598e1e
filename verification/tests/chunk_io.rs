use rml_rtmp::chunk_io::{ChunkDeserializationErrorKind, ChunkDeserializer};
use rml_rtmp::chunk_io::{ChunkSerializationErrorKind, ChunkSerializer};
use rml_rtmp::messages::message_payload::MessagePayload;
use rml_rtmp::messages::RtmpMessage;
use rml_rtmp::time::RtmpTimestamp;

fn payload(type_id: u8, timestamp: u32, message_stream_id: u32, data: Vec<u8>) -> MessagePayload {
    MessagePayload { timestamp: RtmpTimestamp::new(timestamp), type_id, message_stream_id, data }
}

fn pattern(len: usize) -> Vec<u8> {
    (0..len).map(|i| (i % 251) as u8).collect()
}

fn read_all(deserializer: &mut ChunkDeserializer, bytes: &[u8]) -> Vec<MessagePayload> {
    let mut messages = Vec::new();
    let mut next = deserializer.get_next_message(bytes).unwrap();
    while let Some(message) = next {
        messages.push(message);
        next = deserializer.get_next_message(&[]).unwrap();
    }
    messages
}

#[test]
fn small_message_has_a_full_header_and_one_chunk() {
    let mut serializer = ChunkSerializer::new();
    let message = payload(2, 5, 0, vec![0, 0, 0, 9]);
    let packet = serializer.serialize(&message, false, false).unwrap();
    assert_eq!(
        packet.bytes,
        vec![0x02, 0, 0, 5, 0, 0, 4, 2, 0, 0, 0, 0, 0, 0, 0, 9]
    );
    assert!(!packet.can_be_dropped);
}

#[test]
fn message_stream_id_is_written_little_endian() {
    let mut serializer = ChunkSerializer::new();
    let message = payload(9, 0x010203, 0x0A0B0C0D, vec![7]);
    let packet = serializer.serialize(&message, false, true).unwrap();
    assert_eq!(
        packet.bytes,
        vec![0x07, 1, 2, 3, 0, 0, 1, 9, 0x0D, 0x0C, 0x0B, 0x0A, 7]
    );
    assert!(packet.can_be_dropped);
}

#[test]
fn chunk_stream_ids_follow_the_message_type() {
    let expected = [(1u8, 2u8), (4, 2), (6, 2), (18, 3), (20, 5), (8, 6), (9, 7), (33, 4)];
    for (type_id, csid) in expected {
        let mut serializer = ChunkSerializer::new();
        let packet = serializer.serialize(&payload(type_id, 0, 0, vec![1]), false, false).unwrap();
        assert_eq!(packet.bytes[0], csid, "type {}", type_id);
    }
}

#[test]
fn serialized_message_reads_back() {
    let mut serializer = ChunkSerializer::new();
    let mut deserializer = ChunkDeserializer::new();
    let message = payload(8, 1234, 7, pattern(50));
    let packet = serializer.serialize(&message, false, false).unwrap();
    let result = deserializer.get_next_message(&packet.bytes).unwrap().unwrap();
    assert_eq!(result, message);
    assert_eq!(deserializer.get_next_message(&[]).unwrap(), None);
}

#[test]
fn body_of_exactly_one_chunk_has_no_continuation() {
    let mut serializer = ChunkSerializer::new();
    let mut deserializer = ChunkDeserializer::new();
    let message = payload(8, 10, 1, pattern(128));
    let packet = serializer.serialize(&message, false, false).unwrap();
    assert_eq!(packet.bytes.len(), 12 + 128);
    let result = deserializer.get_next_message(&packet.bytes).unwrap().unwrap();
    assert_eq!(result, message);
}

#[test]
fn body_of_three_whole_chunks_has_two_continuations() {
    let mut serializer = ChunkSerializer::new();
    let mut deserializer = ChunkDeserializer::new();
    let message = payload(9, 10, 1, pattern(384));
    let packet = serializer.serialize(&message, false, false).unwrap();
    assert_eq!(packet.bytes.len(), 12 + 128 + 1 + 128 + 1 + 128);
    assert_eq!(packet.bytes[0], 0x07);
    assert_eq!(packet.bytes[12 + 128], 0xC7);
    assert_eq!(packet.bytes[12 + 128 + 1 + 128], 0xC7);
    let result = deserializer.get_next_message(&packet.bytes).unwrap().unwrap();
    assert_eq!(result, message);
}

#[test]
fn empty_message_is_one_chunk_without_body() {
    let mut serializer = ChunkSerializer::new();
    let mut deserializer = ChunkDeserializer::new();
    let message = payload(8, 3, 1, vec![]);
    let packet = serializer.serialize(&message, false, false).unwrap();
    assert_eq!(packet.bytes.len(), 12);
    let result = deserializer.get_next_message(&packet.bytes).unwrap().unwrap();
    assert_eq!(result, message);
}

#[test]
fn chunks_after_set_max_chunk_size_hold_no_more_than_the_new_size() {
    let mut serializer = ChunkSerializer::new();
    let mut deserializer = ChunkDeserializer::new();
    assert_eq!(serializer.set_max_chunk_size(10, false).unwrap(), None);
    deserializer.set_max_chunk_size(10).unwrap();
    let message = payload(8, 0, 1, pattern(25));
    let packet = serializer.serialize(&message, false, false).unwrap();
    // 12 + 10, then 1 + 10, then 1 + 5
    assert_eq!(packet.bytes.len(), 12 + 10 + 1 + 10 + 1 + 5);
    assert_eq!(packet.bytes[22], 0xC6);
    assert_eq!(packet.bytes[33], 0xC6);
    let result = deserializer.get_next_message(&packet.bytes).unwrap().unwrap();
    assert_eq!(result, message);
}

#[test]
fn forced_set_max_chunk_size_gives_the_packet_for_the_peer() {
    let mut serializer = ChunkSerializer::new();
    let mut deserializer = ChunkDeserializer::new();
    let packet = serializer.set_max_chunk_size(4096, true).unwrap().unwrap();
    assert!(!packet.can_be_dropped);
    assert_eq!(
        packet.bytes,
        vec![0x02, 0, 0, 0, 0, 0, 4, 1, 0, 0, 0, 0, 0, 0, 0x10, 0]
    );
    let message = deserializer.get_next_message(&packet.bytes).unwrap().unwrap();
    assert_eq!(
        message.to_rtmp_message().unwrap(),
        RtmpMessage::SetChunkSize { size: 4096 }
    );
    deserializer.set_max_chunk_size(4096).unwrap();
    let large = payload(9, 0, 1, pattern(4096));
    let packet = serializer.serialize(&large, false, false).unwrap();
    assert_eq!(packet.bytes.len(), 12 + 4096);
    assert_eq!(deserializer.get_next_message(&packet.bytes).unwrap().unwrap(), large);
}

#[test]
fn chunk_size_of_zero_or_of_32_bits_is_refused() {
    let mut serializer = ChunkSerializer::new();
    let error = serializer.set_max_chunk_size(0, true).unwrap_err();
    assert_eq!(error.kind, ChunkSerializationErrorKind::InvalidChunkSize);
    let error = serializer.set_max_chunk_size(0x8000_0000, false).unwrap_err();
    assert_eq!(error.kind, ChunkSerializationErrorKind::InvalidChunkSize);
    assert!(serializer.set_max_chunk_size(0x7FFF_FFFF, false).is_ok());

    let mut deserializer = ChunkDeserializer::new();
    let error = deserializer.set_max_chunk_size(0).unwrap_err();
    assert_eq!(error.kind, ChunkDeserializationErrorKind::InvalidChunkSize);
    let error = deserializer.set_max_chunk_size(0x8000_0000).unwrap_err();
    assert_eq!(error.kind, ChunkDeserializationErrorKind::InvalidChunkSize);
    assert!(deserializer.set_max_chunk_size(0x7FFF_FFFF).is_ok());
}

#[test]
fn message_of_more_than_24_bits_is_refused() {
    let mut serializer = ChunkSerializer::new();
    let error = serializer
        .serialize(&payload(9, 0, 1, vec![0; 0x100_0000]), false, false)
        .unwrap_err();
    assert_eq!(error.kind, ChunkSerializationErrorKind::MessageTooLarge);
    assert!(serializer.serialize(&payload(9, 0, 1, vec![0; 0xFF_FFFF]), false, false).is_ok());
}

#[test]
fn headers_shrink_as_far_as_the_last_message_allows() {
    let mut serializer = ChunkSerializer::new();
    let mut deserializer = ChunkDeserializer::new();
    let messages = vec![
        payload(8, 100, 1, pattern(10)), // nothing before: format 0
        payload(8, 120, 1, pattern(11)), // another length: format 1
        payload(8, 150, 1, pattern(11)), // another step: format 2
        payload(8, 180, 1, pattern(11)), // the same step: format 3
        payload(8, 200, 2, pattern(11)), // another message stream: format 0
    ];
    let formats = [0u8, 1, 2, 3, 0];
    let lengths = [12 + 10, 8 + 11, 4 + 11, 1 + 11, 12 + 11];
    for (i, message) in messages.iter().enumerate() {
        let packet = serializer.serialize(message, false, false).unwrap();
        assert_eq!(packet.bytes[0] >> 6, formats[i], "message {}", i);
        assert_eq!(packet.bytes[0] & 0x3F, 6);
        assert_eq!(packet.bytes.len(), lengths[i], "message {}", i);
        let result = deserializer.get_next_message(&packet.bytes).unwrap().unwrap();
        assert_eq!(&result, message, "message {}", i);
    }
}

#[test]
fn forced_header_is_full() {
    let mut serializer = ChunkSerializer::new();
    let first = payload(8, 100, 1, pattern(10));
    serializer.serialize(&first, false, false).unwrap();
    let packet = serializer.serialize(&payload(8, 130, 1, pattern(10)), true, false).unwrap();
    assert_eq!(packet.bytes[0], 0x06);
    assert_eq!(packet.bytes.len(), 12 + 10);
}

#[test]
fn extended_timestamp_is_repeated_in_continuation_chunks() {
    let mut serializer = ChunkSerializer::new();
    let mut deserializer = ChunkDeserializer::new();
    let message = payload(9, 0x0100_0000, 1, pattern(300));
    let packet = serializer.serialize(&message, false, false).unwrap();
    // 1 + 11 + 4 + 128, then twice 1 + 4 + body
    assert_eq!(packet.bytes.len(), 16 + 128 + 5 + 128 + 5 + 44);
    assert_eq!(&packet.bytes[1..4], &[0xFF, 0xFF, 0xFF]);
    assert_eq!(&packet.bytes[12..16], &[1, 0, 0, 0]);
    assert_eq!(packet.bytes[144], 0xC7);
    assert_eq!(&packet.bytes[145..149], &[1, 0, 0, 0]);
    assert_eq!(packet.bytes[277], 0xC7);
    assert_eq!(&packet.bytes[278..282], &[1, 0, 0, 0]);
    let result = deserializer.get_next_message(&packet.bytes).unwrap().unwrap();
    assert_eq!(result, message);
}

#[test]
fn continuation_chunks_have_no_extended_timestamp_without_need() {
    let mut serializer = ChunkSerializer::new();
    let message = payload(9, 0x00FF_FFFE, 1, pattern(300));
    let packet = serializer.serialize(&message, false, false).unwrap();
    assert_eq!(packet.bytes.len(), 12 + 128 + 1 + 128 + 1 + 44);
}

#[test]
fn extended_delta_reads_back() {
    let mut serializer = ChunkSerializer::new();
    let mut deserializer = ChunkDeserializer::new();
    let first = payload(8, 10, 1, pattern(200));
    let second = payload(8, 10 + 0x0200_0000, 1, pattern(200));
    let third = payload(8, 10 + 0x0400_0000, 1, pattern(200));
    for message in [first, second, third] {
        let packet = serializer.serialize(&message, false, false).unwrap();
        let result = deserializer.get_next_message(&packet.bytes).unwrap().unwrap();
        assert_eq!(result, message);
    }
}

#[test]
fn timestamp_wraps_over_two_deltas() {
    let mut deserializer = ChunkDeserializer::new();
    let mut bytes = vec![0x06, 0xFF, 0xFF, 0xFF, 0, 0, 1, 8, 1, 0, 0, 0, 0xFF, 0xFF, 0xFF, 0x00, 42];
    bytes.extend_from_slice(&[0x46, 0, 0, 0x80, 0, 0, 1, 8, 43]);
    bytes.extend_from_slice(&[0x46, 0, 1, 0x00, 0, 0, 1, 8, 44]);
    let messages = read_all(&mut deserializer, &bytes);
    assert_eq!(messages.len(), 3);
    assert_eq!(messages[0].timestamp, 0xFFFF_FF00);
    assert_eq!(messages[1].timestamp, 0xFFFF_FF80);
    assert_eq!(messages[2].timestamp, 0x0000_0080);
    assert_eq!(messages[2].data, vec![44]);
}

#[test]
fn serializer_steps_back_over_the_wrap() {
    let mut serializer = ChunkSerializer::new();
    let mut deserializer = ChunkDeserializer::new();
    let messages = vec![
        payload(8, 0xFFFF_FFF0, 1, pattern(5)),
        payload(8, 0x0000_0010, 1, pattern(6)),
        payload(8, 0x0000_0005, 1, pattern(6)),
    ];
    for message in messages {
        let packet = serializer.serialize(&message, false, false).unwrap();
        let result = deserializer.get_next_message(&packet.bytes).unwrap().unwrap();
        assert_eq!(result, message);
    }
}

#[test]
fn format_3_starts_a_message_with_the_step_of_the_last() {
    let mut deserializer = ChunkDeserializer::new();
    let mut bytes = vec![0x06, 0, 0, 100, 0, 0, 1, 8, 1, 0, 0, 0, 1];
    bytes.extend_from_slice(&[0x86, 0, 0, 20, 2]);
    bytes.extend_from_slice(&[0xC6, 3]);
    let messages = read_all(&mut deserializer, &bytes);
    assert_eq!(messages.len(), 3);
    assert_eq!(messages[1].timestamp, 120);
    assert_eq!(messages[2].timestamp, 140);
    assert_eq!(messages[2].type_id, 8);
    assert_eq!(messages[2].message_stream_id, 1);
    assert_eq!(messages[2].data, vec![3]);
}

#[test]
fn one_byte_fed_completes_at_most_one_message() {
    let mut serializer = ChunkSerializer::new();
    let mut deserializer = ChunkDeserializer::new();
    let mut stream = Vec::new();
    let sent = vec![
        payload(8, 1, 1, pattern(3)),
        payload(9, 2, 1, vec![]),
        payload(8, 3, 1, pattern(200)),
        payload(20, 4, 0, pattern(1)),
    ];
    for message in &sent {
        stream.extend_from_slice(&serializer.serialize(message, false, false).unwrap().bytes);
    }
    let mut received = Vec::new();
    for byte in &stream {
        let first = deserializer.get_next_message(&[*byte]).unwrap();
        let second = deserializer.get_next_message(&[]).unwrap();
        assert_eq!(second, None);
        if let Some(message) = first {
            received.push(message);
        }
    }
    assert_eq!(received, sent);
}

#[test]
fn interleaved_chunk_streams_are_put_together() {
    let mut deserializer = ChunkDeserializer::new();
    deserializer.set_max_chunk_size(2).unwrap();
    let mut bytes = vec![0x06, 0, 0, 1, 0, 0, 3, 8, 1, 0, 0, 0, 10, 11];
    bytes.extend_from_slice(&[0x07, 0, 0, 2, 0, 0, 3, 9, 1, 0, 0, 0, 20, 21]);
    bytes.extend_from_slice(&[0xC6, 12]);
    bytes.extend_from_slice(&[0xC7, 22]);
    let messages = read_all(&mut deserializer, &bytes);
    assert_eq!(messages.len(), 2);
    assert_eq!(messages[0], payload(8, 1, 1, vec![10, 11, 12]));
    assert_eq!(messages[1], payload(9, 2, 1, vec![20, 21, 22]));
}

#[test]
fn two_and_three_byte_basic_headers_are_read() {
    let mut deserializer = ChunkDeserializer::new();
    let mut bytes = vec![0x00, 6, 0, 0, 1, 0, 0, 1, 8, 1, 0, 0, 0, 10];
    bytes.extend_from_slice(&[0x01, 1, 2, 0, 0, 2, 0, 0, 1, 9, 1, 0, 0, 0, 20]);
    bytes.extend_from_slice(&[0xC0, 6, 11]);
    bytes.extend_from_slice(&[0xC1, 1, 2, 21]);
    let messages = read_all(&mut deserializer, &bytes);
    assert_eq!(messages.len(), 4);
    assert_eq!(messages[2], payload(8, 1, 1, vec![11]));
    assert_eq!(messages[3], payload(9, 2, 1, vec![21]));
}

#[test]
fn chunk_without_an_earlier_header_is_refused() {
    let mut deserializer = ChunkDeserializer::new();
    let error = deserializer.get_next_message(&[0xC6, 1, 2, 3]).unwrap_err();
    assert_eq!(error.kind, ChunkDeserializationErrorKind::MissingPreviousChunkHeader);
    let mut deserializer = ChunkDeserializer::new();
    let error = deserializer.get_next_message(&[0x46]).unwrap_err();
    assert_eq!(error.kind, ChunkDeserializationErrorKind::MissingPreviousChunkHeader);
}

#[test]
fn message_header_in_the_middle_of_a_message_is_refused() {
    let mut deserializer = ChunkDeserializer::new();
    deserializer.set_max_chunk_size(2).unwrap();
    let first = [0x06, 0, 0, 1, 0, 0, 3, 8, 1, 0, 0, 0, 10, 11];
    assert_eq!(deserializer.get_next_message(&first).unwrap(), None);
    let error = deserializer.get_next_message(&[0x86, 0, 0, 1, 12]).unwrap_err();
    assert_eq!(error.kind, ChunkDeserializationErrorKind::InvalidChunkFormat);
}

#[test]
fn partial_input_is_kept_for_the_next_call() {
    let mut serializer = ChunkSerializer::new();
    let mut deserializer = ChunkDeserializer::new();
    let message = payload(18, 77, 3, pattern(300));
    let packet = serializer.serialize(&message, false, false).unwrap();
    let (head, rest) = packet.bytes.split_at(7);
    let (middle, end) = rest.split_at(200);
    assert_eq!(deserializer.get_next_message(head).unwrap(), None);
    assert_eq!(deserializer.get_next_message(middle).unwrap(), None);
    assert_eq!(deserializer.get_next_message(end).unwrap().unwrap(), message);
}
