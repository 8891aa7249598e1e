use byteorder::{BigEndian, WriteBytesExt};
use rml_rtmp::messages::types::abort::{deserialize, serialize};
use rml_rtmp::messages::{MessageDeserializationErrorKind, RtmpMessage};
use std::io::Cursor;

#[test]
fn can_serialize_message() {
    let id = 523;
    let mut cursor = Cursor::new(Vec::new());
    cursor.write_u32::<BigEndian>(id).unwrap();
    let expected = cursor.into_inner();

    let raw_message = serialize(id).unwrap();

    assert_eq!(raw_message, expected);
}

#[test]
fn can_deserialize_message() {
    let id = 532;
    let expected = RtmpMessage::Abort { stream_id: id };

    let mut cursor = Cursor::new(Vec::new());
    cursor.write_u32::<BigEndian>(id).unwrap();

    let result = deserialize(&cursor.into_inner()[..]).unwrap();
    assert_eq!(result, expected);
}

#[test]
fn abort_body_is_four_big_endian_bytes() {
    assert_eq!(serialize(0x0102_0304).unwrap(), vec![1, 2, 3, 4]);
    assert_eq!(
        deserialize(&[1, 2, 3, 4]).unwrap(),
        RtmpMessage::Abort { stream_id: 0x0102_0304 }
    );
}

#[test]
fn abort_ignores_bytes_after_the_stream_id() {
    assert_eq!(
        deserialize(&[0, 0, 0, 9, 77, 78]).unwrap(),
        RtmpMessage::Abort { stream_id: 9 }
    );
}

#[test]
fn abort_refuses_a_truncated_body() {
    let error = deserialize(&[0, 0, 1]).unwrap_err();
    assert_eq!(error.kind, MessageDeserializationErrorKind::IoShort);
    let error = deserialize(&[]).unwrap_err();
    assert_eq!(error.kind, MessageDeserializationErrorKind::IoShort);
}
