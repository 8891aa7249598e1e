//! User control: events of a stream, and pings.

use crate::messages::{agrees, field32, read_field32};
use crate::messages::{MessageDeserializationError, MessageDeserializationErrorKind};
use crate::messages::{MessageModel, MessageSerializationError, MessageSerializationErrorKind};
use crate::messages::{Parsed, RtmpMessage, UserControlEventType};
use crate::time::RtmpTimestamp;
use crate::wire::{append, be16, be16_bytes, be32_bytes, read_be16, write_be16, write_be32};
use vstd::prelude::*;

verus! {

/// The number that stands for an event type.
pub open spec fn event_code(event_type: UserControlEventType) -> u16 {
    match event_type {
        UserControlEventType::StreamBegin => 0,
        UserControlEventType::StreamEof => 1,
        UserControlEventType::StreamDry => 2,
        UserControlEventType::SetBufferLength => 3,
        UserControlEventType::StreamIsRecorded => 4,
        UserControlEventType::PingRequest => 6,
        UserControlEventType::PingResponse => 7,
    }
}

/// The event type that a number stands for, if any.
pub open spec fn event_of_code(code: int) -> Option<UserControlEventType> {
    if code == 0 {
        Some(UserControlEventType::StreamBegin)
    } else if code == 1 {
        Some(UserControlEventType::StreamEof)
    } else if code == 2 {
        Some(UserControlEventType::StreamDry)
    } else if code == 3 {
        Some(UserControlEventType::SetBufferLength)
    } else if code == 4 {
        Some(UserControlEventType::StreamIsRecorded)
    } else if code == 6 {
        Some(UserControlEventType::PingRequest)
    } else if code == 7 {
        Some(UserControlEventType::PingResponse)
    } else {
        None
    }
}

/// Whether the event speaks of a stream and carries nothing but its id.
pub open spec fn is_stream_event(event_type: UserControlEventType) -> bool {
    event_type == UserControlEventType::StreamBegin || event_type
        == UserControlEventType::StreamEof || event_type == UserControlEventType::StreamDry
        || event_type == UserControlEventType::StreamIsRecorded
}

/// Whether the event is a ping or its answer, which carry a timestamp.
pub open spec fn is_ping(event_type: UserControlEventType) -> bool {
    event_type == UserControlEventType::PingRequest || event_type
        == UserControlEventType::PingResponse
}

/// The body of a user control message: the event's number in 16 bits, then
/// the fields that the event carries, each in 32 bits. `None` where one of
/// those fields is missing. A field that the event does not carry is left out.
pub open spec fn body(
    event_type: UserControlEventType,
    stream_id: Option<u32>,
    buffer_length: Option<u32>,
    timestamp: Option<RtmpTimestamp>,
) -> Option<Seq<u8>> {
    let head = be16_bytes(event_code(event_type) as int);
    if is_stream_event(event_type) {
        match stream_id {
            Some(id) => Some(head + be32_bytes(id as int)),
            None => None,
        }
    } else if is_ping(event_type) {
        match timestamp {
            Some(time) => Some(head + be32_bytes(time.value as int)),
            None => None,
        }
    } else {
        match (stream_id, buffer_length) {
            (Some(id), Some(length)) => Some(
                head + be32_bytes(id as int) + be32_bytes(length as int),
            ),
            _ => None,
        }
    }
}

/// The message with the fields that `event_type` carries, and no others.
pub open spec fn event_message(event_type: UserControlEventType, first: u32, second: u32)
    -> MessageModel {
    if is_stream_event(event_type) {
        MessageModel::UserControl {
            event_type,
            stream_id: Some(first),
            buffer_length: None,
            timestamp: None,
        }
    } else if is_ping(event_type) {
        MessageModel::UserControl {
            event_type,
            stream_id: None,
            buffer_length: None,
            timestamp: Some(RtmpTimestamp { value: first }),
        }
    } else {
        MessageModel::UserControl {
            event_type,
            stream_id: Some(first),
            buffer_length: Some(second),
            timestamp: None,
        }
    }
}

/// The length of the body of an event of this type.
pub open spec fn body_len(event_type: UserControlEventType) -> int {
    if event_type == UserControlEventType::SetBufferLength {
        10
    } else {
        6
    }
}

/// What a body reads as. Bytes after the event's last field are ignored.
pub open spec fn parsed(data: Seq<u8>) -> Parsed {
    if data.len() < 2 {
        Err(MessageDeserializationErrorKind::IoShort)
    } else {
        match event_of_code(be16(data)) {
            None => Err(MessageDeserializationErrorKind::InvalidUserControlEventType),
            Some(event_type) => if data.len() < body_len(event_type) {
                Err(MessageDeserializationErrorKind::IoShort)
            } else if event_type == UserControlEventType::SetBufferLength {
                Ok(event_message(event_type, field32(data, 2), field32(data, 6)))
            } else {
                Ok(event_message(event_type, field32(data, 2), 0))
            },
        }
    }
}

/// Fails exactly where a field that the event carries is `None`.
pub fn serialize(
    event_type: UserControlEventType,
    stream_id: Option<u32>,
    buffer_length: Option<u32>,
    timestamp: Option<RtmpTimestamp>,
) -> (r: Result<Vec<u8>, MessageSerializationError>)
    ensures
        match r {
            Ok(bytes) => body(event_type, stream_id, buffer_length, timestamp) == Some(bytes@),
            Err(e) => body(event_type, stream_id, buffer_length, timestamp) is None && e.kind
                == MessageSerializationErrorKind::InvalidMessageFormat,
        },
{
    let missing = MessageSerializationError {
        kind: MessageSerializationErrorKind::InvalidMessageFormat,
    };
    let mut bytes: Vec<u8> = Vec::new();
    match event_type {
        UserControlEventType::StreamBegin => match stream_id {
            Some(id) => write_event(&mut bytes, 0, id),
            None => return Err(missing),
        },
        UserControlEventType::StreamEof => match stream_id {
            Some(id) => write_event(&mut bytes, 1, id),
            None => return Err(missing),
        },
        UserControlEventType::StreamDry => match stream_id {
            Some(id) => write_event(&mut bytes, 2, id),
            None => return Err(missing),
        },
        UserControlEventType::StreamIsRecorded => match stream_id {
            Some(id) => write_event(&mut bytes, 4, id),
            None => return Err(missing),
        },
        UserControlEventType::PingRequest => match timestamp {
            Some(time) => write_event(&mut bytes, 6, time.value),
            None => return Err(missing),
        },
        UserControlEventType::PingResponse => match timestamp {
            Some(time) => write_event(&mut bytes, 7, time.value),
            None => return Err(missing),
        },
        UserControlEventType::SetBufferLength => match (stream_id, buffer_length) {
            (Some(id), Some(length)) => {
                write_event(&mut bytes, 3, id);
                let field = write_be32(length);
                append(&mut bytes, field.as_slice());
            },
            _ => return Err(missing),
        },
    }
    Ok(bytes)
}

/// Appends an event's number and its first field.
fn write_event(bytes: &mut Vec<u8>, code: u16, field: u32)
    ensures
        final(bytes)@ == old(bytes)@ + be16_bytes(code as int) + be32_bytes(field as int),
{
    let head = write_be16(code);
    append(bytes, head.as_slice());
    let value = write_be32(field);
    append(bytes, value.as_slice());
}

pub fn deserialize(data: &[u8]) -> (r: Result<RtmpMessage, MessageDeserializationError>)
    ensures
        agrees(r, parsed(data@)),
{
    let short = MessageDeserializationError { kind: MessageDeserializationErrorKind::IoShort };
    if data.len() < 2 {
        return Err(short);
    }
    let code = read_be16(data);
    let event_type = if code == 0 {
        UserControlEventType::StreamBegin
    } else if code == 1 {
        UserControlEventType::StreamEof
    } else if code == 2 {
        UserControlEventType::StreamDry
    } else if code == 3 {
        UserControlEventType::SetBufferLength
    } else if code == 4 {
        UserControlEventType::StreamIsRecorded
    } else if code == 6 {
        UserControlEventType::PingRequest
    } else if code == 7 {
        UserControlEventType::PingResponse
    } else {
        return Err(
            MessageDeserializationError {
                kind: MessageDeserializationErrorKind::InvalidUserControlEventType,
            },
        );
    };
    if data.len() < 6 {
        return Err(short);
    }
    let first = read_field32(data, 2);
    match event_type {
        UserControlEventType::SetBufferLength => {
            if data.len() < 10 {
                return Err(short);
            }
            let second = read_field32(data, 6);
            Ok(
                RtmpMessage::UserControl {
                    event_type,
                    stream_id: Some(first),
                    buffer_length: Some(second),
                    timestamp: None,
                },
            )
        },
        UserControlEventType::PingRequest | UserControlEventType::PingResponse => Ok(
            RtmpMessage::UserControl {
                event_type,
                stream_id: None,
                buffer_length: None,
                timestamp: Some(RtmpTimestamp::new(first)),
            },
        ),
        _ => Ok(
            RtmpMessage::UserControl {
                event_type,
                stream_id: Some(first),
                buffer_length: None,
                timestamp: None,
            },
        ),
    }
}

} // verus!
