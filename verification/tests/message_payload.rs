use rml_rtmp::amf0::AmfValue;
use rml_rtmp::messages::message_payload::MessagePayload;
use rml_rtmp::messages::{PeerBandwidthLimitType, RtmpMessage, UserControlEventType};
use rml_rtmp::time::RtmpTimestamp;

#[test]
fn can_get_payload_from_abort_message() {
    let timestamp = RtmpTimestamp::new(55);
    let stream_id = 52;
    let message = RtmpMessage::Abort { stream_id: 23 };
    let result = MessagePayload::from_rtmp_message(message, timestamp, stream_id).unwrap();

    assert_ne!(result.data.len(), 0, "Empty payload data seen");
    assert_eq!(result.type_id, 2, "Incorrect type id");
    assert_eq!(result.message_stream_id, stream_id, "Incorrect message stream id");
    assert_eq!(result.timestamp, 55, "Incorrect timestamp");
}

#[test]
fn can_get_payload_from_acknowledgement_message() {
    let timestamp = RtmpTimestamp::new(55);
    let stream_id = 52;
    let message = RtmpMessage::Acknowledgement { sequence_number: 23 };
    let result = MessagePayload::from_rtmp_message(message, timestamp, stream_id).unwrap();

    assert_ne!(result.data.len(), 0, "Empty payload data seen");
    assert_eq!(result.type_id, 3, "Incorrect type id");
    assert_eq!(result.message_stream_id, stream_id, "Incorrect message stream id");
    assert_eq!(result.timestamp, 55, "Incorrect timestamp");
}

#[test]
fn can_get_payload_from_amf0_command_message() {
    let timestamp = RtmpTimestamp::new(55);
    let stream_id = 52;
    let message = RtmpMessage::Amf0Command {
        command_name: "test".to_string(),
        command_object: AmfValue::Null,
        transaction_id: 23.0f64.to_bits(),
        additional_arguments: vec![]
    };

    let result = MessagePayload::from_rtmp_message(message, timestamp, stream_id).unwrap();

    assert_ne!(result.data.len(), 0, "Empty payload data seen");
    assert_eq!(result.type_id, 20, "Incorrect type id");
    assert_eq!(result.message_stream_id, stream_id, "Incorrect message stream id");
    assert_eq!(result.timestamp, 55, "Incorrect timestamp");
}

#[test]
fn can_get_payload_from_amf0_data_message() {
    let timestamp = RtmpTimestamp::new(55);
    let stream_id = 52;
    let message = RtmpMessage::Amf0Data { values: vec![AmfValue::Number(23.0f64.to_bits())] };
    let result = MessagePayload::from_rtmp_message(message, timestamp, stream_id).unwrap();

    assert_ne!(result.data.len(), 0, "Empty payload data seen");
    assert_eq!(result.type_id, 18, "Incorrect type id");
    assert_eq!(result.message_stream_id, stream_id, "Incorrect message stream id");
    assert_eq!(result.timestamp, 55, "Incorrect timestamp");
}

#[test]
fn can_get_payload_from_audio_data_message() {
    let timestamp = RtmpTimestamp::new(55);
    let stream_id = 52;
    let message = RtmpMessage::AudioData { data: vec![33_u8] };
    let result = MessagePayload::from_rtmp_message(message, timestamp, stream_id).unwrap();

    assert_ne!(result.data.len(), 0, "Empty payload data seen");
    assert_eq!(result.type_id, 8, "Incorrect type id");
    assert_eq!(result.message_stream_id, stream_id, "Incorrect message stream id");
    assert_eq!(result.timestamp, 55, "Incorrect timestamp");
}

#[test]
fn can_get_payload_from_set_chunk_size_message() {
    let timestamp = RtmpTimestamp::new(55);
    let stream_id = 52;
    let message = RtmpMessage::SetChunkSize { size: 33 };
    let result = MessagePayload::from_rtmp_message(message, timestamp, stream_id).unwrap();

    assert_ne!(result.data.len(), 0, "Empty payload data seen");
    assert_eq!(result.type_id, 1, "Incorrect type id");
    assert_eq!(result.message_stream_id, stream_id, "Incorrect message stream id");
    assert_eq!(result.timestamp, 55, "Incorrect timestamp");
}

#[test]
fn can_get_payload_from_set_peer_bandwidth_message() {
    let timestamp = RtmpTimestamp::new(55);
    let stream_id = 52;
    let message = RtmpMessage::SetPeerBandwidth { size:33, limit_type: PeerBandwidthLimitType::Hard };
    let result = MessagePayload::from_rtmp_message(message, timestamp, stream_id).unwrap();

    assert_ne!(result.data.len(), 0, "Empty payload data seen");
    assert_eq!(result.type_id, 6, "Incorrect type id");
    assert_eq!(result.message_stream_id, stream_id, "Incorrect message stream id");
    assert_eq!(result.timestamp, 55, "Incorrect timestamp");
}

#[test]
fn can_get_payload_from_user_control_message() {
    let timestamp = RtmpTimestamp::new(55);
    let stream_id = 52;
    let message = RtmpMessage::UserControl { event_type: UserControlEventType::StreamBegin,
        stream_id: Some(33),
        timestamp: None,
        buffer_length: None
    };

    let result = MessagePayload::from_rtmp_message(message, timestamp, stream_id).unwrap();

    assert_ne!(result.data.len(), 0, "Empty payload data seen");
    assert_eq!(result.type_id, 4, "Incorrect type id");
    assert_eq!(result.message_stream_id, stream_id, "Incorrect message stream id");
    assert_eq!(result.timestamp, 55, "Incorrect timestamp");
}

#[test]
fn can_get_payload_from_video_data_message() {
    let timestamp = RtmpTimestamp::new(55);
    let stream_id = 52;
    let message = RtmpMessage::VideoData { data: vec![23_u8] };
    let result = MessagePayload::from_rtmp_message(message, timestamp, stream_id).unwrap();

    assert_ne!(result.data.len(), 0, "Empty payload data seen");
    assert_eq!(result.type_id, 9, "Incorrect type id");
    assert_eq!(result.message_stream_id, stream_id, "Incorrect message stream id");
    assert_eq!(result.timestamp, 55, "Incorrect timestamp");
}

#[test]
fn can_get_payload_from_window_acknowledgement_message() {
    let timestamp = RtmpTimestamp::new(55);
    let stream_id = 52;
    let message = RtmpMessage::WindowAcknowledgement { size: 23 };
    let result = MessagePayload::from_rtmp_message(message, timestamp, stream_id).unwrap();

    assert_ne!(result.data.len(), 0, "Empty payload data seen");
    assert_eq!(result.type_id, 5, "Incorrect type id");
    assert_eq!(result.message_stream_id, stream_id, "Incorrect message stream id");
    assert_eq!(result.timestamp, 55, "Incorrect timestamp");
}

#[test]
fn can_get_payload_from_unknown_message() {
    let timestamp = RtmpTimestamp::new(55);
    let stream_id = 52;
    let message = RtmpMessage::Unknown { type_id: 33, data: vec![23_u8] };
    let result = MessagePayload::from_rtmp_message(message, timestamp, stream_id).unwrap();

    assert_ne!(result.data.len(), 0, "Empty payload data seen");
    assert_eq!(result.type_id, 33, "Incorrect type id");
    assert_eq!(result.message_stream_id, stream_id, "Incorrect message stream id");
    assert_eq!(result.timestamp, 55, "Incorrect timestamp");
}

#[test]
fn can_get_rtmp_message_for_abort_payload() {
    let message = RtmpMessage::Abort { stream_id: 15 };
    let payload = MessagePayload::from_rtmp_message(message.clone(), RtmpTimestamp::new(0), 15).unwrap();
    let result = payload.to_rtmp_message().unwrap();

    assert_eq!(result, message);
}

#[test]
fn can_get_rtmp_message_for_acknowledgement_payload() {
    let message = RtmpMessage::Acknowledgement { sequence_number:15 };
    let payload = MessagePayload::from_rtmp_message(message.clone(), RtmpTimestamp::new(0), 15).unwrap();
    let result = payload.to_rtmp_message().unwrap();

    assert_eq!(result, message);
}

#[test]
fn can_get_rtmp_message_for_amf0_command_payload() {
    let message = RtmpMessage::Amf0Command {
        command_name: "test".to_string(),
        transaction_id: 15.0f64.to_bits(),
        command_object: AmfValue::Number(23.0f64.to_bits()),
        additional_arguments: vec![AmfValue::Null]
    };

    let payload = MessagePayload::from_rtmp_message(message.clone(), RtmpTimestamp::new(0), 15).unwrap();
    let result = payload.to_rtmp_message().unwrap();

    assert_eq!(result, message);
}

#[test]
fn can_get_rtmp_message_for_amf0_data_payload() {
    let message = RtmpMessage::Amf0Data { values: vec![AmfValue::Number(23.3f64.to_bits())]};
    let payload = MessagePayload::from_rtmp_message(message.clone(), RtmpTimestamp::new(0), 15).unwrap();
    let result = payload.to_rtmp_message().unwrap();

    assert_eq!(result, message);
}

#[test]
fn can_get_rtmp_message_for_audio_data_payload() {
    let message = RtmpMessage::AudioData { data: vec![3_u8]};
    let payload = MessagePayload::from_rtmp_message(message.clone(), RtmpTimestamp::new(0), 15).unwrap();
    let result = payload.to_rtmp_message().unwrap();

    assert_eq!(result, message);
}

#[test]
fn can_get_rtmp_message_for_set_chunk_size_payload() {
    let message = RtmpMessage::SetChunkSize { size: 15 };
    let payload = MessagePayload::from_rtmp_message(message.clone(), RtmpTimestamp::new(0), 15).unwrap();
    let result = payload.to_rtmp_message().unwrap();

    assert_eq!(result, message);
}

#[test]
fn can_get_rtmp_message_for_set_peer_bandwidth_payload() {
    let message = RtmpMessage::SetPeerBandwidth {size: 15, limit_type: PeerBandwidthLimitType::Hard};
    let payload = MessagePayload::from_rtmp_message(message.clone(), RtmpTimestamp::new(0), 15).unwrap();
    let result = payload.to_rtmp_message().unwrap();

    assert_eq!(result, message);
}

#[test]
fn can_get_rtmp_message_for_user_control_payload() {
    let message = RtmpMessage::UserControl {
        stream_id: Some(15),
        buffer_length: None,
        timestamp: None,
        event_type: UserControlEventType::StreamBegin
    };

    let payload = MessagePayload::from_rtmp_message(message.clone(), RtmpTimestamp::new(0), 15).unwrap();
    let result = payload.to_rtmp_message().unwrap();

    assert_eq!(result, message);
}

#[test]
fn can_get_rtmp_message_for_video_data_payload() {
    let message = RtmpMessage::VideoData {data: vec![3_u8]};
    let payload = MessagePayload::from_rtmp_message(message.clone(), RtmpTimestamp::new(0), 15).unwrap();
    let result = payload.to_rtmp_message().unwrap();

    assert_eq!(result, message);
}

#[test]
fn can_get_rtmp_message_for_window_acknowledgement_payload() {
    let message = RtmpMessage::WindowAcknowledgement {size:25};
    let payload = MessagePayload::from_rtmp_message(message.clone(), RtmpTimestamp::new(0), 15).unwrap();
    let result = payload.to_rtmp_message().unwrap();

    assert_eq!(result, message);
}

#[test]
fn can_get_rtmp_message_for_amf0_command_flagged_as_amf3()
{
    let message = RtmpMessage::Amf0Command {
        command_name: "test".to_string(),
        transaction_id: 15.0f64.to_bits(),
        command_object: AmfValue::Number(23.0f64.to_bits()),
        additional_arguments: vec![AmfValue::Null]
    };

    let mut payload = MessagePayload::from_rtmp_message(message.clone(), RtmpTimestamp::new(0), 15).unwrap();
    payload.type_id = 17;
    payload.data.insert(0, 0x00);

    let result = payload.to_rtmp_message().unwrap();

    assert_eq!(result, message);
}

#[test]
fn can_get_rtmp_message_for_amf0_data_payload_flagged_as_amf3() {
    let message = RtmpMessage::Amf0Data { values: vec![AmfValue::Number(23.3f64.to_bits())]};
    let mut payload = MessagePayload::from_rtmp_message(message.clone(), RtmpTimestamp::new(0), 15).unwrap();
    payload.type_id = 15;

    let result = payload.to_rtmp_message().unwrap();

    assert_eq!(result, message);
}
