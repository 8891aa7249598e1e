use rml_rtmp::amf0::{find_property, AmfValue};
use rml_rtmp::chunk_io::{ChunkDeserializer, ChunkSerializer};
use rml_rtmp::messages::message_payload::MessagePayload;
use rml_rtmp::messages::{PeerBandwidthLimitType, RtmpMessage, UserControlEventType};
use rml_rtmp::sessions::client::{ClientSession, ClientSessionConfig, ClientSessionErrorKind};
use rml_rtmp::sessions::client::{ClientSessionEvent, ClientSessionResult, PublishRequestType};
use rml_rtmp::sessions::StreamMetadata;
use rml_rtmp::time::RtmpTimestamp;

/// The far end of a client session: a server's serializer and deserializer.
struct Far {
    serializer: ChunkSerializer,
    deserializer: ChunkDeserializer,
}

impl Far {
    fn bytes_of(&mut self, message: RtmpMessage, timestamp: u32, stream_id: u32) -> Vec<u8> {
        let payload =
            MessagePayload::from_rtmp_message(message, RtmpTimestamp::new(timestamp), stream_id)
                .unwrap();
        self.serializer.serialize(&payload, false, false).unwrap().bytes
    }

    fn command(&mut self, name: &str, transaction_id: f64, arguments: Vec<AmfValue>) -> Vec<u8> {
        let message = RtmpMessage::Amf0Command {
            command_name: name.to_string(),
            transaction_id: transaction_id.to_bits(),
            command_object: AmfValue::Null,
            additional_arguments: arguments,
        };
        self.bytes_of(message, 0, 0)
    }

    fn status(&mut self, name: &str, transaction_id: f64, code: &str, description: &str) -> Vec<u8> {
        let report = AmfValue::Object(vec![
            ("level".to_string(), AmfValue::Utf8String("status".to_string())),
            ("code".to_string(), AmfValue::Utf8String(code.to_string())),
            ("description".to_string(), AmfValue::Utf8String(description.to_string())),
        ]);
        self.command(name, transaction_id, vec![report])
    }

    fn split(
        &mut self,
        results: Vec<ClientSessionResult>,
    ) -> (Vec<(MessagePayload, RtmpMessage)>, Vec<ClientSessionEvent>, Vec<MessagePayload>) {
        let mut responses = Vec::new();
        let mut events = Vec::new();
        let mut unhandled = Vec::new();
        for result in results {
            match result {
                ClientSessionResult::OutboundResponse(packet) => {
                    let payload =
                        self.deserializer.get_next_message(&packet.bytes).unwrap().unwrap();
                    let message = payload.to_rtmp_message().unwrap();
                    if let RtmpMessage::SetChunkSize { size } = message {
                        self.deserializer.set_max_chunk_size(size as usize).unwrap();
                    }
                    responses.push((payload, message));
                }
                ClientSessionResult::RaisedEvent(event) => events.push(event),
                ClientSessionResult::UnhandleableMessageReceived(payload) => unhandled.push(payload),
            }
        }
        (responses, events, unhandled)
    }
}

fn fresh() -> (ClientSession, Far, ClientSessionConfig) {
    let config = ClientSessionConfig::new();
    let (session, initial) = ClientSession::new(config.clone()).unwrap();
    let mut far = Far { serializer: ChunkSerializer::new(), deserializer: ChunkDeserializer::new() };
    far.split(initial);
    (session, far, config)
}

fn linked() -> (ClientSession, Far, ClientSessionConfig) {
    let (mut session, mut far, config) = fresh();
    let results = session.request_connection("live".to_string()).unwrap();
    far.split(results);
    let accepted = far.status("_result", 1.0, "NetConnection.Connect.Success", "hi");
    let results = session.handle_input(&accepted).unwrap();
    far.split(results);
    (session, far, config)
}

fn publisher(stream_id: u32) -> (ClientSession, Far, ClientSessionConfig) {
    let (mut session, mut far, config) = linked();
    let results = session.request_publishing("key".to_string(), PublishRequestType::Live).unwrap();
    far.split(results);
    let created = far.command("_result", 2.0, vec![AmfValue::Number((stream_id as f64).to_bits())]);
    let results = session.handle_input(&created).unwrap();
    far.split(results);
    let started = far.status("onStatus", 0.0, "NetStream.Publish.Start", "go");
    let results = session.handle_input(&started).unwrap();
    far.split(results);
    (session, far, config)
}

fn player(stream_id: u32) -> (ClientSession, Far, ClientSessionConfig) {
    let (mut session, mut far, config) = linked();
    let results = session.request_playback("key".to_string()).unwrap();
    far.split(results);
    let created = far.command("_result", 2.0, vec![AmfValue::Number((stream_id as f64).to_bits())]);
    let results = session.handle_input(&created).unwrap();
    far.split(results);
    let started = far.status("onStatus", 0.0, "NetStream.Play.Start", "go");
    let results = session.handle_input(&started).unwrap();
    far.split(results);
    (session, far, config)
}

#[test]
fn new_client_announces_its_chunk_size() {
    let config = ClientSessionConfig::new();
    assert_eq!(config.chunk_size, 4096);
    assert_eq!(config.window_ack_size, 2_500_000);
    assert_eq!(config.playback_buffer_length_ms, 2_000);
    let (_, initial) = ClientSession::new(config).unwrap();
    assert_eq!(initial.len(), 1);
    match &initial[0] {
        ClientSessionResult::OutboundResponse(packet) => {
            assert_eq!(packet.bytes, vec![0x02, 0, 0, 0, 0, 0, 4, 1, 0, 0, 0, 0, 0, 0, 0x10, 0]);
        }
        x => panic!("unexpected result {:?}", x),
    }
}

#[test]
fn client_with_invalid_chunk_size_is_refused() {
    let mut config = ClientSessionConfig::new();
    config.chunk_size = 0x8000_0000;
    let error = ClientSession::new(config).err().unwrap();
    assert!(matches!(error.kind, ClientSessionErrorKind::ChunkSerialization(_)));
}

#[test]
fn connect_command_names_app_encoding_and_flash_version() {
    let (mut session, mut far, config) = fresh();
    let results = session.request_connection("live".to_string()).unwrap();
    let (responses, events, _) = far.split(results);
    assert!(events.is_empty());
    assert_eq!(responses.len(), 1);
    match &responses[0].1 {
        RtmpMessage::Amf0Command {
            command_name,
            transaction_id,
            command_object,
            additional_arguments,
        } => {
            assert_eq!(command_name, "connect");
            assert_eq!(f64::from_bits(*transaction_id), 1.0);
            assert!(additional_arguments.is_empty());
            match command_object {
                AmfValue::Object(properties) => {
                    assert_eq!(properties.len(), 3);
                    assert_eq!(
                        find_property(properties, "app"),
                        Some(&AmfValue::Utf8String("live".to_string()))
                    );
                    assert_eq!(
                        find_property(properties, "objectEncoding"),
                        Some(&AmfValue::Number(0.0f64.to_bits()))
                    );
                    assert_eq!(
                        find_property(properties, "flashVer"),
                        Some(&AmfValue::Utf8String(config.flash_version.clone()))
                    );
                }
                x => panic!("unexpected command object {:?}", x),
            }
        }
        x => panic!("unexpected response {:?}", x),
    }
}

#[test]
fn connect_success_raises_the_event_and_announces_the_window() {
    let (mut session, mut far, config) = fresh();
    let results = session.request_connection("live".to_string()).unwrap();
    far.split(results);
    let accepted = far.status("_result", 1.0, "NetConnection.Connect.Success", "hi");
    let results = session.handle_input(&accepted).unwrap();
    let (responses, events, _) = far.split(results);
    assert_eq!(events, vec![ClientSessionEvent::ConnectionRequestAccepted]);
    assert_eq!(responses.len(), 1);
    assert_eq!(responses[0].1, RtmpMessage::WindowAcknowledgement { size: config.window_ack_size });
}

#[test]
fn play_workflow_on_stream_seven() {
    let (mut session, mut far, config) = linked();
    let results = session.request_playback("key".to_string()).unwrap();
    let (responses, _, _) = far.split(results);
    assert_eq!(
        responses[0].1,
        RtmpMessage::Amf0Command {
            command_name: "createStream".to_string(),
            transaction_id: 2.0f64.to_bits(),
            command_object: AmfValue::Null,
            additional_arguments: vec![],
        }
    );
    let created = far.command("_result", 2.0, vec![AmfValue::Number(7.0f64.to_bits())]);
    let results = session.handle_input(&created).unwrap();
    let (responses, events, _) = far.split(results);
    assert!(events.is_empty());
    assert_eq!(responses.len(), 2);
    assert_eq!(
        responses[0].1,
        RtmpMessage::UserControl {
            event_type: UserControlEventType::SetBufferLength,
            stream_id: Some(7),
            buffer_length: Some(config.playback_buffer_length_ms),
            timestamp: None,
        }
    );
    assert_eq!(responses[0].0.message_stream_id, 0);
    assert_eq!(
        responses[1].1,
        RtmpMessage::Amf0Command {
            command_name: "play".to_string(),
            transaction_id: 0,
            command_object: AmfValue::Null,
            additional_arguments: vec![AmfValue::Utf8String("key".to_string())],
        }
    );
    assert_eq!(responses[1].0.message_stream_id, 7);
    let started = far.status("onStatus", 0.0, "NetStream.Play.Start", "go");
    let results = session.handle_input(&started).unwrap();
    let (_, events, _) = far.split(results);
    assert_eq!(
        events,
        vec![ClientSessionEvent::PlaybackRequestAccepted { stream_key: "key".to_string() }]
    );
}

#[test]
fn publish_workflow() {
    let (mut session, mut far, _) = linked();
    let results = session.request_publishing("key".to_string(), PublishRequestType::Record).unwrap();
    let (responses, _, _) = far.split(results);
    match &responses[0].1 {
        RtmpMessage::Amf0Command { command_name, .. } => assert_eq!(command_name, "createStream"),
        x => panic!("unexpected response {:?}", x),
    }
    let created = far.command("_result", 2.0, vec![AmfValue::Number(3.0f64.to_bits())]);
    let results = session.handle_input(&created).unwrap();
    let (responses, _, _) = far.split(results);
    assert_eq!(responses.len(), 2);
    assert!(matches!(responses[0].1, RtmpMessage::UserControl { .. }));
    assert_eq!(
        responses[1].1,
        RtmpMessage::Amf0Command {
            command_name: "publish".to_string(),
            transaction_id: 0,
            command_object: AmfValue::Null,
            additional_arguments: vec![
                AmfValue::Utf8String("key".to_string()),
                AmfValue::Utf8String("record".to_string())
            ],
        }
    );
    assert_eq!(responses[1].0.message_stream_id, 3);
    let started = far.status("onStatus", 0.0, "NetStream.Publish.Start", "go");
    let results = session.handle_input(&started).unwrap();
    let (_, events, _) = far.split(results);
    assert_eq!(
        events,
        vec![ClientSessionEvent::PublishRequestAccepted { stream_key: "key".to_string() }]
    );
}

#[test]
fn publisher_sends_media_and_metadata_on_its_stream() {
    let (mut session, mut far, _) = publisher(3);
    let results = session.publish_video_data(vec![1, 2], RtmpTimestamp::new(10), true).unwrap();
    match &results[0] {
        ClientSessionResult::OutboundResponse(packet) => assert!(packet.can_be_dropped),
        x => panic!("unexpected result {:?}", x),
    }
    let (responses, _, _) = far.split(results);
    assert_eq!(responses[0].1, RtmpMessage::VideoData { data: vec![1, 2] });
    assert_eq!(responses[0].0.message_stream_id, 3);
    assert_eq!(responses[0].0.timestamp, 10);

    let results = session.publish_audio_data(vec![3], RtmpTimestamp::new(11), false).unwrap();
    let (responses, _, _) = far.split(results);
    assert_eq!(responses[0].1, RtmpMessage::AudioData { data: vec![3] });
    assert_eq!(responses[0].0.timestamp, 11);

    let mut metadata = StreamMetadata::new();
    metadata.video_height = Some(720);
    metadata.audio_is_stereo = Some(true);
    let results = session.publish_metadata(&metadata).unwrap();
    let (responses, _, _) = far.split(results);
    assert_eq!(responses[0].0.message_stream_id, 3);
    match &responses[0].1 {
        RtmpMessage::Amf0Data { values } => {
            assert_eq!(values.len(), 3);
            assert_eq!(values[0], AmfValue::Utf8String("@setDataFrame".to_string()));
            assert_eq!(values[1], AmfValue::Utf8String("onMetaData".to_string()));
            match &values[2] {
                AmfValue::Object(properties) => {
                    assert_eq!(StreamMetadata::from_properties(properties), metadata);
                }
                x => panic!("unexpected value {:?}", x),
            }
        }
        x => panic!("unexpected response {:?}", x),
    }
}

#[test]
fn publishing_needs_a_client_that_publishes() {
    let (mut session, _, _) = linked();
    let error = session.publish_video_data(vec![1], RtmpTimestamp::new(0), false).unwrap_err();
    assert_eq!(error.kind, ClientSessionErrorKind::ActionNotAllowedInCurrentState);
    let error = session.publish_audio_data(vec![1], RtmpTimestamp::new(0), false).unwrap_err();
    assert_eq!(error.kind, ClientSessionErrorKind::ActionNotAllowedInCurrentState);
    let error = session.publish_metadata(&StreamMetadata::new()).unwrap_err();
    assert_eq!(error.kind, ClientSessionErrorKind::ActionNotAllowedInCurrentState);
    let (mut session, _, _) = player(4);
    let error = session.publish_video_data(vec![1], RtmpTimestamp::new(0), false).unwrap_err();
    assert_eq!(error.kind, ClientSessionErrorKind::ActionNotAllowedInCurrentState);
}

#[test]
fn streams_can_be_asked_for_only_when_connected() {
    let (mut session, _, _) = fresh();
    let error = session.request_playback("key".to_string()).unwrap_err();
    assert_eq!(error.kind, ClientSessionErrorKind::ActionNotAllowedInCurrentState);
    let error =
        session.request_publishing("key".to_string(), PublishRequestType::Live).unwrap_err();
    assert_eq!(error.kind, ClientSessionErrorKind::ActionNotAllowedInCurrentState);
    let (mut session, _, _) = player(4);
    let error = session.request_playback("other".to_string()).unwrap_err();
    assert_eq!(error.kind, ClientSessionErrorKind::ActionNotAllowedInCurrentState);
    let error = session.request_connection("live".to_string()).unwrap_err();
    assert_eq!(error.kind, ClientSessionErrorKind::CantConnectWhileAlreadyConnected);
}

#[test]
fn failed_play_puts_the_client_back_to_connected() {
    let (mut session, mut far, _) = linked();
    let results = session.request_playback("key".to_string()).unwrap();
    far.split(results);
    let created = far.command("_result", 2.0, vec![AmfValue::Number(5.0f64.to_bits())]);
    let results = session.handle_input(&created).unwrap();
    far.split(results);
    let failed = far.status("onStatus", 0.0, "NetStream.Play.Failed", "no such stream");
    let results = session.handle_input(&failed).unwrap();
    let (_, events, _) = far.split(results);
    assert_eq!(
        events,
        vec![ClientSessionEvent::PlaybackRequestRejected {
            description: "no such stream".to_string()
        }]
    );
    // the client can ask again, under the next transaction id
    let results = session.request_playback("other".to_string()).unwrap();
    let (responses, _, _) = far.split(results);
    match &responses[0].1 {
        RtmpMessage::Amf0Command { transaction_id, .. } => {
            assert_eq!(f64::from_bits(*transaction_id), 3.0)
        }
        x => panic!("unexpected response {:?}", x),
    }
}

#[test]
fn failed_publish_is_reported() {
    for code in ["NetStream.Publish.Failed", "NetStream.Publish.BadName"] {
        let (mut session, mut far, _) = linked();
        let results =
            session.request_publishing("key".to_string(), PublishRequestType::Live).unwrap();
        far.split(results);
        let failed = far.status("onStatus", 0.0, code, "taken");
        let results = session.handle_input(&failed).unwrap();
        let (_, events, _) = far.split(results);
        assert_eq!(
            events,
            vec![ClientSessionEvent::PublishRequestRejected { description: "taken".to_string() }]
        );
    }
}

#[test]
fn refused_stream_is_reported() {
    let (mut session, mut far, _) = linked();
    let results = session.request_playback("key".to_string()).unwrap();
    far.split(results);
    let refused = far.status("_error", 2.0, "NetStream.Failed", "full");
    let results = session.handle_input(&refused).unwrap();
    let (_, events, _) = far.split(results);
    assert_eq!(
        events,
        vec![ClientSessionEvent::PlaybackRequestRejected { description: "full".to_string() }]
    );
}

#[test]
fn response_to_no_request_is_an_error() {
    let (mut session, mut far, _) = linked();
    let stray = far.command("_result", 9.0, vec![AmfValue::Number(1.0f64.to_bits())]);
    let error = session.handle_input(&stray).unwrap_err();
    assert_eq!(error.kind, ClientSessionErrorKind::InvalidTransactionId);
    let stray = far.status("_error", 1.0, "NetConnection.Connect.Failed", "late");
    let error = session.handle_input(&stray).unwrap_err();
    assert_eq!(error.kind, ClientSessionErrorKind::InvalidTransactionId);
}

#[test]
fn status_and_commands_without_use_are_handed_on() {
    let (mut session, mut far, _) = linked();
    let status = far.status("onStatus", 0.0, "NetStream.Play.Reset", "reset");
    let results = session.handle_input(&status).unwrap();
    let (_, events, _) = far.split(results);
    assert_eq!(
        events,
        vec![ClientSessionEvent::UnhandleableOnStatusCode { code: "NetStream.Play.Reset".to_string() }]
    );
    let command = far.command("onBWDone", 0.0, vec![AmfValue::Number(8192.0f64.to_bits())]);
    let results = session.handle_input(&command).unwrap();
    let (_, events, _) = far.split(results);
    assert_eq!(
        events,
        vec![ClientSessionEvent::UnhandleableAmf0Command {
            command_name: "onBWDone".to_string(),
            transaction_id: 0,
            command_object: AmfValue::Null,
            additional_values: vec![AmfValue::Number(8192.0f64.to_bits())],
        }]
    );
    let no_code = far.command("onStatus", 0.0, vec![]);
    let results = session.handle_input(&no_code).unwrap();
    let (_, events, _) = far.split(results);
    assert!(matches!(events[0], ClientSessionEvent::UnhandleableAmf0Command { .. }));
}

#[test]
fn media_before_playing_is_handed_on() {
    let (mut session, mut far, _) = linked();
    let video = far.bytes_of(RtmpMessage::VideoData { data: vec![1] }, 0, 1);
    let results = session.handle_input(&video).unwrap();
    let (responses, events, unhandled) = far.split(results);
    assert!(responses.is_empty() && events.is_empty());
    assert_eq!(unhandled.len(), 1);
    let abort = far.bytes_of(RtmpMessage::Abort { stream_id: 3 }, 0, 0);
    let results = session.handle_input(&abort).unwrap();
    let (_, _, unhandled) = far.split(results);
    assert_eq!(unhandled[0].type_id, 2);
}

#[test]
fn peer_bandwidth_is_echoed_when_it_changes() {
    let (mut session, mut far, config) = linked();
    let same = far.bytes_of(
        RtmpMessage::SetPeerBandwidth {
            size: config.window_ack_size,
            limit_type: PeerBandwidthLimitType::Dynamic,
        },
        0,
        0,
    );
    assert!(session.handle_input(&same).unwrap().is_empty());
    let other = far.bytes_of(
        RtmpMessage::SetPeerBandwidth { size: 5000, limit_type: PeerBandwidthLimitType::Hard },
        0,
        0,
    );
    let results = session.handle_input(&other).unwrap();
    let (responses, _, _) = far.split(results);
    assert_eq!(responses.len(), 1);
    assert_eq!(responses[0].1, RtmpMessage::WindowAcknowledgement { size: 5000 });
    let again = far.bytes_of(
        RtmpMessage::SetPeerBandwidth { size: 5000, limit_type: PeerBandwidthLimitType::Hard },
        0,
        0,
    );
    assert!(session.handle_input(&again).unwrap().is_empty());
}

#[test]
fn server_chunk_size_is_adopted() {
    let (mut session, mut far, _) = player(7);
    let packet = far.serializer.set_max_chunk_size(2000, true).unwrap().unwrap();
    assert!(session.handle_input(&packet.bytes).unwrap().is_empty());
    let video = far.bytes_of(RtmpMessage::VideoData { data: vec![9; 1500] }, 5, 7);
    assert_eq!(video.len(), 12 + 1500);
    let results = session.handle_input(&video).unwrap();
    let (_, events, _) = far.split(results);
    assert_eq!(
        events,
        vec![ClientSessionEvent::VideoDataReceived {
            data: vec![9; 1500],
            timestamp: RtmpTimestamp::new(5)
        }]
    );
}

#[test]
fn client_acknowledges_every_window_of_bytes() {
    let (mut session, mut far, _) = player(7);
    let window = far.bytes_of(RtmpMessage::WindowAcknowledgement { size: 100 }, 0, 0);
    assert!(session.handle_input(&window).unwrap().is_empty());
    let mut sequence_numbers = Vec::new();
    let mut fed = 0;
    for i in 0..5u32 {
        let video = far.bytes_of(RtmpMessage::VideoData { data: vec![0; 50] }, i, 7);
        fed += 50;
        let results = session.handle_input(&video).unwrap();
        let (responses, events, _) = far.split(results);
        assert_eq!(events.len(), 1);
        for (payload, message) in responses {
            assert_eq!(payload.message_stream_id, 0);
            match message {
                RtmpMessage::Acknowledgement { sequence_number } => {
                    sequence_numbers.push(sequence_number)
                }
                x => panic!("unexpected response {:?}", x),
            }
        }
    }
    assert_eq!(fed, 250);
    assert!(sequence_numbers.len() >= 2);
    assert!(sequence_numbers[0] >= 100);
    assert!(sequence_numbers[1] >= 200);
}

#[test]
fn acknowledgement_from_the_server_is_reported() {
    let (mut session, mut far, _) = linked();
    let bytes = far.bytes_of(RtmpMessage::Acknowledgement { sequence_number: 31337 }, 0, 0);
    let results = session.handle_input(&bytes).unwrap();
    let (_, events, _) = far.split(results);
    assert_eq!(events, vec![ClientSessionEvent::AcknowledgementReceived { bytes_received: 31337 }]);
}

#[test]
fn data_without_metadata_is_handed_on_while_playing() {
    let (mut session, mut far, _) = player(7);
    let data = far.bytes_of(
        RtmpMessage::Amf0Data { values: vec![AmfValue::Utf8String("onCuePoint".to_string())] },
        0,
        7,
    );
    let results = session.handle_input(&data).unwrap();
    let (_, events, unhandled) = far.split(results);
    assert!(events.is_empty());
    assert_eq!(unhandled.len(), 1);
    assert_eq!(unhandled[0].type_id, 18);
}

#[test]
fn input_in_pieces_gives_the_same_as_input_at_once() {
    let (mut session, mut far, _) = player(7);
    let mut bytes = far.bytes_of(RtmpMessage::VideoData { data: vec![1; 300] }, 1, 7);
    bytes.extend(far.bytes_of(RtmpMessage::AudioData { data: vec![2; 10] }, 2, 7));
    let mut events = Vec::new();
    for piece in bytes.chunks(7) {
        let results = session.handle_input(piece).unwrap();
        events.extend(far.split(results).1);
    }
    assert_eq!(
        events,
        vec![
            ClientSessionEvent::VideoDataReceived {
                data: vec![1; 300],
                timestamp: RtmpTimestamp::new(1)
            },
            ClientSessionEvent::AudioDataReceived {
                data: vec![2; 10],
                timestamp: RtmpTimestamp::new(2)
            },
        ]
    );
}

#[test]
fn start_of_playing_before_the_stream_exists_is_handed_on() {
    let (mut session, mut far, _) = linked();
    let results = session.request_playback("key".to_string()).unwrap();
    far.split(results);
    let early = far.status("onStatus", 0.0, "NetStream.Play.Start", "go");
    let results = session.handle_input(&early).unwrap();
    let (_, events, _) = far.split(results);
    assert_eq!(
        events,
        vec![ClientSessionEvent::UnhandleableOnStatusCode { code: "NetStream.Play.Start".to_string() }]
    );
}

#[test]
fn client_takes_no_input_after_bytes_that_it_could_not_read() {
    let (mut session, mut far, _) = linked();
    let error = session.handle_input(&[0xC9, 1, 2]).unwrap_err();
    assert!(matches!(error.kind, ClientSessionErrorKind::ChunkDeserialization(_)));
    let good = far.bytes_of(RtmpMessage::Acknowledgement { sequence_number: 1 }, 0, 0);
    let again = session.handle_input(&good).unwrap_err();
    assert_eq!(again, error);
    let again = session.handle_input(&[]).unwrap_err();
    assert_eq!(again, error);
    // what the client sends is not affected
    assert!(session.request_playback("key".to_string()).is_ok());
}

#[test]
fn client_takes_no_input_after_a_message_that_it_could_not_read() {
    let (mut session, mut far, _) = linked();
    let payload = MessagePayload {
        timestamp: RtmpTimestamp::new(0),
        type_id: 4,
        message_stream_id: 0,
        data: vec![0, 5, 0, 0, 0, 0],
    };
    let bytes = far.serializer.serialize(&payload, false, false).unwrap().bytes;
    let error = session.handle_input(&bytes).unwrap_err();
    assert!(matches!(error.kind, ClientSessionErrorKind::MessageDeserialization(_)));
    let good = far.bytes_of(RtmpMessage::Acknowledgement { sequence_number: 1 }, 0, 0);
    assert_eq!(session.handle_input(&good).unwrap_err(), error);
}

#[test]
fn client_goes_on_after_a_response_to_no_request() {
    let (mut session, mut far, _) = linked();
    let stray = far.command("_result", 9.0, vec![AmfValue::Number(1.0f64.to_bits())]);
    let error = session.handle_input(&stray).unwrap_err();
    assert_eq!(error.kind, ClientSessionErrorKind::InvalidTransactionId);
    let good = far.bytes_of(RtmpMessage::Acknowledgement { sequence_number: 1 }, 0, 0);
    let results = session.handle_input(&good).unwrap();
    assert_eq!(results.len(), 1);
}

#[test]
fn nothing_is_sent_where_one_of_several_messages_cannot_be() {
    let (mut session, mut far, _) = linked();
    let long_key = "k".repeat(70_000);
    let results = session.request_playback(long_key).unwrap();
    far.split(results);
    let created = far.command("_result", 2.0, vec![AmfValue::Number(7.0f64.to_bits())]);
    let error = session.handle_input(&created).unwrap_err();
    assert!(matches!(error.kind, ClientSessionErrorKind::MessageSerialization(_)));
    // the buffer length message, which came first, was not written either:
    // the next control message has the header that the far end expects
    let bandwidth = far.bytes_of(
        RtmpMessage::SetPeerBandwidth { size: 77, limit_type: PeerBandwidthLimitType::Soft },
        0,
        0,
    );
    let results = session.handle_input(&bandwidth).unwrap();
    let (responses, _, _) = far.split(results);
    assert_eq!(responses.len(), 1);
    assert_eq!(responses[0].1, RtmpMessage::WindowAcknowledgement { size: 77 });
}

#[test]
fn connection_to_an_app_that_amf0_cannot_name_is_refused() {
    let (mut session, mut far, _) = fresh();
    let error = session.request_connection("a".repeat(65_536)).unwrap_err();
    assert!(matches!(error.kind, ClientSessionErrorKind::MessageSerialization(_)));
    // nothing was sent, and the far end reads on
    let bytes = far.bytes_of(RtmpMessage::Acknowledgement { sequence_number: 3 }, 0, 0);
    assert_eq!(session.handle_input(&bytes).unwrap().len(), 1);
}

#[test]
fn rejected_play_and_publish_are_reported_like_failed_ones() {
    let (mut session, mut far, _) = linked();
    let results = session.request_playback("key".to_string()).unwrap();
    far.split(results);
    let rejected = far.status("onStatus", 0.0, "NetStream.Play.Rejected", "not for you");
    let results = session.handle_input(&rejected).unwrap();
    let (_, events, _) = far.split(results);
    assert_eq!(
        events,
        vec![ClientSessionEvent::PlaybackRequestRejected { description: "not for you".to_string() }]
    );
    // the client is connected without a stream again
    let results =
        session.request_publishing("key".to_string(), PublishRequestType::Append).unwrap();
    far.split(results);
    let rejected = far.status("onStatus", 0.0, "NetStream.Publish.Rejected", "nor this");
    let results = session.handle_input(&rejected).unwrap();
    let (_, events, _) = far.split(results);
    assert_eq!(
        events,
        vec![ClientSessionEvent::PublishRequestRejected { description: "nor this".to_string() }]
    );
    assert!(session.request_playback("again".to_string()).is_ok());
}

#[test]
fn status_that_refuses_the_connection_disconnects_the_client() {
    for code in ["NetConnection.Connect.Rejected", "NetConnection.Connect.Failed"] {
        let (mut session, mut far, _) = fresh();
        let results = session.request_connection("live".to_string()).unwrap();
        far.split(results);
        let refused = far.status("onStatus", 0.0, code, "full");
        let results = session.handle_input(&refused).unwrap();
        let (responses, events, _) = far.split(results);
        assert!(responses.is_empty());
        assert_eq!(
            events,
            vec![ClientSessionEvent::ConnectionRequestRejected { description: "full".to_string() }]
        );
        // disconnected: a connection can be asked for again
        assert!(session.request_connection("live".to_string()).is_ok());
    }
}

#[test]
fn status_that_refuses_what_the_client_does_not_wait_for_is_handed_on() {
    let (mut session, mut far, _) = linked();
    let stray = far.status("onStatus", 0.0, "NetStream.Play.Rejected", "x");
    let results = session.handle_input(&stray).unwrap();
    let (_, events, _) = far.split(results);
    assert_eq!(
        events,
        vec![ClientSessionEvent::UnhandleableOnStatusCode {
            code: "NetStream.Play.Rejected".to_string()
        }]
    );
}

#[test]
fn error_of_a_message_that_cannot_be_sent_says_why() {
    let (mut session, _, _) = fresh();
    let error = session.request_connection("a".repeat(65_536)).unwrap_err();
    assert_eq!(
        error.kind,
        ClientSessionErrorKind::MessageSerialization(
            rml_rtmp::messages::MessageSerializationErrorKind::Amf0EncodeFailed
        )
    );
    let (mut session, _, _) = publisher(3);
    let error = session
        .publish_video_data(vec![0; 0x100_0000], RtmpTimestamp::new(0), false)
        .unwrap_err();
    assert_eq!(
        error.kind,
        ClientSessionErrorKind::ChunkSerialization(
            rml_rtmp::chunk_io::ChunkSerializationErrorKind::MessageTooLarge
        )
    );
    assert!(session.publish_video_data(vec![0; 0xFF_FFFF], RtmpTimestamp::new(0), false).is_ok());
}

#[test]
fn one_message_of_several_windows_is_acknowledged_once() {
    let (mut session, mut far, _) = player(7);
    let window = far.bytes_of(RtmpMessage::WindowAcknowledgement { size: 100 }, 0, 0);
    assert!(session.handle_input(&window).unwrap().is_empty());
    let video = far.bytes_of(RtmpMessage::VideoData { data: vec![0; 250] }, 1, 7);
    let results = session.handle_input(&video).unwrap();
    let (responses, events, _) = far.split(results);
    assert_eq!(events.len(), 1);
    assert_eq!(responses.len(), 1);
    match responses[0].1 {
        RtmpMessage::Acknowledgement { sequence_number } => assert!(sequence_number >= 250),
        ref x => panic!("unexpected response {:?}", x),
    }
    // fewer than a window's worth of bytes later: nothing is due
    let video = far.bytes_of(RtmpMessage::VideoData { data: vec![0; 99] }, 2, 7);
    let results = session.handle_input(&video).unwrap();
    let (responses, _, _) = far.split(results);
    assert!(responses.is_empty());
    // one more byte, and the next acknowledgement is
    let video = far.bytes_of(RtmpMessage::VideoData { data: vec![0; 1] }, 3, 7);
    let results = session.handle_input(&video).unwrap();
    let (responses, _, _) = far.split(results);
    assert_eq!(responses.len(), 1);
}

#[test]
fn acknowledgements_are_a_window_or_more_apart_and_within_the_count() {
    let (mut session, mut far, _) = player(7);
    let window = far.bytes_of(RtmpMessage::WindowAcknowledgement { size: 100 }, 0, 0);
    assert!(session.handle_input(&window).unwrap().is_empty());
    let mut sequence_numbers = Vec::new();
    for i in 0..10u32 {
        let video = far.bytes_of(RtmpMessage::VideoData { data: vec![0; 25] }, i, 7);
        let results = session.handle_input(&video).unwrap();
        for (_, message) in far.split(results).0 {
            if let RtmpMessage::Acknowledgement { sequence_number } = message {
                sequence_numbers.push(sequence_number);
            }
        }
    }
    assert!(sequence_numbers.len() >= 2);
    for pair in sequence_numbers.windows(2) {
        assert!(pair[1] >= pair[0] + 100);
        assert!(pair[1] < pair[0] + 125);
    }
}
