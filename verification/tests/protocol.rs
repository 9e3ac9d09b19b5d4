use simprint_runtime::protocol::{
    decode_stays_in_bounds, next_message_id, ErrorCode, Message, MessageIdCounter, MessageType,
    HEADER_SIZE, PROTOCOL_VERSION,
};
use simprint_runtime::topics::Topic;

fn sample() -> Message {
    Message {
        msg_id: 0x0102_0304,
        msg_type: MessageType::Response,
        topic: Topic::GetState,
        error_code: -2,
        data: vec![0xAA, 0xBB, 0xCC],
    }
}

fn sample_frame() -> Vec<u8> {
    vec![
        0x73, 0x70, 0x72, 0x74, // magic
        3, // version
        18, 0, 0, 0, // payload length
        0x04, 0x03, 0x02, 0x01, // msg id
        2, // response
        0x03, 0x01, // topic 0x0103
        0xFE, 0xFF, 0xFF, 0xFF, // -2
        3, 0, 0, 0, // data length
        0xAA, 0xBB, 0xCC,
    ]
}

#[test]
fn encode_writes_the_documented_frame() {
    let frame = sample().encode().unwrap();
    assert_eq!(&frame[..], &sample_frame()[..]);
}

#[test]
fn encode_empty_data() {
    let m = Message::response(7, Topic::Shutdown, ErrorCode::Success, vec![]);
    let frame = m.encode().unwrap();
    assert_eq!(
        &frame[..],
        &[0x73, 0x70, 0x72, 0x74, 3, 15, 0, 0, 0, 7, 0, 0, 0, 2, 0xFF, 0xFF, 0, 0, 0, 0, 0, 0, 0, 0][..]
    );
}

#[test]
fn decode_reads_the_documented_frame() {
    let m = Message::decode(&sample_frame()).unwrap();
    assert_eq!(m.msg_id, 0x0102_0304);
    assert_eq!(m.msg_type, MessageType::Response);
    assert_eq!(m.topic, Topic::GetState);
    assert_eq!(m.error_code, -2);
    assert_eq!(m.data, vec![0xAA, 0xBB, 0xCC]);
}

#[test]
fn decode_of_encode_gives_the_message_back() {
    let topics = [
        Topic::Handshake,
        Topic::InitializeContext,
        Topic::DestroyContext,
        Topic::GetState,
        Topic::AuthCommand,
        Topic::SyncCommand,
        Topic::EnvironmentCommand,
        Topic::RuntimeEvent,
        Topic::Shutdown,
    ];
    for (i, topic) in topics.iter().enumerate() {
        let m = Message {
            msg_id: u32::MAX - i as u32,
            msg_type: MessageType::Event,
            topic: *topic,
            error_code: i32::MIN + i as i32,
            data: (0..i as u8 * 10).collect(),
        };
        let frame = m.encode().unwrap();
        let back = Message::decode(&frame).unwrap();
        assert_eq!(back.msg_id, m.msg_id);
        assert_eq!(back.msg_type, m.msg_type);
        assert_eq!(back.topic, m.topic);
        assert_eq!(back.error_code, m.error_code);
        assert_eq!(back.data, m.data);
    }
}

#[test]
fn decode_ignores_bytes_after_the_data() {
    let mut frame = sample_frame();
    frame.extend_from_slice(&[9, 9, 9]);
    let m = Message::decode(&frame).unwrap();
    assert_eq!(m.data, vec![0xAA, 0xBB, 0xCC]);
}

#[test]
fn decode_refuses_short_frame() {
    let e = Message::decode(&[0x73, 0x70, 0x72, 0x74, 3, 0, 0, 0]).unwrap_err();
    assert_eq!(e, "frame shorter than header");
}

#[test]
fn decode_refuses_wrong_magic() {
    let mut frame = sample_frame();
    frame[0] = b'x';
    assert_eq!(Message::decode(&frame).unwrap_err(), "invalid magic number");
}

#[test]
fn decode_refuses_other_version() {
    let mut frame = sample_frame();
    frame[4] = 42;
    assert_eq!(Message::decode(&frame).unwrap_err(), "unsupported protocol version: 42");
}

#[test]
fn decode_refuses_incomplete_payload() {
    let frame = sample_frame();
    assert_eq!(Message::decode(&frame[..frame.len() - 1]).unwrap_err(), "incomplete payload");
}

#[test]
fn decode_refuses_short_payload() {
    let frame = [0x73, 0x70, 0x72, 0x74, 3, 8, 0, 0, 0, 1, 2, 3, 4, 5, 6, 7, 8];
    assert_eq!(Message::decode(&frame).unwrap_err(), "payload too short");
}

#[test]
fn decode_refuses_unknown_message_type() {
    let mut frame = sample_frame();
    frame[13] = 200;
    assert_eq!(Message::decode(&frame).unwrap_err(), "unknown message type: 200");
}

#[test]
fn decode_refuses_data_length_mismatch() {
    let mut frame = sample_frame();
    frame[20] = 4;
    assert_eq!(Message::decode(&frame).unwrap_err(), "data length mismatch");
}

#[test]
fn unknown_topic_code_reads_as_shutdown() {
    let mut frame = sample_frame();
    frame[14] = 0x34;
    frame[15] = 0x12;
    assert_eq!(Message::decode(&frame).unwrap().topic, Topic::Shutdown);
}

#[test]
fn bounds_check_flags_frames_that_would_be_read_past_their_end() {
    // A declared payload of 9 bytes is accepted by the header checks, but the
    // payload header needs 15.
    let frame = [0x73, 0x70, 0x72, 0x74, 3, 9, 0, 0, 0, 1, 0, 0, 0, 1, 0, 1, 0, 0];
    assert!(!decode_stays_in_bounds(&frame));
    assert!(decode_stays_in_bounds(&sample_frame()));
    assert!(decode_stays_in_bounds(&[1, 2, 3]));
    let mut bad_type = frame;
    bad_type[13] = 9;
    assert!(decode_stays_in_bounds(&bad_type));
    assert_eq!(Message::decode(&bad_type).unwrap_err(), "unknown message type: 9");
}

#[test]
fn message_type_codes() {
    assert_eq!(MessageType::Request.code(), 1);
    assert_eq!(MessageType::Response.code(), 2);
    assert_eq!(MessageType::Event.code(), 3);
    assert_eq!(MessageType::from_wire(1), Ok(MessageType::Request));
    assert_eq!(MessageType::from_wire(3), Ok(MessageType::Event));
    assert_eq!(MessageType::from_wire(0), Err("unknown message type: 0".to_string()));
    assert_eq!(MessageType::from_wire(255), Err("unknown message type: 255".to_string()));
}

#[test]
fn error_code_numbers() {
    assert_eq!(ErrorCode::Success.as_i32(), 0);
    assert_eq!(ErrorCode::InvalidPayload.as_i32(), 1);
    assert_eq!(ErrorCode::NotImplemented.as_i32(), 2);
    assert_eq!(ErrorCode::InternalError.as_i32(), 3);
}

#[test]
fn requests_take_consecutive_ids() {
    let mut ids = MessageIdCounter::new();
    let a = Message::request(&mut ids, Topic::Handshake, vec![1]);
    let b = Message::request(&mut ids, Topic::GetState, vec![]);
    assert_eq!(a.msg_id, 1);
    assert_eq!(b.msg_id, 2);
    assert_eq!(a.msg_type, MessageType::Request);
    assert_eq!(a.error_code, 0);
    assert_eq!(a.data, vec![1]);
    assert_eq!(b.topic, Topic::GetState);
    assert_eq!(next_message_id(&mut ids), 3);
}

#[test]
fn response_keeps_the_request_id() {
    let m = Message::response(99, Topic::AuthCommand, ErrorCode::NotImplemented, vec![5]);
    assert_eq!(m.msg_id, 99);
    assert_eq!(m.msg_type, MessageType::Response);
    assert_eq!(m.topic, Topic::AuthCommand);
    assert_eq!(m.error_code, 2);
    assert_eq!(m.data, vec![5]);
}

#[test]
fn protocol_constants() {
    assert_eq!(PROTOCOL_VERSION, 3);
    assert_eq!(HEADER_SIZE, 9);
}

#[test]
fn topic_codes_round_trip() {
    let pairs = [
        (Topic::Handshake, 0x0100u16),
        (Topic::InitializeContext, 0x0101),
        (Topic::DestroyContext, 0x0102),
        (Topic::GetState, 0x0103),
        (Topic::AuthCommand, 0x0200),
        (Topic::SyncCommand, 0x0300),
        (Topic::EnvironmentCommand, 0x0400),
        (Topic::RuntimeEvent, 0x0500),
        (Topic::Shutdown, 0xFFFF),
    ];
    for (t, code) in pairs {
        assert_eq!(u16::from(t), code);
        assert_eq!(Topic::from(code), t);
        assert_eq!(Topic::from_code(code), t);
        assert_eq!(t.code(), code);
    }
    assert_eq!(Topic::from(0x0600), Topic::Shutdown);
    assert_eq!(Topic::from(0), Topic::Shutdown);
}
