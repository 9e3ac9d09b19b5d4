//! The framed IPC protocol.
//!
//! A frame is the magic `"sprt"`, the protocol version, the little-endian
//! length of the payload, and the payload; the payload is the message id,
//! the message type, the topic code, the error code, the length of the data
//! and the data, all integers little-endian.

use vstd::prelude::*;
use vstd::bytes::*;
use vstd::slice::slice_subrange;
use vstd::string::StringExecFns;
use crate::buffers::{
    bytes_contents, bytes_mut_contents, new_buffer, buffer_len, buffer_slice, put_u8,
    put_u16_le, put_u32_le, put_i32_le, put_slice, freeze, get_u8, get_u16_le, get_u32_le,
    get_i32_le, advance_slice,
};
use crate::le::{spec_i32_to_le_bytes, spec_i32_from_le_bytes, lemma_le_roundtrip};
use crate::text::{decimal, push_decimal};
use crate::topics::lemma_topic_wire_codes;
use crate::topics::{Topic, topic_code, topic_of_code, lemma_topic_code_roundtrip};

verus! {

/// Size of the frame header (magic, version, payload length).
pub const HEADER_SIZE: usize = 9;

/// The protocol version that this runtime speaks.
pub const PROTOCOL_VERSION: u8 = 3;

/// The four magic bytes that open every frame: `"sprt"`.
pub open spec fn frame_magic() -> Seq<u8> {
    seq![0x73u8, 0x70u8, 0x72u8, 0x74u8]
}

/// The kind of a message.
#[derive(Debug, Clone, Copy, PartialEq, Eq, Structural)]
pub enum MessageType {
    Request,
    Response,
    Event,
}

/// The wire byte of each message type.
pub open spec fn message_type_code(t: MessageType) -> u8 {
    match t {
        MessageType::Request => 1,
        MessageType::Response => 2,
        MessageType::Event => 3,
    }
}

/// The message type a wire byte stands for, if any.
pub open spec fn message_type_of(v: u8) -> Option<MessageType> {
    if v == 1 {
        Some(MessageType::Request)
    } else if v == 2 {
        Some(MessageType::Response)
    } else if v == 3 {
        Some(MessageType::Event)
    } else {
        None
    }
}

/// The error text for a byte that names no message type.
pub open spec fn unknown_message_type_text(v: u8) -> Seq<char> {
    "unknown message type: "@ + decimal(v as nat)
}

impl MessageType {
    /// The wire byte of this message type.
    pub fn code(self) -> (v: u8)
        ensures
            v == message_type_code(self),
    {
        match self {
            MessageType::Request => 1,
            MessageType::Response => 2,
            MessageType::Event => 3,
        }
    }

    /// The message type of a wire byte, or the error text for an unknown byte.
    pub fn from_wire(value: u8) -> (r: Result<MessageType, String>)
        ensures
            match r {
                Ok(t) => message_type_of(value) == Some(t),
                Err(e) => message_type_of(value) is None && e@ == unknown_message_type_text(value),
            },
    {
        match value {
            1 => Ok(MessageType::Request),
            2 => Ok(MessageType::Response),
            3 => Ok(MessageType::Event),
            other => {
                let mut e = String::from_str("unknown message type: ");
                push_decimal(&mut e, other as u64);
                Err(e)
            },
        }
    }
}

impl TryFrom<u8> for MessageType {
    type Error = String;

    fn try_from(value: u8) -> (r: Result<MessageType, String>)
        ensures
            match r {
                Ok(t) => message_type_of(value) == Some(t),
                Err(e) => message_type_of(value) is None && e@ == unknown_message_type_text(value),
            },
    {
        MessageType::from_wire(value)
    }
}

/// The error of a conversion is a `String`, which a spec function cannot build,
/// so the conversion is not described through this trait: what it returns is
/// stated by `MessageType::from_wire`, which it calls.
impl vstd::std_specs::convert::TryFromSpecImpl<u8> for MessageType {
    open spec fn obeys_try_from_spec() -> bool {
        false
    }

    open spec fn try_from_spec(v: u8) -> Result<MessageType, String> {
        match message_type_of(v) {
            Some(t) => Ok(t),
            None => Err(arbitrary()),
        }
    }
}

/// The outcome code carried by a response.
#[derive(Debug, Clone, Copy, PartialEq, Eq, Structural)]
pub enum ErrorCode {
    Success,
    InvalidPayload,
    NotImplemented,
    InternalError,
}

/// The number of each error code.
pub open spec fn error_code_value(c: ErrorCode) -> i32 {
    match c {
        ErrorCode::Success => 0,
        ErrorCode::InvalidPayload => 1,
        ErrorCode::NotImplemented => 2,
        ErrorCode::InternalError => 3,
    }
}

impl ErrorCode {
    /// The number of this error code.
    pub fn as_i32(&self) -> (v: i32)
        ensures
            v == error_code_value(*self),
    {
        match self {
            ErrorCode::Success => 0,
            ErrorCode::InvalidPayload => 1,
            ErrorCode::NotImplemented => 2,
            ErrorCode::InternalError => 3,
        }
    }
}

/// Hands out message ids: each call returns the current id and moves on by one,
/// wrapping from `u32::MAX` to 0. The first id is 1.
pub struct MessageIdCounter {
    next: u32,
}

impl View for MessageIdCounter {
    type V = u32;

    closed spec fn view(&self) -> u32 {
        self.next
    }
}

/// The id that follows `id`, wrapping at `u32::MAX`.
pub open spec fn successor_id(id: u32) -> u32 {
    if id == u32::MAX {
        0
    } else {
        (id + 1) as u32
    }
}

/// The id handed out `n` calls after the one that handed out `start`.
pub open spec fn id_after(start: u32, n: nat) -> u32 {
    ((start as nat + n) % 0x1_0000_0000) as u32
}

/// Each call hands out the id that follows the previous one.
pub proof fn lemma_id_after_step(start: u32, n: nat)
    ensures
        id_after(start, 0) == start,
        successor_id(id_after(start, n)) == id_after(start, n + 1),
{
}

/// Ids repeat only after `2^32` calls: of fewer calls, no two hand out the same id.
pub proof fn lemma_ids_distinct(start: u32, i: nat, j: nat)
    requires
        i < j < 0x1_0000_0000,
    ensures
        id_after(start, i) != id_after(start, j),
{
}

/// From a new counter, the first `k < 2^32` calls hand out exactly `1, 2, ..., k`.
pub proof fn lemma_ids_from_new(i: nat)
    requires
        i + 1 < 0x1_0000_0000,
    ensures
        id_after(1, i) == i + 1,
{
}

impl MessageIdCounter {
    /// A counter whose first id is 1.
    pub fn new() -> (c: Self)
        ensures
            c@ == 1,
    {
        MessageIdCounter { next: 1 }
    }
}

/// Takes the next message id from the counter.
pub fn next_message_id(counter: &mut MessageIdCounter) -> (id: u32)
    ensures
        id == old(counter)@,
        final(counter)@ == successor_id(old(counter)@),
{
    let id = counter.next;
    counter.next = if id == u32::MAX {
        0
    } else {
        id + 1
    };
    id
}

/// A protocol message.
#[derive(Debug, Clone)]
pub struct Message {
    pub msg_id: u32,
    pub msg_type: MessageType,
    pub topic: Topic,
    pub error_code: i32,
    pub data: Vec<u8>,
}

/// What a message holds, with its data as a sequence.
pub struct MessageView {
    pub msg_id: u32,
    pub msg_type: MessageType,
    pub topic: Topic,
    pub error_code: i32,
    pub data: Seq<u8>,
}

impl View for Message {
    type V = MessageView;

    open spec fn view(&self) -> MessageView {
        MessageView {
            msg_id: self.msg_id,
            msg_type: self.msg_type,
            topic: self.topic,
            error_code: self.error_code,
            data: self.data@,
        }
    }
}

/// The payload of a message: id, type, topic, error code, data length and data.
/// The data length is written as its low 32 bits.
pub open spec fn payload_bytes(m: MessageView) -> Seq<u8> {
    spec_u32_to_le_bytes(m.msg_id) + seq![message_type_code(m.msg_type)]
        + spec_u16_to_le_bytes(topic_code(m.topic)) + spec_i32_to_le_bytes(m.error_code)
        + spec_u32_to_le_bytes(#[verifier::truncate] (m.data.len() as u32)) + m.data
}

/// The frame of a message: magic, version, payload length (low 32 bits) and payload.
pub open spec fn frame_bytes(m: MessageView) -> Seq<u8> {
    frame_magic() + seq![PROTOCOL_VERSION] + spec_u32_to_le_bytes(
        #[verifier::truncate] (payload_bytes(m).len() as u32),
    ) + payload_bytes(m)
}

/// Why a frame does not decode.
#[derive(Debug, Clone, Copy, PartialEq, Eq, Structural)]
pub enum DecodeFailure {
    FrameShorterThanHeader,
    InvalidMagic,
    UnsupportedVersion(u8),
    IncompletePayload,
    PayloadTooShort,
    UnknownMessageType(u8),
    DataLengthMismatch,
}

/// The error text that `Message::decode` returns for each failure.
pub open spec fn failure_text(f: DecodeFailure) -> Seq<char> {
    match f {
        DecodeFailure::FrameShorterThanHeader => "frame shorter than header"@,
        DecodeFailure::InvalidMagic => "invalid magic number"@,
        DecodeFailure::UnsupportedVersion(v) => "unsupported protocol version: "@ + decimal(
            v as nat,
        ),
        DecodeFailure::IncompletePayload => "incomplete payload"@,
        DecodeFailure::PayloadTooShort => "payload too short"@,
        DecodeFailure::UnknownMessageType(v) => unknown_message_type_text(v),
        DecodeFailure::DataLengthMismatch => "data length mismatch"@,
    }
}

/// The payload length that a frame's header declares.
pub open spec fn declared_payload_len(s: Seq<u8>) -> u32 {
    spec_u32_from_le_bytes(s.subrange(5, 9))
}

/// The header checks that come before the payload is read all pass.
pub open spec fn header_accepted(s: Seq<u8>) -> bool {
    &&& s.len() >= 9
    &&& s.take(4) == frame_magic()
    &&& s[4] == PROTOCOL_VERSION
    &&& s.len() - 9 >= declared_payload_len(s)
    &&& declared_payload_len(s) >= 9
}

/// `Message::decode` would read past the end of the frame: the header and the
/// message type are accepted, but the 15 bytes of the payload header are not all
/// there (a declared payload length of 9 to 14 bytes).
pub open spec fn decode_reads_past_end(s: Seq<u8>) -> bool {
    &&& header_accepted(s)
    &&& message_type_of(s[13]) is Some
    &&& s.len() < 24
}

/// What a frame decodes to.
pub open spec fn decode_frame(s: Seq<u8>) -> Result<MessageView, DecodeFailure> {
    if s.len() < 9 {
        Err(DecodeFailure::FrameShorterThanHeader)
    } else if s.take(4) != frame_magic() {
        Err(DecodeFailure::InvalidMagic)
    } else if s[4] != PROTOCOL_VERSION {
        Err(DecodeFailure::UnsupportedVersion(s[4]))
    } else if s.len() - 9 < declared_payload_len(s) {
        Err(DecodeFailure::IncompletePayload)
    } else if declared_payload_len(s) < 9 {
        Err(DecodeFailure::PayloadTooShort)
    } else {
        match message_type_of(s[13]) {
            None => Err(DecodeFailure::UnknownMessageType(s[13])),
            Some(msg_type) => {
                let data_len = spec_u32_from_le_bytes(s.subrange(20, 24));
                if s.len() - 24 < data_len {
                    Err(DecodeFailure::DataLengthMismatch)
                } else {
                    Ok(
                        MessageView {
                            msg_id: spec_u32_from_le_bytes(s.subrange(9, 13)),
                            msg_type,
                            topic: topic_of_code(spec_u16_from_le_bytes(s.subrange(14, 16))),
                            error_code: spec_i32_from_le_bytes(s.subrange(16, 20)),
                            data: s.subrange(24, 24 + data_len),
                        },
                    )
                }
            },
        }
    }
}


/// The wire byte of a message type reads back as that type, and only the
/// three wire bytes name a type.
pub proof fn lemma_message_type_roundtrip(t: MessageType, v: u8)
    ensures
        message_type_of(message_type_code(t)) == Some(t),
        message_type_of(v) matches Some(u) ==> message_type_code(u) == v,
{
}

/// The layout of a frame, byte by byte: the magic `"sprt"`, version 3, the
/// payload length, then the message id, the type byte (1 request, 2 response,
/// 3 event), the topic's wire code, the error code, the data length (all
/// little-endian) and the data.
pub proof fn lemma_frame_layout(m: MessageView)
    ensures
        ({
            let f = frame_bytes(m);
            &&& f.len() == 24 + m.data.len()
            &&& f[0] == 0x73u8 && f[1] == 0x70u8 && f[2] == 0x72u8 && f[3] == 0x74u8
            &&& f[4] == 3u8
            &&& f.subrange(5, 9) == spec_u32_to_le_bytes(
                #[verifier::truncate] ((15 + m.data.len()) as u32),
            )
            &&& f.subrange(9, 13) == spec_u32_to_le_bytes(m.msg_id)
            &&& (m.msg_type == MessageType::Request ==> f[13] == 1u8)
            &&& (m.msg_type == MessageType::Response ==> f[13] == 2u8)
            &&& (m.msg_type == MessageType::Event ==> f[13] == 3u8)
            &&& (m.topic == Topic::Handshake ==> f.subrange(14, 16) == spec_u16_to_le_bytes(0x0100))
            &&& (m.topic == Topic::InitializeContext ==> f.subrange(14, 16) == spec_u16_to_le_bytes(0x0101))
            &&& (m.topic == Topic::DestroyContext ==> f.subrange(14, 16) == spec_u16_to_le_bytes(0x0102))
            &&& (m.topic == Topic::GetState ==> f.subrange(14, 16) == spec_u16_to_le_bytes(0x0103))
            &&& (m.topic == Topic::AuthCommand ==> f.subrange(14, 16) == spec_u16_to_le_bytes(0x0200))
            &&& (m.topic == Topic::SyncCommand ==> f.subrange(14, 16) == spec_u16_to_le_bytes(0x0300))
            &&& (m.topic == Topic::EnvironmentCommand ==> f.subrange(14, 16) == spec_u16_to_le_bytes(0x0400))
            &&& (m.topic == Topic::RuntimeEvent ==> f.subrange(14, 16) == spec_u16_to_le_bytes(0x0500))
            &&& (m.topic == Topic::Shutdown ==> f.subrange(14, 16) == spec_u16_to_le_bytes(0xFFFF))
            &&& f.subrange(16, 20) == spec_i32_to_le_bytes(m.error_code)
            &&& f.subrange(20, 24) == spec_u32_to_le_bytes(#[verifier::truncate] (m.data.len() as u32))
            &&& f.subrange(24, f.len() as int) == m.data
        }),
{
    lemma_le_roundtrip();
    lemma_topic_wire_codes();
    let f = frame_bytes(m);
    assert(f.subrange(5, 9) =~= spec_u32_to_le_bytes(#[verifier::truncate] ((15 + m.data.len()) as u32)));
    assert(f.subrange(9, 13) =~= spec_u32_to_le_bytes(m.msg_id));
    assert(f.subrange(14, 16) =~= spec_u16_to_le_bytes(topic_code(m.topic)));
    assert(f.subrange(16, 20) =~= spec_i32_to_le_bytes(m.error_code));
    assert(f.subrange(20, 24) =~= spec_u32_to_le_bytes(#[verifier::truncate] (m.data.len() as u32)));
    assert(f.subrange(24, f.len() as int) =~= m.data);
}

/// What a decoded message is read from: the id, type byte, topic code, error
/// code and data length at their offsets in the frame, and the data after them.
pub proof fn lemma_decoded_fields(s: Seq<u8>)
    ensures
        decode_frame(s) matches Ok(v) ==> {
            let code = spec_u16_from_le_bytes(s.subrange(14, 16));
            &&& s.len() >= 24
            &&& v.msg_id == spec_u32_from_le_bytes(s.subrange(9, 13))
            &&& (s[13] == 1u8 ==> v.msg_type == MessageType::Request)
            &&& (s[13] == 2u8 ==> v.msg_type == MessageType::Response)
            &&& (s[13] == 3u8 ==> v.msg_type == MessageType::Event)
            &&& (code == 0x0100 ==> v.topic == Topic::Handshake)
            &&& (code == 0x0101 ==> v.topic == Topic::InitializeContext)
            &&& (code == 0x0102 ==> v.topic == Topic::DestroyContext)
            &&& (code == 0x0103 ==> v.topic == Topic::GetState)
            &&& (code == 0x0200 ==> v.topic == Topic::AuthCommand)
            &&& (code == 0x0300 ==> v.topic == Topic::SyncCommand)
            &&& (code == 0x0400 ==> v.topic == Topic::EnvironmentCommand)
            &&& (code == 0x0500 ==> v.topic == Topic::RuntimeEvent)
            &&& (code != 0x0100 && code != 0x0101 && code != 0x0102 && code != 0x0103 && code
                != 0x0200 && code != 0x0300 && code != 0x0400 && code != 0x0500
                ==> v.topic == Topic::Shutdown)
            &&& v.error_code == spec_i32_from_le_bytes(s.subrange(16, 20))
            &&& v.data == s.subrange(24, 24 + spec_u32_from_le_bytes(s.subrange(20, 24)) as int)
        },
        decode_frame(s) is Ok ==> s[13] == 1u8 || s[13] == 2u8 || s[13] == 3u8,
{
    lemma_topic_wire_codes();
}

/// Decoding the frame of a message gives the message back, for every message
/// whose payload length fits the 32-bit length field; and such a frame can be
/// decoded without reading past its end.
pub proof fn lemma_decode_encode_roundtrip(m: MessageView)
    requires
        m.data.len() + 15 <= u32::MAX,
    ensures
        !decode_reads_past_end(frame_bytes(m)),
        decode_frame(frame_bytes(m)) == Ok::<MessageView, DecodeFailure>(m),
{
    lemma_le_roundtrip();
    lemma_topic_code_roundtrip(m.topic);
    let p = payload_bytes(m);
    let f = frame_bytes(m);
    let plen = p.len() as u32;
    let dlen = m.data.len() as u32;
    assert(p.len() == 15 + m.data.len());
    assert(f.len() == 24 + m.data.len());
    assert(f.take(4) =~= frame_magic());
    assert(f[4] == PROTOCOL_VERSION);
    assert(f.subrange(5, 9) =~= spec_u32_to_le_bytes(plen));
    assert(declared_payload_len(f) == plen);
    assert(f.subrange(9, 13) =~= spec_u32_to_le_bytes(m.msg_id));
    assert(f[13] == message_type_code(m.msg_type));
    assert(message_type_of(f[13]) == Some(m.msg_type));
    assert(f.subrange(14, 16) =~= spec_u16_to_le_bytes(topic_code(m.topic)));
    assert(f.subrange(16, 20) =~= spec_i32_to_le_bytes(m.error_code));
    assert(f.subrange(20, 24) =~= spec_u32_to_le_bytes(dlen));
    assert(f.subrange(24, 24 + dlen) =~= m.data);
}

fn text(s: &str) -> (r: String)
    ensures
        r@ == s@,
{
    String::from_str(s)
}

impl Message {
    /// A request with the next id of `counter`, success code and the given data.
    pub fn request(counter: &mut MessageIdCounter, topic: Topic, data: Vec<u8>) -> (m: Self)
        ensures
            m.msg_id == old(counter)@,
            final(counter)@ == successor_id(old(counter)@),
            m.msg_type == MessageType::Request,
            m.topic == topic,
            m.error_code == 0,
            m.data@ == data@,
    {
        Message {
            msg_id: next_message_id(counter),
            msg_type: MessageType::Request,
            topic,
            error_code: 0,
            data,
        }
    }

    /// The response to request `request_id`.
    pub fn response(request_id: u32, topic: Topic, error_code: ErrorCode, data: Vec<u8>) -> (m:
        Self)
        ensures
            m.msg_id == request_id,
            m.msg_type == MessageType::Response,
            m.topic == topic,
            m.error_code == error_code_value(error_code),
            m.data@ == data@,
    {
        Message {
            msg_id: request_id,
            msg_type: MessageType::Response,
            topic,
            error_code: error_code.as_i32(),
            data,
        }
    }

    /// The frame of this message. It never fails.
    pub fn encode(&self) -> (r: Result<bytes::Bytes, String>)
        requires
            self.data@.len() + 24 <= isize::MAX,
        ensures
            r matches Ok(b) && bytes_contents(b) == frame_bytes(self@),
    {
        proof {
            lemma_le_roundtrip();
        }
        let payload_len = HEADER_SIZE + self.data.len();
        let mut payload = new_buffer(payload_len);
        put_u32_le(&mut payload, self.msg_id);
        put_u8(&mut payload, self.msg_type.code());
        put_u16_le(&mut payload, u16::from(self.topic));
        put_i32_le(&mut payload, self.error_code);
        put_u32_le(&mut payload, #[verifier::truncate] (self.data.len() as u32));
        put_slice(&mut payload, self.data.as_slice());
        assert(bytes_mut_contents(payload) =~= payload_bytes(self@));

        let payload_size = buffer_len(&payload);
        let mut frame = new_buffer(HEADER_SIZE + payload_size);
        let magic: [u8; 4] = [0x73, 0x70, 0x72, 0x74];
        assert(magic@ =~= frame_magic());
        put_slice(&mut frame, &magic);
        put_u8(&mut frame, PROTOCOL_VERSION);
        put_u32_le(&mut frame, #[verifier::truncate] (payload_size as u32));
        put_slice(&mut frame, buffer_slice(&payload));
        assert(bytes_mut_contents(frame) =~= frame_bytes(self@));
        Ok(freeze(frame))
    }

    /// Reads a message from a frame, or says why the frame is refused.
    pub fn decode(data: &[u8]) -> (r: Result<Self, String>)
        requires
            !decode_reads_past_end(data@),
        ensures
            match r {
                Ok(m) => decode_frame(data@) == Ok::<MessageView, DecodeFailure>(m@),
                Err(e) => decode_frame(data@) matches Err(f) && e@ == failure_text(f),
            },
    {
        if data.len() < HEADER_SIZE {
            return Err(text("frame shorter than header"));
        }
        let ghost s = data@;
        let mut buffer = data;
        let magic_ok = buffer[0] == 0x73 && buffer[1] == 0x70 && buffer[2] == 0x72 && buffer[3]
            == 0x74;
        assert(magic_ok <==> s.take(4) == frame_magic()) by {
            if magic_ok {
                assert(s.take(4) =~= frame_magic());
            }
        }
        advance_slice(&mut buffer, 4);
        if !magic_ok {
            return Err(text("invalid magic number"));
        }
        let version = get_u8(&mut buffer);
        if version != PROTOCOL_VERSION {
            let mut e = text("unsupported protocol version: ");
            push_decimal(&mut e, version as u64);
            return Err(e);
        }
        assert(buffer@.take(4) =~= s.subrange(5, 9));
        let payload_len = get_u32_le(&mut buffer) as usize;
        assert(buffer@ =~= s.skip(9));
        if buffer.len() < payload_len {
            return Err(text("incomplete payload"));
        }
        if payload_len < HEADER_SIZE {
            return Err(text("payload too short"));
        }
        assert(buffer@.take(4) =~= s.subrange(9, 13));
        let msg_id = get_u32_le(&mut buffer);
        assert(buffer@ =~= s.skip(13));
        let type_byte = get_u8(&mut buffer);
        let msg_type = match MessageType::from_wire(type_byte) {
            Ok(t) => t,
            Err(e) => return Err(e),
        };
        assert(buffer@ =~= s.skip(14));
        assert(buffer@.take(2) =~= s.subrange(14, 16));
        let topic = Topic::from(get_u16_le(&mut buffer));
        assert(buffer@ =~= s.skip(16));
        assert(buffer@.take(4) =~= s.subrange(16, 20));
        let error_code = get_i32_le(&mut buffer);
        assert(buffer@ =~= s.skip(20));
        assert(buffer@.take(4) =~= s.subrange(20, 24));
        let data_len = get_u32_le(&mut buffer) as usize;
        assert(buffer@ =~= s.skip(24));
        if buffer.len() < data_len {
            return Err(text("data length mismatch"));
        }
        let mut msg_data: Vec<u8> = Vec::with_capacity(data_len);
        let mut i: usize = 0;
        while i < data_len
            invariant
                i <= data_len <= buffer@.len(),
                msg_data@ =~= buffer@.take(i as int),
            decreases data_len - i,
        {
            msg_data.push(buffer[i]);
            i = i + 1;
            assert(msg_data@ =~= buffer@.take(i as int));
        }
        assert(msg_data@ =~= s.subrange(24, 24 + data_len));
        Ok(Message { msg_id, msg_type, topic, error_code, data: msg_data })
    }
}

/// Whether `Message::decode` can be called on these bytes (it would otherwise
/// read past the end of the frame).
pub fn decode_stays_in_bounds(data: &[u8]) -> (ok: bool)
    ensures
        ok == !decode_reads_past_end(data@),
{
    if data.len() < 24 {
        if data.len() < HEADER_SIZE {
            return true;
        }
        if !(data[0] == 0x73 && data[1] == 0x70 && data[2] == 0x72 && data[3] == 0x74) {
            assert(data@.take(4)[0] == data@[0]);
            assert(data@.take(4)[1] == data@[1]);
            assert(data@.take(4)[2] == data@[2]);
            assert(data@.take(4)[3] == data@[3]);
            return true;
        }
        assert(data@.take(4) =~= frame_magic());
        if data[4] != PROTOCOL_VERSION {
            return true;
        }
        let payload_len = u32_from_le_bytes(slice_subrange(data, 5, 9)) as usize;
        if data.len() - 9 < payload_len || payload_len < HEADER_SIZE {
            return true;
        }
        let t = data[13];
        !(t == 1 || t == 2 || t == 3)
    } else {
        true
    }
}

} // verus!
