//! The binary frames of the relay protocol.
//!
//! A frame is one byte for the message type, sixteen bytes for the request id, and the payload:
//! `[msg_type: 1][request_id: 16][payload: rest]`. A payload is empty, plain text or a JSON
//! object.

use crate::json::{json_list, push_json_string, push_text};
use crate::json_laws::{
    ends_alone, is_json_string, json_string_determines_its_text, lemma_array_apart, lemma_group7,
    lemma_group9, lemma_number_apart, lemma_same_start, lemma_string_apart,
    lemma_strings_end_alone, stops,
};
use crate::outside::base64_text::{
    base64_decodes_to, base64_determines_its_bytes, base64_encode, base64_fits, base64_of,
    base64_reads_back,
};
use crate::outside::buffers::{
    buffer_advance, buffer_of, buffer_slice, bytes_held, bytes_written, empty_buffer, freeze,
    growing_buffer, put_byte, put_bytes,
};
use crate::outside::json::{json_error_text, json_string};
use crate::outside::random_id::{is_random_uuid, random_uuid};
use crate::text::{
    decimal, decimal_string, joined, lemma_joined_next, opt_text, pair_texts, push_decimal,
};
use bytes::Bytes;
use vstd::prelude::*;
use vstd::utf8::{encode_utf8, is_ascii_chars_encode_utf8};

verus! {

/// Maximum payload size: 10 MB.
pub const MAX_PAYLOAD_SIZE: usize = 10 * 1024 * 1024;

/// Header size: 1 byte for the message type and 16 bytes for the request id.
pub const HEADER_SIZE: usize = 17;

// ---------------------------------------------------------------------------
// Errors
// ---------------------------------------------------------------------------
/// Why a frame was refused or a message could not be built.
#[derive(Debug)]
pub enum ProtocolError {
    /// The first byte of the frame stands for no message type.
    InvalidMessageType(u8),
    /// The frame is shorter than a header; its length.
    InsufficientData(usize),
    /// The payload exceeds the limit; its length.
    PayloadTooLarge(usize),
    /// The payload could not be written as JSON.
    SerializationError(serde_json::Error),
}

impl From<serde_json::Error> for ProtocolError {
    fn from(e: serde_json::Error) -> (r: Self) {
        ProtocolError::SerializationError(e)
    }
}

impl vstd::std_specs::convert::FromSpecImpl<serde_json::Error> for ProtocolError {
    open spec fn obeys_from_spec() -> bool {
        true
    }

    open spec fn from_spec(e: serde_json::Error) -> Self {
        ProtocolError::SerializationError(e)
    }
}

/// The hexadecimal digit of value `d`, in small letters.
pub open spec fn hex_char(d: nat) -> char {
    if d < 10 {
        (('0' as u32) + d) as char
    } else {
        (('a' as u32) + (d - 10)) as char
    }
}

/// A byte as two hexadecimal digits.
pub open spec fn hex_byte(b: u8) -> Seq<char> {
    seq![hex_char(b as nat / 16), hex_char(b as nat % 16)]
}

fn hex_str(d: u8) -> (r: &'static str)
    requires
        d < 16,
    ensures
        r@ == seq![hex_char(d as nat)],
{
    proof {
        reveal_strlit("0");
        reveal_strlit("1");
        reveal_strlit("2");
        reveal_strlit("3");
        reveal_strlit("4");
        reveal_strlit("5");
        reveal_strlit("6");
        reveal_strlit("7");
        reveal_strlit("8");
        reveal_strlit("9");
        reveal_strlit("a");
        reveal_strlit("b");
        reveal_strlit("c");
        reveal_strlit("d");
        reveal_strlit("e");
        reveal_strlit("f");
    }
    match d {
        0 => "0",
        1 => "1",
        2 => "2",
        3 => "3",
        4 => "4",
        5 => "5",
        6 => "6",
        7 => "7",
        8 => "8",
        9 => "9",
        10 => "a",
        11 => "b",
        12 => "c",
        13 => "d",
        14 => "e",
        _ => "f",
    }
}

/// The message for a payload that could not be written, given what the JSON error says.
pub fn serialization_message(text: &str) -> (r: String)
    ensures
        r@ == "serialization error: "@ + text@,
{
    let mut out = "serialization error: ".to_owned();
    out.append(text);
    out
}

impl ProtocolError {
    /// The message for the user. What a JSON error says is left open.
    pub fn message(&self) -> (r: String)
        ensures
            match *self {
                ProtocolError::InvalidMessageType(b) => r@ == "invalid message type: 0x"@
                    + hex_byte(b),
                ProtocolError::InsufficientData(n) => r@
                    == "insufficient data: need at least 17 bytes, got "@ + decimal(n as nat),
                ProtocolError::PayloadTooLarge(n) => r@ == "payload too large: "@ + decimal(
                    n as nat,
                ) + " bytes exceeds 10485760 byte limit"@,
                ProtocolError::SerializationError(_) => "serialization error: "@.is_prefix_of(r@),
            },
    {
        match self {
            ProtocolError::InvalidMessageType(b) => {
                let mut out = "invalid message type: 0x".to_owned();
                let ghost head = out@;
                out.append(hex_str(*b / 16));
                out.append(hex_str(*b % 16));
                assert(out@ =~= head + hex_byte(*b));
                out
            },
            ProtocolError::InsufficientData(n) => {
                let mut out = "insufficient data: need at least 17 bytes, got ".to_owned();
                push_decimal(&mut out, *n as u64);
                out
            },
            ProtocolError::PayloadTooLarge(n) => {
                let mut out = "payload too large: ".to_owned();
                push_decimal(&mut out, *n as u64);
                out.append(" bytes exceeds 10485760 byte limit");
                out
            },
            ProtocolError::SerializationError(e) => {
                let text = json_error_text(e);
                let out = serialization_message(text.as_str());
                let ghost head = "serialization error: "@;
                assert(out@.take(head.len() as int) =~= head);
                out
            },
        }
    }
}

// ---------------------------------------------------------------------------
// Message types
// ---------------------------------------------------------------------------
/// What a message is for.
#[derive(Debug, Clone, Copy, PartialEq, Eq, Structural)]
pub enum MessageType {
    Auth,
    AuthOk,
    AuthFail,
    HttpRequest,
    HttpResponse,
    Ping,
    Pong,
    Error,
    Close,
}

/// The byte that stands for a message type.
pub open spec fn type_byte(t: MessageType) -> u8 {
    match t {
        MessageType::Auth => 0x01,
        MessageType::AuthOk => 0x02,
        MessageType::AuthFail => 0x03,
        MessageType::HttpRequest => 0x10,
        MessageType::HttpResponse => 0x11,
        MessageType::Ping => 0x20,
        MessageType::Pong => 0x21,
        MessageType::Error => 0x30,
        MessageType::Close => 0x40,
    }
}

/// The message type that a byte stands for.
pub open spec fn type_of_byte(b: u8) -> Option<MessageType> {
    if b == 0x01 {
        Some(MessageType::Auth)
    } else if b == 0x02 {
        Some(MessageType::AuthOk)
    } else if b == 0x03 {
        Some(MessageType::AuthFail)
    } else if b == 0x10 {
        Some(MessageType::HttpRequest)
    } else if b == 0x11 {
        Some(MessageType::HttpResponse)
    } else if b == 0x20 {
        Some(MessageType::Ping)
    } else if b == 0x21 {
        Some(MessageType::Pong)
    } else if b == 0x30 {
        Some(MessageType::Error)
    } else if b == 0x40 {
        Some(MessageType::Close)
    } else {
        None
    }
}

impl MessageType {
    /// The byte that stands for the type in a frame.
    pub fn to_byte(self) -> (r: u8)
        ensures
            r == type_byte(self),
    {
        match self {
            MessageType::Auth => 0x01,
            MessageType::AuthOk => 0x02,
            MessageType::AuthFail => 0x03,
            MessageType::HttpRequest => 0x10,
            MessageType::HttpResponse => 0x11,
            MessageType::Ping => 0x20,
            MessageType::Pong => 0x21,
            MessageType::Error => 0x30,
            MessageType::Close => 0x40,
        }
    }
}

impl TryFrom<u8> for MessageType {
    type Error = ProtocolError;

    fn try_from(value: u8) -> (r: Result<Self, ProtocolError>) {
        match value {
            0x01 => Ok(MessageType::Auth),
            0x02 => Ok(MessageType::AuthOk),
            0x03 => Ok(MessageType::AuthFail),
            0x10 => Ok(MessageType::HttpRequest),
            0x11 => Ok(MessageType::HttpResponse),
            0x20 => Ok(MessageType::Ping),
            0x21 => Ok(MessageType::Pong),
            0x30 => Ok(MessageType::Error),
            0x40 => Ok(MessageType::Close),
            other => Err(ProtocolError::InvalidMessageType(other)),
        }
    }
}

impl vstd::std_specs::convert::TryFromSpecImpl<u8> for MessageType {
    open spec fn obeys_try_from_spec() -> bool {
        true
    }

    open spec fn try_from_spec(v: u8) -> Result<Self, ProtocolError> {
        match type_of_byte(v) {
            Some(t) => Ok(t),
            None => Err(ProtocolError::InvalidMessageType(v)),
        }
    }
}

/// A type's byte stands for that type.
pub proof fn type_byte_reads_back(t: MessageType)
    ensures
        type_of_byte(type_byte(t)) == Some(t),
{
}

/// A byte that stands for a type is that type's byte.
pub proof fn type_of_byte_writes_back(b: u8)
    requires
        type_of_byte(b) is Some,
    ensures
        type_byte(type_of_byte(b).unwrap()) == b,
{
}

// ---------------------------------------------------------------------------
// Frames
// ---------------------------------------------------------------------------
/// One message of the protocol.
#[derive(Debug)]
pub struct TunnelMessage {
    pub msg_type: MessageType,
    pub request_id: [u8; 16],
    pub payload: Bytes,
}

/// A message as plain values.
pub struct MessageModel {
    pub msg_type: MessageType,
    pub request_id: Seq<u8>,
    pub payload: Seq<u8>,
}

impl View for TunnelMessage {
    type V = MessageModel;

    open spec fn view(&self) -> MessageModel {
        MessageModel {
            msg_type: self.msg_type,
            request_id: self.request_id@,
            payload: bytes_held(self.payload),
        }
    }
}

impl Clone for TunnelMessage {
    fn clone(&self) -> (r: Self)
        ensures
            r@ == self@,
    {
        TunnelMessage {
            msg_type: self.msg_type,
            request_id: self.request_id,
            payload: self.payload.clone(),
        }
    }
}

/// The frame of a message.
pub open spec fn frame(m: MessageModel) -> Seq<u8> {
    seq![type_byte(m.msg_type)] + m.request_id + m.payload
}

/// The message that a frame holds, or why there is none. A short frame is told before an unknown
/// type, and an unknown type before a large payload.
pub open spec fn message_of_frame(data: Seq<u8>) -> Result<MessageModel, ProtocolError> {
    if data.len() < HEADER_SIZE {
        Err(ProtocolError::InsufficientData(data.len() as usize))
    } else {
        match type_of_byte(data[0]) {
            None => Err(ProtocolError::InvalidMessageType(data[0])),
            Some(t) => {
                let payload = data.skip(HEADER_SIZE as int);
                if payload.len() > MAX_PAYLOAD_SIZE {
                    Err(ProtocolError::PayloadTooLarge(payload.len() as usize))
                } else {
                    Ok(
                        MessageModel {
                            msg_type: t,
                            request_id: data.subrange(1, HEADER_SIZE as int),
                            payload,
                        },
                    )
                }
            },
        }
    }
}

/// Decoding the frame of a message gives the message back.
pub proof fn decode_undoes_encode(m: MessageModel)
    requires
        m.request_id.len() == 16,
        m.payload.len() <= MAX_PAYLOAD_SIZE,
    ensures
        message_of_frame(frame(m)) == Ok::<MessageModel, ProtocolError>(m),
{
    let data = frame(m);
    assert(data.skip(HEADER_SIZE as int) =~= m.payload);
    assert(data.subrange(1, HEADER_SIZE as int) =~= m.request_id);
}

/// A message whose payload exceeds the limit has a frame that is refused for its size.
pub proof fn decode_refuses_large_payload(m: MessageModel)
    requires
        m.request_id.len() == 16,
        m.payload.len() > MAX_PAYLOAD_SIZE,
    ensures
        message_of_frame(frame(m)) == Err::<MessageModel, ProtocolError>(
            ProtocolError::PayloadTooLarge(m.payload.len() as usize),
        ),
{
    assert(frame(m).skip(HEADER_SIZE as int) =~= m.payload);
}

/// Encoding the message of a frame gives the frame back.
pub proof fn encode_undoes_decode(data: Seq<u8>, m: MessageModel)
    requires
        message_of_frame(data) == Ok::<MessageModel, ProtocolError>(m),
    ensures
        frame(m) == data,
        m.request_id.len() == 16,
        m.payload.len() <= MAX_PAYLOAD_SIZE,
{
    assert(frame(m) =~= data);
}

/// Two messages with the same frame are the same message.
pub proof fn frames_are_distinct(a: MessageModel, b: MessageModel)
    requires
        a.request_id.len() == 16,
        b.request_id.len() == 16,
        frame(a) == frame(b),
    ensures
        a == b,
{
    assert(frame(a)[0] == type_byte(a.msg_type));
    assert(frame(b)[0] == type_byte(b.msg_type));
    type_byte_reads_back(a.msg_type);
    type_byte_reads_back(b.msg_type);
    assert(frame(a).subrange(1, HEADER_SIZE as int) =~= a.request_id);
    assert(frame(b).subrange(1, HEADER_SIZE as int) =~= b.request_id);
    assert(frame(a).skip(HEADER_SIZE as int) =~= a.payload);
    assert(frame(b).skip(HEADER_SIZE as int) =~= b.payload);
}

/// Whether a message is of a type, under a fresh random id, and carries a payload.
pub open spec fn says(m: MessageModel, msg_type: MessageType, payload: Seq<u8>) -> bool {
    &&& m.msg_type == msg_type
    &&& is_random_uuid(m.request_id)
    &&& m.payload == payload
}

/// Whether a message is of a type, belongs to a request and carries a payload.
pub open spec fn answers(
    m: MessageModel,
    msg_type: MessageType,
    request_id: [u8; 16],
    payload: Seq<u8>,
) -> bool {
    &&& m.msg_type == msg_type
    &&& m.request_id == request_id@
    &&& m.payload == payload
}

impl TunnelMessage {
    /// Create a new tunnel message.
    pub fn new(msg_type: MessageType, request_id: [u8; 16], payload: Bytes) -> (r: Self)
        ensures
            r.msg_type == msg_type,
            r.request_id == request_id,
            r.payload == payload,
    {
        TunnelMessage { msg_type, request_id, payload }
    }

    /// Whether the frame of the message fits into one buffer.
    pub open spec fn fits(&self) -> bool {
        frame(self@).len() <= isize::MAX
    }

    /// The length of the frame, if it fits into one buffer.
    pub fn encoded_len(&self) -> (r: Option<usize>)
        ensures
            r is Some == self.fits(),
            r matches Some(n) ==> n == frame(self@).len(),
    {
        let n: usize = buffer_slice(&self.payload).len();
        if n <= isize::MAX as usize - HEADER_SIZE {
            Some(HEADER_SIZE + n)
        } else {
            None
        }
    }

    /// Encode the message into a binary frame.
    ///
    /// Wire format: `[msg_type: 1][request_id: 16][payload: rest]`
    pub fn encode(&self) -> (r: Bytes)
        requires
            self.fits(),
        ensures
            bytes_held(r) == frame(self@),
    {
        let payload = buffer_slice(&self.payload);
        let mut buf = growing_buffer(HEADER_SIZE + payload.len());
        put_byte(&mut buf, self.msg_type.to_byte());
        put_bytes(&mut buf, self.request_id.as_slice());
        put_bytes(&mut buf, payload);
        assert(bytes_written(buf) =~= frame(self@));
        freeze(buf)
    }

    /// Encode the message into a binary frame, if that fits into one buffer.
    pub fn try_encode(&self) -> (r: Option<Bytes>)
        ensures
            r is Some == self.fits(),
            r matches Some(b) ==> bytes_held(b) == frame(self@),
    {
        match self.encoded_len() {
            Some(_) => Some(self.encode()),
            None => None,
        }
    }

    /// Decode a binary frame into a tunnel message.
    ///
    /// Enforces `MAX_PAYLOAD_SIZE`.
    pub fn decode(data: Bytes) -> (r: Result<Self, ProtocolError>)
        ensures
            match r {
                Ok(m) => message_of_frame(bytes_held(data)) == Ok::<MessageModel, ProtocolError>(
                    m@,
                ),
                Err(e) => message_of_frame(bytes_held(data)) == Err::<MessageModel, ProtocolError>(
                    e,
                ),
            },
    {
        let len: usize = buffer_slice(&data).len();
        if len < HEADER_SIZE {
            return Err(ProtocolError::InsufficientData(len));
        }
        let mut cursor = data;
        let msg_type_byte: u8 = buffer_slice(&cursor)[0];
        buffer_advance(&mut cursor, 1);

        let msg_type = match MessageType::try_from(msg_type_byte) {
            Ok(t) => t,
            Err(e) => {
                return Err(e);
            },
        };

        let s = buffer_slice(&cursor);
        let request_id: [u8; 16] = [
            s[0],
            s[1],
            s[2],
            s[3],
            s[4],
            s[5],
            s[6],
            s[7],
            s[8],
            s[9],
            s[10],
            s[11],
            s[12],
            s[13],
            s[14],
            s[15],
        ];
        assert(request_id@ =~= bytes_held(data).subrange(1, HEADER_SIZE as int));
        buffer_advance(&mut cursor, 16);
        assert(bytes_held(cursor) =~= bytes_held(data).skip(HEADER_SIZE as int));

        let payload_len: usize = buffer_slice(&cursor).len();
        if payload_len > MAX_PAYLOAD_SIZE {
            return Err(ProtocolError::PayloadTooLarge(payload_len));
        }
        Ok(TunnelMessage { msg_type, request_id, payload: cursor })
    }

    // -----------------------------------------------------------------------
    // Convenience constructors
    // -----------------------------------------------------------------------
    /// Build an Auth message with a JSON payload.
    pub fn auth(api_key: &str, subdomain: Option<&str>) -> (r: Result<Self, ProtocolError>)
        ensures
            r is Ok,
            says(
                r->Ok_0@,
                MessageType::Auth,
                auth_json(
                    api_key@,
                    match subdomain {
                        Some(s) => Some(s@),
                        None => None,
                    },
                ),
            ),
    {
        let auth = AuthPayload {
            key: api_key.to_owned(),
            subdomain: match subdomain {
                Some(s) => Some(s.to_owned()),
                None => None,
            },
        };
        let json = match auth.to_json() {
            Ok(json) => json,
            Err(e) => {
                return Err(ProtocolError::from(e));
            },
        };
        Ok(TunnelMessage::new(MessageType::Auth, random_uuid(), buffer_of(json)))
    }

    /// Build an AuthOk message carrying the assigned subdomain.
    pub fn auth_ok(subdomain: &str) -> (r: Self)
        ensures
            says(r@, MessageType::AuthOk, encode_utf8(subdomain@)),
    {
        TunnelMessage::new(
            MessageType::AuthOk,
            random_uuid(),
            buffer_of(subdomain.as_bytes_vec()),
        )
    }

    /// Build an AuthFail message carrying the rejection reason.
    pub fn auth_fail(reason: &str) -> (r: Self)
        ensures
            says(r@, MessageType::AuthFail, encode_utf8(reason@)),
    {
        TunnelMessage::new(
            MessageType::AuthFail,
            random_uuid(),
            buffer_of(reason.as_bytes_vec()),
        )
    }

    /// Build a Ping message.
    pub fn ping() -> (r: Self)
        ensures
            says(r@, MessageType::Ping, Seq::<u8>::empty()),
    {
        TunnelMessage::new(MessageType::Ping, random_uuid(), empty_buffer())
    }

    /// Build a Pong message echoing the request id.
    pub fn pong(request_id: [u8; 16]) -> (r: Self)
        ensures
            r.msg_type == MessageType::Pong,
            r.request_id == request_id,
            r@.payload == Seq::<u8>::empty(),
            answers(r@, MessageType::Pong, request_id, Seq::<u8>::empty()),
    {
        TunnelMessage::new(MessageType::Pong, request_id, empty_buffer())
    }

    /// Build a Close message.
    pub fn close() -> (r: Self)
        ensures
            says(r@, MessageType::Close, Seq::<u8>::empty()),
    {
        TunnelMessage::new(MessageType::Close, random_uuid(), empty_buffer())
    }

    /// Build an Error message.
    pub fn error(reason: &str) -> (r: Self)
        ensures
            says(r@, MessageType::Error, encode_utf8(reason@)),
    {
        TunnelMessage::new(
            MessageType::Error,
            random_uuid(),
            buffer_of(reason.as_bytes_vec()),
        )
    }

    /// Build an HttpRequest message from an `HttpRequestPayload`.
    pub fn http_request(request_id: [u8; 16], payload: &HttpRequestPayload) -> (r: Result<
        Self,
        ProtocolError,
    >)
        requires
            base64_fits(payload.body@.len()),
        ensures
            r is Ok,
            r->Ok_0.msg_type == MessageType::HttpRequest,
            r->Ok_0.request_id == request_id,
            r->Ok_0@.payload == request_json(*payload),
            answers(r->Ok_0@, MessageType::HttpRequest, request_id, request_json(*payload)),
    {
        let json = match payload.to_json() {
            Ok(json) => json,
            Err(e) => {
                return Err(ProtocolError::from(e));
            },
        };
        Ok(TunnelMessage::new(MessageType::HttpRequest, request_id, buffer_of(json)))
    }

    /// Build an HttpResponse message from an `HttpResponsePayload`.
    pub fn http_response(request_id: [u8; 16], payload: &HttpResponsePayload) -> (r: Result<
        Self,
        ProtocolError,
    >)
        requires
            base64_fits(payload.body@.len()),
        ensures
            r is Ok,
            r->Ok_0.msg_type == MessageType::HttpResponse,
            r->Ok_0.request_id == request_id,
            r->Ok_0@.payload == response_json(*payload),
            answers(r->Ok_0@, MessageType::HttpResponse, request_id, response_json(*payload)),
    {
        let json = match payload.to_json() {
            Ok(json) => json,
            Err(e) => {
                return Err(ProtocolError::from(e));
            },
        };
        Ok(TunnelMessage::new(MessageType::HttpResponse, request_id, buffer_of(json)))
    }
}

// ---------------------------------------------------------------------------
// Payloads
// ---------------------------------------------------------------------------
/// The payload of an Auth message.
#[derive(Debug, Clone)]
pub struct AuthPayload {
    pub key: String,
    pub subdomain: Option<String>,
}

/// The payload of an HttpRequest message. In JSON its body is Base64.
#[derive(Debug, Clone)]
pub struct HttpRequestPayload {
    pub method: String,
    pub uri: String,
    pub headers: Vec<(String, String)>,
    pub body: Vec<u8>,
}

/// The payload of an HttpResponse message. In JSON its body is Base64.
#[derive(Debug, Clone)]
pub struct HttpResponsePayload {
    pub status: u16,
    pub headers: Vec<(String, String)>,
    pub body: Vec<u8>,
}

/// One header pair in JSON.
pub open spec fn pair_json(k: Seq<char>, v: Seq<char>) -> Seq<u8> {
    json_list(seq![json_string(k), json_string(v)])
}

/// Header pairs in JSON: an array of two-element arrays.
pub open spec fn headers_json(headers: Seq<(String, String)>) -> Seq<u8> {
    json_list(headers.map_values(|p: (String, String)| pair_json(p.0@, p.1@)))
}

/// A body in JSON: a string that holds its Base64.
pub open spec fn body_json(body: Seq<u8>) -> Seq<u8> {
    json_string(base64_of(body))
}

/// An Auth payload in JSON. The subdomain is left out if there is none.
pub open spec fn auth_json(key: Seq<char>, subdomain: Option<Seq<char>>) -> Seq<u8> {
    let head = encode_utf8("{\"key\":"@) + json_string(key);
    let tail = match subdomain {
        Some(s) => head + encode_utf8(",\"subdomain\":"@) + json_string(s),
        None => head,
    };
    tail + encode_utf8("}"@)
}

/// An HttpRequest payload in JSON.
pub open spec fn request_json(p: HttpRequestPayload) -> Seq<u8> {
    encode_utf8("{\"method\":"@) + json_string(p.method@) + encode_utf8(",\"uri\":"@)
        + json_string(p.uri@) + encode_utf8(",\"headers\":"@) + headers_json(p.headers@)
        + encode_utf8(",\"body\":"@) + body_json(p.body@) + encode_utf8("}"@)
}

/// An HttpResponse payload in JSON.
pub open spec fn response_json(p: HttpResponsePayload) -> Seq<u8> {
    encode_utf8("{\"status\":"@) + encode_utf8(decimal(p.status as nat)) + encode_utf8(
        ",\"headers\":"@,
    ) + headers_json(p.headers@) + encode_utf8(",\"body\":"@) + body_json(p.body@) + encode_utf8(
        "}"@,
    )
}

fn push_pair(out: &mut Vec<u8>, name: &str, value: &str) -> (r: Result<(), serde_json::Error>)
    ensures
        r is Ok,
        final(out)@ == old(out)@ + pair_json(name@, value@),
{
    let ghost before = out@;
    push_text(out, "[");
    push_json_string(out, name)?;
    push_text(out, ",");
    push_json_string(out, value)?;
    push_text(out, "]");
    proof {
        let (k, v) = (json_string(name@), json_string(value@));
        let comma = encode_utf8(","@);
        let pair = seq![k, v];
        assert(pair.drop_last() =~= seq![k]);
        assert(joined(seq![k], comma) == k);
        assert(joined(pair, comma) == k + comma + v);
        assert(out@ =~= before + pair_json(name@, value@));
    }
    Ok(())
}

#[verifier::spinoff_prover]
fn push_headers(out: &mut Vec<u8>, headers: &Vec<(String, String)>) -> (r: Result<
    (),
    serde_json::Error,
>)
    ensures
        r is Ok,
        final(out)@ == old(out)@ + headers_json(headers@),
{
    let ghost before = out@;
    let ghost items = headers@.map_values(|p: (String, String)| pair_json(p.0@, p.1@));
    let ghost comma = encode_utf8(","@);
    push_text(out, "[");
    let ghost start = out@;
    let mut i: usize = 0;
    assert(items.take(0) =~= Seq::<Seq<u8>>::empty());
    assert(out@ =~= start + joined(items.take(0), comma));
    while i < headers.len()
        invariant
            i <= headers@.len(),
            items == headers@.map_values(|p: (String, String)| pair_json(p.0@, p.1@)),
            comma == encode_utf8(","@),
            out@ == start + joined(items.take(i as int), comma),
        decreases headers@.len() - i,
    {
        proof {
            lemma_joined_next(items, i as int, comma);
        }
        if i > 0 {
            push_text(out, ",");
        }
        push_pair(out, headers[i].0.as_str(), headers[i].1.as_str())?;
        assert(out@ =~= start + joined(items.take(i + 1), comma));
        i = i + 1;
    }
    assert(items.take(items.len() as int) =~= items);
    push_text(out, "]");
    assert(out@ =~= before + headers_json(headers@));
    Ok(())
}

fn push_body(out: &mut Vec<u8>, body: &Vec<u8>) -> (r: Result<(), serde_json::Error>)
    requires
        base64_fits(body@.len()),
    ensures
        r is Ok,
        final(out)@ == old(out)@ + body_json(body@),
{
    let text = base64_encode(body.as_slice());
    push_json_string(out, text.as_str())
}

impl AuthPayload {
    /// The payload in JSON.
    pub fn to_json(&self) -> (r: Result<Vec<u8>, serde_json::Error>)
        ensures
            r is Ok,
            r->Ok_0@ == auth_json(self.key@, opt_text(self.subdomain)),
    {
        let mut out = "{\"key\":".as_bytes_vec();
        push_json_string(&mut out, self.key.as_str())?;
        if let Some(s) = &self.subdomain {
            push_text(&mut out, ",\"subdomain\":");
            push_json_string(&mut out, s.as_str())?;
        }
        push_text(&mut out, "}");
        Ok(out)
    }
}

impl HttpRequestPayload {
    /// The payload in JSON.
    pub fn to_json(&self) -> (r: Result<Vec<u8>, serde_json::Error>)
        requires
            base64_fits(self.body@.len()),
        ensures
            r is Ok,
            r->Ok_0@ == request_json(*self),
    {
        let mut out = "{\"method\":".as_bytes_vec();
        push_json_string(&mut out, self.method.as_str())?;
        push_text(&mut out, ",\"uri\":");
        push_json_string(&mut out, self.uri.as_str())?;
        push_text(&mut out, ",\"headers\":");
        push_headers(&mut out, &self.headers)?;
        push_text(&mut out, ",\"body\":");
        push_body(&mut out, &self.body)?;
        push_text(&mut out, "}");
        Ok(out)
    }
}

impl HttpResponsePayload {
    /// The payload in JSON.
    pub fn to_json(&self) -> (r: Result<Vec<u8>, serde_json::Error>)
        requires
            base64_fits(self.body@.len()),
        ensures
            r is Ok,
            r->Ok_0@ == response_json(*self),
    {
        let mut out = "{\"status\":".as_bytes_vec();
        push_text(&mut out, decimal_string(self.status as u64).as_str());
        push_text(&mut out, ",\"headers\":");
        push_headers(&mut out, &self.headers)?;
        push_text(&mut out, ",\"body\":");
        push_body(&mut out, &self.body)?;
        push_text(&mut out, "}");
        Ok(out)
    }
}

// ---------------------------------------------------------------------------
// What the JSON of a payload determines
// ---------------------------------------------------------------------------
spec fn is_pair_json(p: Seq<u8>) -> bool {
    exists|k: Seq<char>, v: Seq<char>| p == #[trigger] pair_json(k, v)
}

proof fn lemma_pair_apart(
    k: Seq<char>,
    v: Seq<char>,
    l: Seq<char>,
    w: Seq<char>,
    x: Seq<u8>,
    y: Seq<u8>,
)
    requires
        pair_json(k, v) + x == pair_json(l, w) + y,
    ensures
        k == l,
        v == w,
        x == y,
{
    let a = seq![json_string(k), json_string(v)];
    let b = seq![json_string(l), json_string(w)];
    let item = |p: Seq<u8>| is_json_string(p);
    lemma_strings_end_alone(0x5d);
    assert(is_json_string(json_string(k)) && is_json_string(json_string(v)));
    assert(is_json_string(json_string(l)) && is_json_string(json_string(w)));
    lemma_array_apart(a, b, item, x, y);
    assert(a[0] == b[0] && a[1] == b[1]);
    json_string_determines_its_text(k, l);
    json_string_determines_its_text(v, w);
}

proof fn lemma_pairs_end_alone()
    ensures
        ends_alone(|p: Seq<u8>| is_pair_json(p), 0x5d),
{
    let item = |p: Seq<u8>| is_pair_json(p);
    reveal_strlit("[");
    is_ascii_chars_encode_utf8("["@);
    assert forall|p: Seq<u8>| #[trigger] item(p) implies p.len() > 0 && p[0] != 0x5d by {
        let (k, v) = choose|k: Seq<char>, v: Seq<char>| p == #[trigger] pair_json(k, v);
        assert(p[0] == encode_utf8("["@)[0]);
    }
    assert forall|p: Seq<u8>, q: Seq<u8>, x: Seq<u8>, y: Seq<u8>|
        item(p) && item(q) && stops(x, 0x5d) && stops(y, 0x5d) && #[trigger] (p + x)
            == #[trigger] (q + y) implies p == q by {
        let (k, v) = choose|k: Seq<char>, v: Seq<char>| p == #[trigger] pair_json(k, v);
        let (l, w) = choose|l: Seq<char>, w: Seq<char>| q == #[trigger] pair_json(l, w);
        lemma_pair_apart(k, v, l, w, x, y);
    }
}

proof fn lemma_headers_apart(
    a: Seq<(String, String)>,
    b: Seq<(String, String)>,
    x: Seq<u8>,
    y: Seq<u8>,
)
    requires
        headers_json(a) + x == headers_json(b) + y,
    ensures
        pair_texts(a) == pair_texts(b),
        x == y,
{
    let item = |p: Seq<u8>| is_pair_json(p);
    let f = |p: (String, String)| pair_json(p.0@, p.1@);
    let fa = a.map_values(f);
    let fb = b.map_values(f);
    lemma_pairs_end_alone();
    assert forall|i: int| 0 <= i < fa.len() implies item(#[trigger] fa[i]) by {
        assert(fa[i] == pair_json(a[i].0@, a[i].1@));
    }
    assert forall|i: int| 0 <= i < fb.len() implies item(#[trigger] fb[i]) by {
        assert(fb[i] == pair_json(b[i].0@, b[i].1@));
    }
    lemma_array_apart(fa, fb, item, x, y);
    assert(a.len() == fa.len() && b.len() == fb.len());
    assert forall|i: int| 0 <= i < a.len() implies pair_texts(a)[i] == pair_texts(b)[i] by {
        assert(fa[i] == pair_json(a[i].0@, a[i].1@));
        assert(fb[i] == pair_json(b[i].0@, b[i].1@));
        lemma_pair_apart(a[i].0@, a[i].1@, b[i].0@, b[i].1@, Seq::empty(), Seq::empty());
    }
    assert(pair_texts(a) =~= pair_texts(b));
}

proof fn lemma_body_apart(a: Seq<u8>, b: Seq<u8>, x: Seq<u8>, y: Seq<u8>)
    requires
        body_json(a) + x == body_json(b) + y,
    ensures
        a == b,
        x == y,
{
    lemma_string_apart(base64_of(a), base64_of(b), x, y);
    base64_determines_its_bytes(a, b);
}

/// Whoever decodes the text of a body has the body.
pub proof fn payload_body_reads_back(body: Seq<u8>, text: Seq<char>, decoded: Option<Seq<u8>>)
    requires
        body_json(body) == json_string(text),
        base64_decodes_to(text, decoded),
    ensures
        decoded == Some(body),
{
    json_string_determines_its_text(base64_of(body), text);
    base64_reads_back(body, decoded);
}

/// Auth payloads that are written as the same JSON are the same.
pub proof fn auth_json_determines_the_payload(
    key: Seq<char>,
    subdomain: Option<Seq<char>>,
    other_key: Seq<char>,
    other_subdomain: Option<Seq<char>>,
)
    requires
        auth_json(key, subdomain) == auth_json(other_key, other_subdomain),
    ensures
        key == other_key,
        subdomain == other_subdomain,
{
    let head = encode_utf8("{\"key\":"@);
    let comma = encode_utf8(",\"subdomain\":"@);
    let close = encode_utf8("}"@);
    let rest = |s: Option<Seq<char>>|
        match s {
            Some(t) => comma + (json_string(t) + close),
            None => close,
        };
    assert(auth_json(key, subdomain) =~= head + (json_string(key) + rest(subdomain)));
    assert(auth_json(other_key, other_subdomain) =~= head + (json_string(other_key) + rest(
        other_subdomain,
    )));
    lemma_same_start(
        head,
        json_string(key) + rest(subdomain),
        json_string(other_key) + rest(other_subdomain),
    );
    lemma_string_apart(key, other_key, rest(subdomain), rest(other_subdomain));
    reveal_strlit(",\"subdomain\":");
    reveal_strlit("}");
    is_ascii_chars_encode_utf8(",\"subdomain\":"@);
    is_ascii_chars_encode_utf8("}"@);
    assert(comma[0] == 0x2c && close[0] == 0x7d);
    match (subdomain, other_subdomain) {
        (Some(s), Some(t)) => {
            lemma_same_start(comma, json_string(s) + close, json_string(t) + close);
            lemma_string_apart(s, t, close, close);
        },
        (None, None) => {},
        (Some(s), None) => {
            assert(rest(subdomain)[0] == 0x2c);
        },
        (None, Some(t)) => {
            assert(rest(other_subdomain)[0] == 0x2c);
        },
    }
}

/// HttpRequest payloads that are written as the same JSON are the same.
pub proof fn request_json_determines_the_payload(p: HttpRequestPayload, q: HttpRequestPayload)
    requires
        request_json(p) == request_json(q),
    ensures
        p.method@ == q.method@,
        p.uri@ == q.uri@,
        pair_texts(p.headers@) == pair_texts(q.headers@),
        p.body@ == q.body@,
{
    let l1 = encode_utf8("{\"method\":"@);
    let l2 = encode_utf8(",\"uri\":"@);
    let l3 = encode_utf8(",\"headers\":"@);
    let l4 = encode_utf8(",\"body\":"@);
    let end = encode_utf8("}"@);
    let (pm, pu) = (json_string(p.method@), json_string(p.uri@));
    let (qm, qu) = (json_string(q.method@), json_string(q.uri@));
    let (ph, pb) = (headers_json(p.headers@), body_json(p.body@));
    let (qh, qb) = (headers_json(q.headers@), body_json(q.body@));
    lemma_group9(l1, pm, l2, pu, l3, ph, l4, pb, end);
    lemma_group9(l1, qm, l2, qu, l3, qh, l4, qb, end);
    let (p4, q4) = (l4 + (pb + end), l4 + (qb + end));
    let (p3, q3) = (l3 + (ph + p4), l3 + (qh + q4));
    let (p2, q2) = (l2 + (pu + p3), l2 + (qu + q3));
    lemma_same_start(l1, pm + p2, qm + q2);
    lemma_string_apart(p.method@, q.method@, p2, q2);
    lemma_same_start(l2, pu + p3, qu + q3);
    lemma_string_apart(p.uri@, q.uri@, p3, q3);
    lemma_same_start(l3, ph + p4, qh + q4);
    lemma_headers_apart(p.headers@, q.headers@, p4, q4);
    lemma_same_start(l4, pb + end, qb + end);
    lemma_body_apart(p.body@, q.body@, end, end);
}

/// HttpResponse payloads that are written as the same JSON are the same.
pub proof fn response_json_determines_the_payload(p: HttpResponsePayload, q: HttpResponsePayload)
    requires
        response_json(p) == response_json(q),
    ensures
        p.status == q.status,
        pair_texts(p.headers@) == pair_texts(q.headers@),
        p.body@ == q.body@,
{
    let l1 = encode_utf8("{\"status\":"@);
    let l2 = encode_utf8(",\"headers\":"@);
    let l3 = encode_utf8(",\"body\":"@);
    let end = encode_utf8("}"@);
    let (pn, qn) = (encode_utf8(decimal(p.status as nat)), encode_utf8(decimal(q.status as nat)));
    let (ph, pb) = (headers_json(p.headers@), body_json(p.body@));
    let (qh, qb) = (headers_json(q.headers@), body_json(q.body@));
    lemma_group7(l1, pn, l2, ph, l3, pb, end);
    lemma_group7(l1, qn, l2, qh, l3, qb, end);
    let (p3, q3) = (l3 + (pb + end), l3 + (qb + end));
    let (p2, q2) = (l2 + (ph + p3), l2 + (qh + q3));
    lemma_same_start(l1, pn + p2, qn + q2);
    reveal_strlit(",\"headers\":");
    is_ascii_chars_encode_utf8(",\"headers\":"@);
    assert(p2[0] == 0x2c && q2[0] == 0x2c);
    lemma_number_apart(p.status as nat, q.status as nat, p2, q2);
    lemma_same_start(l2, ph + p3, qh + q3);
    lemma_headers_apart(p.headers@, q.headers@, p3, q3);
    lemma_same_start(l3, pb + end, qb + end);
    lemma_body_apart(p.body@, q.body@, end, end);
}

} // verus!
