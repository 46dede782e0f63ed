//! Binary frames: where each part of a message stands, and which frames are refused.

use crate::outside::buffers::bytes_held;
use crate::protocol::{
    answers, auth_json, decode_undoes_encode, frame, hex_byte, message_of_frame, says, type_byte,
    type_of_byte, HttpRequestPayload, HttpResponsePayload, MessageModel, MessageType,
    ProtocolError, TunnelMessage,
};
use crate::text::decimal;
use bytes::Bytes;
use vstd::prelude::*;
use vstd::utf8::{decode_utf8, encode_utf8, encode_utf8_decode_utf8};

verus! {

/// The bytes that stand for the message types; no other byte stands for one.
pub proof fn types_in_numbers(b: u8)
    ensures
        type_byte(MessageType::Auth) == 1,
        type_byte(MessageType::AuthOk) == 2,
        type_byte(MessageType::AuthFail) == 3,
        type_byte(MessageType::HttpRequest) == 16,
        type_byte(MessageType::HttpResponse) == 17,
        type_byte(MessageType::Ping) == 32,
        type_byte(MessageType::Pong) == 33,
        type_byte(MessageType::Error) == 48,
        type_byte(MessageType::Close) == 64,
        type_of_byte(b) is Some <==> b == 1 || b == 2 || b == 3 || b == 16 || b == 17 || b == 32
            || b == 33 || b == 48 || b == 64,
        type_of_byte(b) matches Some(t) ==> type_byte(t) == b,
{
}

/// A frame is the byte of the type, the sixteen bytes of the id and the payload, in this order.
pub proof fn parts_of_a_frame(m: MessageModel, i: int)
    requires
        m.request_id.len() == 16,
    ensures
        frame(m).len() == 17 + m.payload.len(),
        frame(m)[0] == type_byte(m.msg_type),
        0 <= i < 16 ==> frame(m)[1 + i] == m.request_id[i],
        0 <= i < m.payload.len() ==> frame(m)[17 + i] == m.payload[i],
{
}

/// A frame is refused exactly if it is too short, of an unknown type or too long, in this order;
/// the error tells the length, the byte or the length of the payload.
pub proof fn refused_frames(data: Seq<u8>)
    requires
        data.len() <= usize::MAX,
    ensures
        data.len() < 17 <==> (message_of_frame(data) matches Err(
            ProtocolError::InsufficientData(n),
        ) && n == data.len()),
        data.len() >= 17 && type_of_byte(data[0]) is None <==> (message_of_frame(data) matches Err(
            ProtocolError::InvalidMessageType(b),
        ) && b == data[0]),
        data.len() >= 17 && type_of_byte(data[0]) is Some && data.len() - 17 > 10485760
            <==> (message_of_frame(data) matches Err(ProtocolError::PayloadTooLarge(n)) && n
            == data.len() - 17),
        data.len() >= 17 && type_of_byte(data[0]) is Some && data.len() - 17 <= 10485760
            <==> message_of_frame(data) is Ok,
{
}

/// The parts of the message that a frame holds.
pub proof fn parts_of_a_message(data: Seq<u8>, m: MessageModel, i: int)
    requires
        message_of_frame(data) == Ok::<MessageModel, ProtocolError>(m),
    ensures
        type_byte(m.msg_type) == data[0],
        m.request_id.len() == 16,
        m.payload.len() == data.len() - 17,
        0 <= i < 16 ==> m.request_id[i] == data[1 + i],
        0 <= i < m.payload.len() ==> m.payload[i] == data[17 + i],
{
}

/// A message under a fresh id carries its text: whoever decodes the payload reads the text. The id
/// is marked as random.
pub proof fn texts_are_carried(m: MessageModel, t: MessageType, text: Seq<char>)
    requires
        says(m, t, encode_utf8(text)),
    ensures
        m.msg_type == t,
        decode_utf8(m.payload) == text,
        m.request_id.len() == 16,
        m.request_id[6] as int / 16 == 4,
        m.request_id[8] as int / 64 == 2,
{
    encode_utf8_decode_utf8(text);
}

/// A message that belongs to a request has the id of the request, and the payload that it was
/// given.
pub proof fn answers_belong_to_their_request(
    m: MessageModel,
    t: MessageType,
    id: [u8; 16],
    payload: Seq<u8>,
)
    requires
        answers(m, t, id, payload),
    ensures
        m.msg_type == t,
        m.request_id == id@,
        m.payload == payload,
        frame(m) == seq![type_byte(t)] + id@ + payload,
{
}

/// A byte in hexadecimal digits: two, the first for the sixteens, the second for the ones.
pub proof fn bytes_in_hexadecimal(b: u8, c: u8)
    ensures
        hex_byte(b).len() == 2,
        hex_byte(b) == hex_byte(c) ==> b == c,
        (b as int) / 16 < 10 ==> hex_byte(b)[0] as int == 48 + (b as int) / 16,
        (b as int) / 16 >= 10 ==> hex_byte(b)[0] as int == 87 + (b as int) / 16,
        (b as int) % 16 < 10 ==> hex_byte(b)[1] as int == 48 + (b as int) % 16,
        (b as int) % 16 >= 10 ==> hex_byte(b)[1] as int == 87 + (b as int) % 16,
{
    if hex_byte(b) == hex_byte(c) {
        assert(hex_byte(b)[0] == hex_byte(c)[0]);
        assert(hex_byte(b)[1] == hex_byte(c)[1]);
    }
}

/// A message that is encoded and decoded again has its type, its id and its payload.
pub proof fn messages_cross_the_wire(
    m: TunnelMessage,
    data: Bytes,
    r: Result<TunnelMessage, ProtocolError>,
)
    requires
        call_ensures(TunnelMessage::encode, (&m,), data),
        call_ensures(TunnelMessage::decode, (data,), r),
        bytes_held(m.payload).len() <= 10485760,
    ensures
        r is Ok,
        r->Ok_0.msg_type == m.msg_type,
        r->Ok_0.request_id@ == m.request_id@,
        bytes_held(r->Ok_0.payload) == bytes_held(m.payload),
{
    decode_undoes_encode(m@);
}

/// Each text message is of its own type, and its payload is the text.
pub proof fn text_messages(text: &str, ok: TunnelMessage, refusal: TunnelMessage, e: TunnelMessage)
    requires
        call_ensures(TunnelMessage::auth_ok, (text,), ok),
        call_ensures(TunnelMessage::auth_fail, (text,), refusal),
        call_ensures(TunnelMessage::error, (text,), e),
    ensures
        ok.msg_type is AuthOk && decode_utf8(bytes_held(ok.payload)) == text@,
        refusal.msg_type is AuthFail && decode_utf8(bytes_held(refusal.payload)) == text@,
        e.msg_type is Error && decode_utf8(bytes_held(e.payload)) == text@,
{
    encode_utf8_decode_utf8(text@);
}

/// Signs of life and goodbyes are of their own types and carry nothing; a pong has the id of the
/// ping that it answers.
pub proof fn empty_messages(
    id: [u8; 16],
    ping: TunnelMessage,
    pong: TunnelMessage,
    close: TunnelMessage,
)
    requires
        call_ensures(TunnelMessage::ping, (), ping),
        call_ensures(TunnelMessage::pong, (id,), pong),
        call_ensures(TunnelMessage::close, (), close),
    ensures
        ping.msg_type is Ping && bytes_held(ping.payload).len() == 0,
        pong.msg_type is Pong && bytes_held(pong.payload).len() == 0 && pong.request_id == id,
        close.msg_type is Close && bytes_held(close.payload).len() == 0,
{
}

/// A message about a request is of its own type and has the id of the request.
pub proof fn http_messages(
    id: [u8; 16],
    p: HttpRequestPayload,
    q: HttpResponsePayload,
    request: Result<TunnelMessage, ProtocolError>,
    response: Result<TunnelMessage, ProtocolError>,
)
    requires
        call_ensures(TunnelMessage::http_request, (id, &p), request),
        call_ensures(TunnelMessage::http_response, (id, &q), response),
    ensures
        request is Ok && request->Ok_0.msg_type is HttpRequest && request->Ok_0.request_id == id,
        response is Ok && response->Ok_0.msg_type is HttpResponse && response->Ok_0.request_id == id,
{
}

/// A credential goes out in a message of its own type.
pub proof fn credentials_go_out(
    key: &str,
    subdomain: Option<&str>,
    r: Result<TunnelMessage, ProtocolError>,
)
    requires
        call_ensures(TunnelMessage::auth, (key, subdomain), r),
    ensures
        r is Ok && r->Ok_0.msg_type is Auth,
        subdomain is None ==> bytes_held(r->Ok_0.payload) == auth_json(key@, None),
        subdomain matches Some(s) ==> bytes_held(r->Ok_0.payload) == auth_json(key@, Some(s@)),
{
}

/// A refused frame is told with the byte or the length.
pub proof fn refused_frames_are_told(e: ProtocolError, r: String)
    requires
        call_ensures(ProtocolError::message, (&e,), r),
    ensures
        e matches ProtocolError::InvalidMessageType(b) ==> r@ == "invalid message type: 0x"@
            + hex_byte(b),
        e matches ProtocolError::InsufficientData(n) ==> r@
            == "insufficient data: need at least 17 bytes, got "@ + decimal(n as nat),
        e matches ProtocolError::PayloadTooLarge(n) ==> r@ == "payload too large: "@ + decimal(
            n as nat,
        ) + " bytes exceeds 10485760 byte limit"@,
{
}

} // verus!
