//! The JSON of the envelopes that the client sends.
//!
//! An envelope is one JSON object whose `type` stands first.

use crate::json::{
    object_json, opt_string_json, push_json_string, push_object, push_opt_string, push_strings,
    push_text, strings_json,
};
use crate::json_laws::{
    lemma_digits, lemma_group11, lemma_group3, lemma_group5, lemma_group7, lemma_group9,
    lemma_number_apart, lemma_object_apart, lemma_object_is_utf8, lemma_opt_string_apart,
    lemma_opt_string_is_utf8, lemma_same_start, lemma_string_apart, lemma_string_is_utf8,
    lemma_strings_apart, lemma_strings_are_utf8, lemma_utf8_parts, no_digit,
};
use crate::outside::json::json_string;
use crate::text::{decimal, decimal_string, opt_text, pair_texts, texts};
use crate::tunnel::Envelope;
use vstd::prelude::*;
use vstd::utf8::{
    encode_utf8, encode_utf8_valid_utf8, is_ascii_chars, is_ascii_chars_encode_utf8, valid_utf8,
};

verus! {

/// A close code in JSON, or `null`.
pub open spec fn code_json(code: Option<u16>) -> Seq<u8> {
    match code {
        Some(c) => encode_utf8(decimal(c as nat)),
        None => encode_utf8("null"@),
    }
}

/// The middle of an acknowledgement.
pub open spec fn ok_text(ok: bool) -> Seq<char> {
    if ok {
        ",\"ok\":true,\"error\":"@
    } else {
        ",\"ok\":false,\"error\":"@
    }
}

/// An envelope in JSON.
pub open spec fn envelope_json(e: Envelope) -> Seq<u8> {
    match e {
        Envelope::Request { id, method, url, headers, body } => encode_utf8(
            "{\"type\":\"request\",\"id\":"@,
        ) + json_string(id@) + encode_utf8(",\"method\":"@) + json_string(method@) + encode_utf8(
            ",\"url\":"@,
        ) + json_string(url@) + encode_utf8(",\"headers\":"@) + object_json(headers.rows())
            + encode_utf8(",\"body\":"@) + opt_string_json(opt_text(body)) + encode_utf8("}"@),
        Envelope::Response { id, status, headers, body } => encode_utf8(
            "{\"type\":\"response\",\"id\":"@,
        ) + json_string(id@) + encode_utf8(",\"status\":"@) + encode_utf8(decimal(status as nat))
            + encode_utf8(",\"headers\":"@) + object_json(headers.rows()) + encode_utf8(
            ",\"body\":"@,
        ) + opt_string_json(opt_text(body)) + encode_utf8("}"@),
        Envelope::Heartbeat { ts } => encode_utf8("{\"type\":\"heartbeat\",\"ts\":"@)
            + encode_utf8(decimal(ts as nat)) + encode_utf8("}"@),
        Envelope::HeartbeatAck { ts } => encode_utf8("{\"type\":\"heartbeat-ack\",\"ts\":"@)
            + encode_utf8(decimal(ts as nat)) + encode_utf8("}"@),
        Envelope::WsOpen { id, url, headers, protocols } => encode_utf8(
            "{\"type\":\"ws-open\",\"id\":"@,
        ) + json_string(id@) + encode_utf8(",\"url\":"@) + json_string(url@) + encode_utf8(
            ",\"headers\":"@,
        ) + object_json(headers.rows()) + encode_utf8(",\"protocols\":"@) + strings_json(
            protocols@,
        ) + encode_utf8("}"@),
        Envelope::WsOpenAck { id, ok, error } => encode_utf8("{\"type\":\"ws-open-ack\",\"id\":"@)
            + json_string(id@) + encode_utf8(ok_text(ok)) + opt_string_json(opt_text(error))
            + encode_utf8("}"@),
        Envelope::WsMsg { id, kind, data } => encode_utf8("{\"type\":\"ws-msg\",\"id\":"@)
            + json_string(id@) + encode_utf8(",\"kind\":"@) + json_string(kind@) + encode_utf8(
            ",\"data\":"@,
        ) + json_string(data@) + encode_utf8("}"@),
        Envelope::WsClose { id, code, reason } => encode_utf8("{\"type\":\"ws-close\",\"id\":"@)
            + json_string(id@) + encode_utf8(",\"code\":"@) + code_json(code) + encode_utf8(
            ",\"reason\":"@,
        ) + opt_string_json(opt_text(reason)) + encode_utf8("}"@),
    }
}

impl Envelope {
    /// The envelope in JSON.
    pub fn to_json(&self) -> (r: Result<Vec<u8>, serde_json::Error>)
        ensures
            r is Ok,
            r->Ok_0@ == envelope_json(*self),
    {
        let out = match self {
            Envelope::Request { id, method, url, headers, body } => {
                let mut out = "{\"type\":\"request\",\"id\":".as_bytes_vec();
                push_json_string(&mut out, id.as_str())?;
                push_text(&mut out, ",\"method\":");
                push_json_string(&mut out, method.as_str())?;
                push_text(&mut out, ",\"url\":");
                push_json_string(&mut out, url.as_str())?;
                push_text(&mut out, ",\"headers\":");
                push_object(&mut out, headers)?;
                push_text(&mut out, ",\"body\":");
                push_opt_string(&mut out, body)?;
                push_text(&mut out, "}");
                out
            },
            Envelope::Response { id, status, headers, body } => {
                let mut out = "{\"type\":\"response\",\"id\":".as_bytes_vec();
                push_json_string(&mut out, id.as_str())?;
                push_text(&mut out, ",\"status\":");
                push_text(&mut out, decimal_string(*status as u64).as_str());
                push_text(&mut out, ",\"headers\":");
                push_object(&mut out, headers)?;
                push_text(&mut out, ",\"body\":");
                push_opt_string(&mut out, body)?;
                push_text(&mut out, "}");
                out
            },
            Envelope::Heartbeat { ts } => {
                let mut out = "{\"type\":\"heartbeat\",\"ts\":".as_bytes_vec();
                push_text(&mut out, decimal_string(*ts).as_str());
                push_text(&mut out, "}");
                out
            },
            Envelope::HeartbeatAck { ts } => {
                let mut out = "{\"type\":\"heartbeat-ack\",\"ts\":".as_bytes_vec();
                push_text(&mut out, decimal_string(*ts).as_str());
                push_text(&mut out, "}");
                out
            },
            Envelope::WsOpen { id, url, headers, protocols } => {
                let mut out = "{\"type\":\"ws-open\",\"id\":".as_bytes_vec();
                push_json_string(&mut out, id.as_str())?;
                push_text(&mut out, ",\"url\":");
                push_json_string(&mut out, url.as_str())?;
                push_text(&mut out, ",\"headers\":");
                push_object(&mut out, headers)?;
                push_text(&mut out, ",\"protocols\":");
                push_strings(&mut out, protocols)?;
                push_text(&mut out, "}");
                out
            },
            Envelope::WsOpenAck { id, ok, error } => {
                let mut out = "{\"type\":\"ws-open-ack\",\"id\":".as_bytes_vec();
                push_json_string(&mut out, id.as_str())?;
                if *ok {
                    push_text(&mut out, ",\"ok\":true,\"error\":");
                } else {
                    push_text(&mut out, ",\"ok\":false,\"error\":");
                }
                push_opt_string(&mut out, error)?;
                push_text(&mut out, "}");
                out
            },
            Envelope::WsMsg { id, kind, data } => {
                let mut out = "{\"type\":\"ws-msg\",\"id\":".as_bytes_vec();
                push_json_string(&mut out, id.as_str())?;
                push_text(&mut out, ",\"kind\":");
                push_json_string(&mut out, kind.as_str())?;
                push_text(&mut out, ",\"data\":");
                push_json_string(&mut out, data.as_str())?;
                push_text(&mut out, "}");
                out
            },
            Envelope::WsClose { id, code, reason } => {
                let mut out = "{\"type\":\"ws-close\",\"id\":".as_bytes_vec();
                push_json_string(&mut out, id.as_str())?;
                push_text(&mut out, ",\"code\":");
                match code {
                    Some(c) => push_text(&mut out, decimal_string(*c as u64).as_str()),
                    None => push_text(&mut out, "null"),
                }
                push_text(&mut out, ",\"reason\":");
                push_opt_string(&mut out, reason)?;
                push_text(&mut out, "}");
                out
            },
        };
        Ok(out)
    }
}

// ---------------------------------------------------------------------------
// UTF-8
// ---------------------------------------------------------------------------
proof fn lemma_code_is_utf8(code: Option<u16>)
    ensures
        valid_utf8(code_json(code)),
{
    match code {
        Some(c) => encode_utf8_valid_utf8(decimal(c as nat)),
        None => encode_utf8_valid_utf8("null"@),
    }
}

/// An envelope in JSON is UTF-8, as a text frame has to be.
pub proof fn envelope_json_is_utf8(e: Envelope)
    ensures
        valid_utf8(envelope_json(e)),
{
    let end = encode_utf8("}"@);
    encode_utf8_valid_utf8("}"@);
    encode_utf8_valid_utf8(head(e));
    let h = encode_utf8(head(e));
    match e {
        Envelope::Request { id, method, url, headers, body } => {
            lemma_string_is_utf8(id@);
            lemma_string_is_utf8(method@);
            lemma_string_is_utf8(url@);
            lemma_object_is_utf8(headers.rows());
            lemma_opt_string_is_utf8(opt_text(body));
            let l1 = encode_utf8(",\"method\":"@);
            encode_utf8_valid_utf8(",\"method\":"@);
            let v1 = json_string(id@);
            lemma_utf8_parts(h, v1, l1);
            let s1 = h + v1 + l1;
            let l2 = encode_utf8(",\"url\":"@);
            encode_utf8_valid_utf8(",\"url\":"@);
            let v2 = json_string(method@);
            lemma_utf8_parts(s1, v2, l2);
            let s2 = s1 + v2 + l2;
            let l3 = encode_utf8(",\"headers\":"@);
            encode_utf8_valid_utf8(",\"headers\":"@);
            let v3 = json_string(url@);
            lemma_utf8_parts(s2, v3, l3);
            let s3 = s2 + v3 + l3;
            let l4 = encode_utf8(",\"body\":"@);
            encode_utf8_valid_utf8(",\"body\":"@);
            let v4 = object_json(headers.rows());
            lemma_utf8_parts(s3, v4, l4);
            let s4 = s3 + v4 + l4;
            let v5 = opt_string_json(opt_text(body));
            lemma_utf8_parts(s4, v5, end);
        },
        Envelope::Response { id, status, headers, body } => {
            lemma_string_is_utf8(id@);
            encode_utf8_valid_utf8(decimal(status as nat));
            lemma_object_is_utf8(headers.rows());
            lemma_opt_string_is_utf8(opt_text(body));
            let l1 = encode_utf8(",\"status\":"@);
            encode_utf8_valid_utf8(",\"status\":"@);
            let v1 = json_string(id@);
            lemma_utf8_parts(h, v1, l1);
            let s1 = h + v1 + l1;
            let l2 = encode_utf8(",\"headers\":"@);
            encode_utf8_valid_utf8(",\"headers\":"@);
            let v2 = encode_utf8(decimal(status as nat));
            lemma_utf8_parts(s1, v2, l2);
            let s2 = s1 + v2 + l2;
            let l3 = encode_utf8(",\"body\":"@);
            encode_utf8_valid_utf8(",\"body\":"@);
            let v3 = object_json(headers.rows());
            lemma_utf8_parts(s2, v3, l3);
            let s3 = s2 + v3 + l3;
            let v4 = opt_string_json(opt_text(body));
            lemma_utf8_parts(s3, v4, end);
        },
        Envelope::Heartbeat { ts } => {
            encode_utf8_valid_utf8(decimal(ts as nat));
            let v1 = encode_utf8(decimal(ts as nat));
            lemma_utf8_parts(h, v1, end);
        },
        Envelope::HeartbeatAck { ts } => {
            encode_utf8_valid_utf8(decimal(ts as nat));
            let v1 = encode_utf8(decimal(ts as nat));
            lemma_utf8_parts(h, v1, end);
        },
        Envelope::WsOpen { id, url, headers, protocols } => {
            lemma_string_is_utf8(id@);
            lemma_string_is_utf8(url@);
            lemma_object_is_utf8(headers.rows());
            lemma_strings_are_utf8(protocols@);
            let l1 = encode_utf8(",\"url\":"@);
            encode_utf8_valid_utf8(",\"url\":"@);
            let v1 = json_string(id@);
            lemma_utf8_parts(h, v1, l1);
            let s1 = h + v1 + l1;
            let l2 = encode_utf8(",\"headers\":"@);
            encode_utf8_valid_utf8(",\"headers\":"@);
            let v2 = json_string(url@);
            lemma_utf8_parts(s1, v2, l2);
            let s2 = s1 + v2 + l2;
            let l3 = encode_utf8(",\"protocols\":"@);
            encode_utf8_valid_utf8(",\"protocols\":"@);
            let v3 = object_json(headers.rows());
            lemma_utf8_parts(s2, v3, l3);
            let s3 = s2 + v3 + l3;
            let v4 = strings_json(protocols@);
            lemma_utf8_parts(s3, v4, end);
        },
        Envelope::WsOpenAck { id, ok, error } => {
            lemma_string_is_utf8(id@);
            lemma_opt_string_is_utf8(opt_text(error));
            let l1 = encode_utf8(ok_text(ok));
            encode_utf8_valid_utf8(ok_text(ok));
            let v1 = json_string(id@);
            lemma_utf8_parts(h, v1, l1);
            let s1 = h + v1 + l1;
            let v2 = opt_string_json(opt_text(error));
            lemma_utf8_parts(s1, v2, end);
        },
        Envelope::WsMsg { id, kind, data } => {
            lemma_string_is_utf8(id@);
            lemma_string_is_utf8(kind@);
            lemma_string_is_utf8(data@);
            let l1 = encode_utf8(",\"kind\":"@);
            encode_utf8_valid_utf8(",\"kind\":"@);
            let v1 = json_string(id@);
            lemma_utf8_parts(h, v1, l1);
            let s1 = h + v1 + l1;
            let l2 = encode_utf8(",\"data\":"@);
            encode_utf8_valid_utf8(",\"data\":"@);
            let v2 = json_string(kind@);
            lemma_utf8_parts(s1, v2, l2);
            let s2 = s1 + v2 + l2;
            let v3 = json_string(data@);
            lemma_utf8_parts(s2, v3, end);
        },
        Envelope::WsClose { id, code, reason } => {
            lemma_string_is_utf8(id@);
            lemma_code_is_utf8(code);
            lemma_opt_string_is_utf8(opt_text(reason));
            let l1 = encode_utf8(",\"code\":"@);
            encode_utf8_valid_utf8(",\"code\":"@);
            let v1 = json_string(id@);
            lemma_utf8_parts(h, v1, l1);
            let s1 = h + v1 + l1;
            let l2 = encode_utf8(",\"reason\":"@);
            encode_utf8_valid_utf8(",\"reason\":"@);
            let v2 = code_json(code);
            lemma_utf8_parts(s1, v2, l2);
            let s2 = s1 + v2 + l2;
            let v3 = opt_string_json(opt_text(reason));
            lemma_utf8_parts(s2, v3, end);
        },
    }
}

// ---------------------------------------------------------------------------
// What the JSON of an envelope determines
// ---------------------------------------------------------------------------
/// An envelope as plain values.
pub enum EnvelopeModel {
    Request {
        id: Seq<char>,
        method: Seq<char>,
        url: Seq<char>,
        headers: Seq<(Seq<char>, Seq<char>)>,
        body: Option<Seq<char>>,
    },
    Response {
        id: Seq<char>,
        status: u16,
        headers: Seq<(Seq<char>, Seq<char>)>,
        body: Option<Seq<char>>,
    },
    Heartbeat { ts: u64 },
    HeartbeatAck { ts: u64 },
    WsOpen {
        id: Seq<char>,
        url: Seq<char>,
        headers: Seq<(Seq<char>, Seq<char>)>,
        protocols: Seq<Seq<char>>,
    },
    WsOpenAck { id: Seq<char>, ok: bool, error: Option<Seq<char>> },
    WsMsg { id: Seq<char>, kind: Seq<char>, data: Seq<char> },
    WsClose { id: Seq<char>, code: Option<u16>, reason: Option<Seq<char>> },
}

impl View for Envelope {
    type V = EnvelopeModel;

    open spec fn view(&self) -> EnvelopeModel {
        match *self {
            Envelope::Request { id, method, url, headers, body } => EnvelopeModel::Request {
                id: id@,
                method: method@,
                url: url@,
                headers: pair_texts(headers.rows()),
                body: opt_text(body),
            },
            Envelope::Response { id, status, headers, body } => EnvelopeModel::Response {
                id: id@,
                status,
                headers: pair_texts(headers.rows()),
                body: opt_text(body),
            },
            Envelope::Heartbeat { ts } => EnvelopeModel::Heartbeat { ts },
            Envelope::HeartbeatAck { ts } => EnvelopeModel::HeartbeatAck { ts },
            Envelope::WsOpen { id, url, headers, protocols } => EnvelopeModel::WsOpen {
                id: id@,
                url: url@,
                headers: pair_texts(headers.rows()),
                protocols: texts(protocols@),
            },
            Envelope::WsOpenAck { id, ok, error } => EnvelopeModel::WsOpenAck {
                id: id@,
                ok,
                error: opt_text(error),
            },
            Envelope::WsMsg { id, kind, data } => EnvelopeModel::WsMsg {
                id: id@,
                kind: kind@,
                data: data@,
            },
            Envelope::WsClose { id, code, reason } => EnvelopeModel::WsClose {
                id: id@,
                code,
                reason: opt_text(reason),
            },
        }
    }
}

/// The start of an envelope, which tells its type.
spec fn head(e: Envelope) -> Seq<char> {
    match e {
        Envelope::Request { .. } => "{\"type\":\"request\",\"id\":"@,
        Envelope::Response { .. } => "{\"type\":\"response\",\"id\":"@,
        Envelope::Heartbeat { .. } => "{\"type\":\"heartbeat\",\"ts\":"@,
        Envelope::HeartbeatAck { .. } => "{\"type\":\"heartbeat-ack\",\"ts\":"@,
        Envelope::WsOpen { .. } => "{\"type\":\"ws-open\",\"id\":"@,
        Envelope::WsOpenAck { .. } => "{\"type\":\"ws-open-ack\",\"id\":"@,
        Envelope::WsMsg { .. } => "{\"type\":\"ws-msg\",\"id\":"@,
        Envelope::WsClose { .. } => "{\"type\":\"ws-close\",\"id\":"@,
    }
}

/// What follows the start of an envelope.
spec fn rest(e: Envelope) -> Seq<u8> {
    let end = encode_utf8("}"@);
    match e {
        Envelope::Request { id, method, url, headers, body } => json_string(id@) + (encode_utf8(
            ",\"method\":"@,
        ) + (json_string(method@) + (encode_utf8(",\"url\":"@) + (json_string(url@) + (encode_utf8(
            ",\"headers\":"@,
        ) + (object_json(headers.rows()) + (encode_utf8(",\"body\":"@) + (opt_string_json(
            opt_text(body),
        ) + end)))))))),
        Envelope::Response { id, status, headers, body } => json_string(id@) + (encode_utf8(
            ",\"status\":"@,
        ) + (encode_utf8(decimal(status as nat)) + (encode_utf8(",\"headers\":"@) + (object_json(
            headers.rows(),
        ) + (encode_utf8(",\"body\":"@) + (opt_string_json(opt_text(body)) + end)))))),
        Envelope::Heartbeat { ts } => encode_utf8(decimal(ts as nat)) + end,
        Envelope::HeartbeatAck { ts } => encode_utf8(decimal(ts as nat)) + end,
        Envelope::WsOpen { id, url, headers, protocols } => json_string(id@) + (encode_utf8(
            ",\"url\":"@,
        ) + (json_string(url@) + (encode_utf8(",\"headers\":"@) + (object_json(headers.rows()) + (
        encode_utf8(",\"protocols\":"@) + (strings_json(protocols@) + end)))))),
        Envelope::WsOpenAck { id, ok, error } => json_string(id@) + (encode_utf8(ok_text(ok)) + (
        opt_string_json(opt_text(error)) + end)),
        Envelope::WsMsg { id, kind, data } => json_string(id@) + (encode_utf8(",\"kind\":"@) + (
        json_string(kind@) + (encode_utf8(",\"data\":"@) + (json_string(data@) + end)))),
        Envelope::WsClose { id, code, reason } => json_string(id@) + (encode_utf8(",\"code\":"@) + (
        code_json(code) + (encode_utf8(",\"reason\":"@) + (opt_string_json(opt_text(reason))
            + end)))),
    }
}

proof fn lemma_head_and_rest(e: Envelope)
    ensures
        envelope_json(e) == encode_utf8(head(e)) + rest(e),
{
    let h = encode_utf8(head(e));
    let end = encode_utf8("}"@);
    match e {
        Envelope::Request { id, method, url, headers, body } => lemma_group11(
            h,
            json_string(id@),
            encode_utf8(",\"method\":"@),
            json_string(method@),
            encode_utf8(",\"url\":"@),
            json_string(url@),
            encode_utf8(",\"headers\":"@),
            object_json(headers.rows()),
            encode_utf8(",\"body\":"@),
            opt_string_json(opt_text(body)),
            end,
        ),
        Envelope::Response { id, status, headers, body } => lemma_group9(
            h,
            json_string(id@),
            encode_utf8(",\"status\":"@),
            encode_utf8(decimal(status as nat)),
            encode_utf8(",\"headers\":"@),
            object_json(headers.rows()),
            encode_utf8(",\"body\":"@),
            opt_string_json(opt_text(body)),
            end,
        ),
        Envelope::Heartbeat { ts } => lemma_group3(h, encode_utf8(decimal(ts as nat)), end),
        Envelope::HeartbeatAck { ts } => lemma_group3(h, encode_utf8(decimal(ts as nat)), end),
        Envelope::WsOpen { id, url, headers, protocols } => lemma_group9(
            h,
            json_string(id@),
            encode_utf8(",\"url\":"@),
            json_string(url@),
            encode_utf8(",\"headers\":"@),
            object_json(headers.rows()),
            encode_utf8(",\"protocols\":"@),
            strings_json(protocols@),
            end,
        ),
        Envelope::WsOpenAck { id, ok, error } => lemma_group5(
            h,
            json_string(id@),
            encode_utf8(ok_text(ok)),
            opt_string_json(opt_text(error)),
            end,
        ),
        Envelope::WsMsg { id, kind, data } => lemma_group7(
            h,
            json_string(id@),
            encode_utf8(",\"kind\":"@),
            json_string(kind@),
            encode_utf8(",\"data\":"@),
            json_string(data@),
            end,
        ),
        Envelope::WsClose { id, code, reason } => lemma_group7(
            h,
            json_string(id@),
            encode_utf8(",\"code\":"@),
            code_json(code),
            encode_utf8(",\"reason\":"@),
            opt_string_json(opt_text(reason)),
            end,
        ),
    }
}

/// The bytes of an envelope that tell its type.
proof fn lemma_type_bytes(e: Envelope)
    ensures
        encode_utf8(head(e)).len() > 18,
        ({
            let h = encode_utf8(head(e));
            match e {
                Envelope::Request { .. } => h[9] == 0x72 && h[11] == 0x71,
                Envelope::Response { .. } => h[9] == 0x72 && h[11] == 0x73,
                Envelope::Heartbeat { .. } => h[9] == 0x68 && h[18] == 0x22,
                Envelope::HeartbeatAck { .. } => h[9] == 0x68 && h[18] == 0x2d,
                Envelope::WsOpen { .. } => h[9] == 0x77 && h[12] == 0x6f && h[16] == 0x22,
                Envelope::WsOpenAck { .. } => h[9] == 0x77 && h[12] == 0x6f && h[16] == 0x2d,
                Envelope::WsMsg { .. } => h[9] == 0x77 && h[12] == 0x6d,
                Envelope::WsClose { .. } => h[9] == 0x77 && h[12] == 0x63,
            }
        }),
{
    reveal_strlit("{\"type\":\"request\",\"id\":");
    reveal_strlit("{\"type\":\"response\",\"id\":");
    reveal_strlit("{\"type\":\"heartbeat\",\"ts\":");
    reveal_strlit("{\"type\":\"heartbeat-ack\",\"ts\":");
    reveal_strlit("{\"type\":\"ws-open\",\"id\":");
    reveal_strlit("{\"type\":\"ws-open-ack\",\"id\":");
    reveal_strlit("{\"type\":\"ws-msg\",\"id\":");
    reveal_strlit("{\"type\":\"ws-close\",\"id\":");
    let s = head(e);
    assert(is_ascii_chars(s));
    is_ascii_chars_encode_utf8(s);
    let h = encode_utf8(s);
    assert(h[9] == s[9] as u8);
    assert(h[11] == s[11] as u8);
    assert(h[12] == s[12] as u8);
    assert(h[16] == s[16] as u8);
    assert(h[18] == s[18] as u8);
}

proof fn lemma_same_head(a: Envelope, b: Envelope)
    requires
        envelope_json(a) == envelope_json(b),
    ensures
        head(a) == head(b),
        rest(a) == rest(b),
        a is Request == b is Request,
        a is Response == b is Response,
        a is Heartbeat == b is Heartbeat,
        a is HeartbeatAck == b is HeartbeatAck,
        a is WsOpen == b is WsOpen,
        a is WsOpenAck == b is WsOpenAck,
        a is WsMsg == b is WsMsg,
        a is WsClose == b is WsClose,
{
    lemma_head_and_rest(a);
    lemma_head_and_rest(b);
    lemma_type_bytes(a);
    lemma_type_bytes(b);
    let (h, k) = (encode_utf8(head(a)), encode_utf8(head(b)));
    assert forall|i: int| 0 <= i <= 18 implies h[i] == k[i] by {
        assert((h + rest(a))[i] == h[i]);
        assert((k + rest(b))[i] == k[i]);
    }
    assert(h[9] == k[9] && h[11] == k[11] && h[12] == k[12] && h[16] == k[16] && h[18] == k[18]);
    lemma_same_start(h, rest(a), rest(b));
}

proof fn lemma_code_apart(a: Option<u16>, b: Option<u16>, x: Seq<u8>, y: Seq<u8>)
    requires
        code_json(a) + x == code_json(b) + y,
        no_digit(x),
        no_digit(y),
    ensures
        a == b,
        x == y,
{
    reveal_strlit("null");
    is_ascii_chars_encode_utf8("null"@);
    let null = encode_utf8("null"@);
    assert(null[0] == 0x6e);
    match (a, b) {
        (Some(m), Some(n)) => lemma_number_apart(m as nat, n as nat, x, y),
        (None, None) => lemma_same_start(null, x, y),
        (Some(m), None) => {
            lemma_digits(m as nat);
            assert((code_json(a) + x)[0] == code_json(a)[0]);
            assert((null + y)[0] == 0x6e);
        },
        (None, Some(n)) => {
            lemma_digits(n as nat);
            assert((code_json(b) + y)[0] == code_json(b)[0]);
            assert((null + x)[0] == 0x6e);
        },
    }
}

proof fn lemma_ok_apart(a: bool, b: bool, x: Seq<u8>, y: Seq<u8>)
    requires
        encode_utf8(ok_text(a)) + x == encode_utf8(ok_text(b)) + y,
    ensures
        a == b,
        x == y,
{
    reveal_strlit(",\"ok\":true,\"error\":");
    reveal_strlit(",\"ok\":false,\"error\":");
    let yes = encode_utf8(",\"ok\":true,\"error\":"@);
    let no = encode_utf8(",\"ok\":false,\"error\":"@);
    is_ascii_chars_encode_utf8(",\"ok\":true,\"error\":"@);
    is_ascii_chars_encode_utf8(",\"ok\":false,\"error\":"@);
    assert(yes[6] == 0x74 && no[6] == 0x66);
    assert((yes + x)[6] == 0x74 && (yes + y)[6] == 0x74);
    assert((no + x)[6] == 0x66 && (no + y)[6] == 0x66);
    lemma_same_start(if a { yes } else { no }, x, y);
}

/// Envelopes that are written as the same JSON are the same.
pub proof fn envelope_json_determines_the_envelope(a: Envelope, b: Envelope)
    requires
        envelope_json(a) == envelope_json(b),
    ensures
        a@ == b@,
{
    lemma_same_head(a, b);
    let end = encode_utf8("}"@);
    reveal_strlit("}");
    is_ascii_chars_encode_utf8("}"@);
    assert(end[0] == 0x7d);
    match (a, b) {
        (Envelope::Heartbeat { ts: s }, Envelope::Heartbeat { ts: t }) => {
            lemma_number_apart(s as nat, t as nat, end, end);
        },
        (Envelope::HeartbeatAck { ts: s }, Envelope::HeartbeatAck { ts: t }) => {
            lemma_number_apart(s as nat, t as nat, end, end);
        },
        (Envelope::Request { .. }, _) => lemma_requests_apart(a, b),
        (Envelope::Response { .. }, _) => lemma_responses_apart(a, b),
        (Envelope::WsOpen { .. }, _) => lemma_openings_apart(a, b),
        (Envelope::WsOpenAck { .. }, _) => lemma_acks_apart(a, b),
        (Envelope::WsMsg { .. }, _) => lemma_messages_apart(a, b),
        (Envelope::WsClose { .. }, _) => lemma_closings_apart(a, b),
        _ => {},
    }
}

proof fn lemma_requests_apart(a: Envelope, b: Envelope)
    requires
        a is Request,
        b is Request,
        rest(a) == rest(b),
    ensures
        a@ == b@,
{
    let end = encode_utf8("}"@);
    let l2 = encode_utf8(",\"method\":"@);
    let l3 = encode_utf8(",\"url\":"@);
    let l4 = encode_utf8(",\"headers\":"@);
    let l5 = encode_utf8(",\"body\":"@);
    if let (
        Envelope::Request { id: i, method: m, url: u, headers: h, body: o },
        Envelope::Request { id: j, method: n, url: v, headers: k, body: p },
    ) = (a, b) {
        let (o, p) = (opt_text(o), opt_text(p));
        let (a5, b5) = (l5 + (opt_string_json(o) + end), l5 + (opt_string_json(p) + end));
        let (a4, b4) = (l4 + (object_json(h.rows()) + a5), l4 + (object_json(k.rows()) + b5));
        let (a3, b3) = (l3 + (json_string(u@) + a4), l3 + (json_string(v@) + b4));
        let (a2, b2) = (l2 + (json_string(m@) + a3), l2 + (json_string(n@) + b3));
        lemma_string_apart(i@, j@, a2, b2);
        lemma_same_start(l2, json_string(m@) + a3, json_string(n@) + b3);
        lemma_string_apart(m@, n@, a3, b3);
        lemma_same_start(l3, json_string(u@) + a4, json_string(v@) + b4);
        lemma_string_apart(u@, v@, a4, b4);
        lemma_same_start(l4, object_json(h.rows()) + a5, object_json(k.rows()) + b5);
        lemma_object_apart(h.rows(), k.rows(), a5, b5);
        lemma_same_start(l5, opt_string_json(o) + end, opt_string_json(p) + end);
        lemma_opt_string_apart(o, p, end, end);
    }
}

proof fn lemma_responses_apart(a: Envelope, b: Envelope)
    requires
        a is Response,
        b is Response,
        rest(a) == rest(b),
    ensures
        a@ == b@,
{
    let end = encode_utf8("}"@);
    let l2 = encode_utf8(",\"status\":"@);
    let l3 = encode_utf8(",\"headers\":"@);
    let l4 = encode_utf8(",\"body\":"@);
    if let (
        Envelope::Response { id: i, status: s, headers: h, body: o },
        Envelope::Response { id: j, status: t, headers: k, body: p },
    ) = (a, b) {
        let (o, p) = (opt_text(o), opt_text(p));
        let (m, n) = (encode_utf8(decimal(s as nat)), encode_utf8(decimal(t as nat)));
        let (a4, b4) = (l4 + (opt_string_json(o) + end), l4 + (opt_string_json(p) + end));
        let (a3, b3) = (l3 + (object_json(h.rows()) + a4), l3 + (object_json(k.rows()) + b4));
        let (a2, b2) = (l2 + (m + a3), l2 + (n + b3));
        lemma_string_apart(i@, j@, a2, b2);
        lemma_same_start(l2, m + a3, n + b3);
        reveal_strlit(",\"headers\":");
        is_ascii_chars_encode_utf8(",\"headers\":"@);
        assert(a3[0] == 0x2c && b3[0] == 0x2c);
        lemma_number_apart(s as nat, t as nat, a3, b3);
        lemma_same_start(l3, object_json(h.rows()) + a4, object_json(k.rows()) + b4);
        lemma_object_apart(h.rows(), k.rows(), a4, b4);
        lemma_same_start(l4, opt_string_json(o) + end, opt_string_json(p) + end);
        lemma_opt_string_apart(o, p, end, end);
    }
}

proof fn lemma_openings_apart(a: Envelope, b: Envelope)
    requires
        a is WsOpen,
        b is WsOpen,
        rest(a) == rest(b),
    ensures
        a@ == b@,
{
    let end = encode_utf8("}"@);
    let l2 = encode_utf8(",\"url\":"@);
    let l3 = encode_utf8(",\"headers\":"@);
    let l4 = encode_utf8(",\"protocols\":"@);
    if let (
        Envelope::WsOpen { id: i, url: u, headers: h, protocols: o },
        Envelope::WsOpen { id: j, url: v, headers: k, protocols: p },
    ) = (a, b) {
        let (a4, b4) = (l4 + (strings_json(o@) + end), l4 + (strings_json(p@) + end));
        let (a3, b3) = (l3 + (object_json(h.rows()) + a4), l3 + (object_json(k.rows()) + b4));
        let (a2, b2) = (l2 + (json_string(u@) + a3), l2 + (json_string(v@) + b3));
        lemma_string_apart(i@, j@, a2, b2);
        lemma_same_start(l2, json_string(u@) + a3, json_string(v@) + b3);
        lemma_string_apart(u@, v@, a3, b3);
        lemma_same_start(l3, object_json(h.rows()) + a4, object_json(k.rows()) + b4);
        lemma_object_apart(h.rows(), k.rows(), a4, b4);
        lemma_same_start(l4, strings_json(o@) + end, strings_json(p@) + end);
        lemma_strings_apart(o@, p@, end, end);
    }
}

proof fn lemma_acks_apart(a: Envelope, b: Envelope)
    requires
        a is WsOpenAck,
        b is WsOpenAck,
        rest(a) == rest(b),
    ensures
        a@ == b@,
{
    let end = encode_utf8("}"@);
    if let (
        Envelope::WsOpenAck { id: i, ok: s, error: o },
        Envelope::WsOpenAck { id: j, ok: t, error: p },
    ) = (a, b) {
        let (o, p) = (opt_text(o), opt_text(p));
        let (a3, b3) = (opt_string_json(o) + end, opt_string_json(p) + end);
        lemma_string_apart(i@, j@, encode_utf8(ok_text(s)) + a3, encode_utf8(ok_text(t)) + b3);
        lemma_ok_apart(s, t, a3, b3);
        lemma_opt_string_apart(o, p, end, end);
    }
}

proof fn lemma_messages_apart(a: Envelope, b: Envelope)
    requires
        a is WsMsg,
        b is WsMsg,
        rest(a) == rest(b),
    ensures
        a@ == b@,
{
    let end = encode_utf8("}"@);
    let l2 = encode_utf8(",\"kind\":"@);
    let l3 = encode_utf8(",\"data\":"@);
    if let (
        Envelope::WsMsg { id: i, kind: k, data: d },
        Envelope::WsMsg { id: j, kind: l, data: e },
    ) = (a, b) {
        let (a3, b3) = (l3 + (json_string(d@) + end), l3 + (json_string(e@) + end));
        let (a2, b2) = (l2 + (json_string(k@) + a3), l2 + (json_string(l@) + b3));
        lemma_string_apart(i@, j@, a2, b2);
        lemma_same_start(l2, json_string(k@) + a3, json_string(l@) + b3);
        lemma_string_apart(k@, l@, a3, b3);
        lemma_same_start(l3, json_string(d@) + end, json_string(e@) + end);
        lemma_string_apart(d@, e@, end, end);
    }
}

proof fn lemma_closings_apart(a: Envelope, b: Envelope)
    requires
        a is WsClose,
        b is WsClose,
        rest(a) == rest(b),
    ensures
        a@ == b@,
{
    let end = encode_utf8("}"@);
    let l2 = encode_utf8(",\"code\":"@);
    let l3 = encode_utf8(",\"reason\":"@);
    if let (
        Envelope::WsClose { id: i, code: c, reason: o },
        Envelope::WsClose { id: j, code: d, reason: p },
    ) = (a, b) {
        let (o, p) = (opt_text(o), opt_text(p));
        let (a3, b3) = (l3 + (opt_string_json(o) + end), l3 + (opt_string_json(p) + end));
        let (a2, b2) = (l2 + (code_json(c) + a3), l2 + (code_json(d) + b3));
        lemma_string_apart(i@, j@, a2, b2);
        lemma_same_start(l2, code_json(c) + a3, code_json(d) + b3);
        reveal_strlit(",\"reason\":");
        is_ascii_chars_encode_utf8(",\"reason\":"@);
        assert(a3[0] == 0x2c && b3[0] == 0x2c);
        lemma_code_apart(c, d, a3, b3);
        lemma_same_start(l3, opt_string_json(o) + end, opt_string_json(p) + end);
        lemma_opt_string_apart(o, p, end, end);
    }
}

} // verus!
