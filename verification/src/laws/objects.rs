//! JSON: what goes over the wire is objects with named fields.

use crate::json::{json_list, object_json, opt_string_json, strings_json};
use crate::outside::base64_text::base64_of;
use crate::outside::json::{json_char, json_chars, json_string};
use crate::protocol::{
    auth_json, headers_json, request_json, response_json, HttpRequestPayload, HttpResponsePayload,
};
use crate::text::{decimal, joined, opt_text};
use crate::tunnel::Envelope;
use crate::wire::envelope_json;
use vstd::prelude::*;
use vstd::utf8::{encode_utf8, is_ascii_chars_encode_utf8};

verus! {

/// A JSON object up to its closing brace: an opening brace, and the fields with a comma between
/// each two neighbours. A field is its name as a string, a colon and its value.
#[verifier::opaque]
pub open spec fn opened(fields: Seq<(Seq<char>, Seq<u8>)>) -> Seq<u8> {
    encode_utf8("{"@) + joined(
        fields.map_values(
            |f: (Seq<char>, Seq<u8>)| json_string(f.0) + encode_utf8(":"@) + f.1,
        ),
        encode_utf8(","@),
    )
}

/// A JSON object with named fields, in order.
pub open spec fn object_of(fields: Seq<(Seq<char>, Seq<u8>)>) -> Seq<u8> {
    opened(fields) + encode_utf8("}"@)
}

/// What stands between the value of one field and that of the next.
#[verifier::opaque]
pub open spec fn label(name: Seq<char>) -> Seq<u8> {
    encode_utf8(","@) + json_string(name) + encode_utf8(":"@)
}

// ---------------------------------------------------------------------------
// Strings and lists
// ---------------------------------------------------------------------------
/// A JSON string is written character by character, between quotes.
pub proof fn strings_are_written_in_order(a: Seq<char>, b: Seq<char>, c: char)
    ensures
        json_chars(a + b) == json_chars(a) + json_chars(b),
        json_chars(Seq::<char>::empty()) == Seq::<u8>::empty(),
        json_chars(seq![c]) == json_char(c),
        json_string(a) == seq![34u8] + json_chars(a) + seq![34u8],
    decreases b.len(),
{
    assert(seq![c].drop_last() =~= Seq::<char>::empty());
    assert(json_chars(Seq::<char>::empty()) =~= Seq::<u8>::empty());
    assert(json_chars(seq![c]) =~= json_char(c));
    if b.len() == 0 {
        assert(a + b =~= a);
        assert(json_chars(a + b) =~= json_chars(a) + json_chars(b));
    } else {
        strings_are_written_in_order(a, b.drop_last(), c);
        assert((a + b).drop_last() =~= a + b.drop_last());
        assert(json_chars(a + b) =~= json_chars(a) + json_chars(b));
    }
}

/// An array without items is a pair of brackets; an item stands between them; one item more comes
/// after a comma.
pub proof fn lists_grow_at_their_end(items: Seq<Seq<u8>>, item: Seq<u8>)
    ensures
        json_list(Seq::<Seq<u8>>::empty()) == seq![91u8, 93],
        json_list(seq![item]) == seq![91u8] + item + seq![93u8],
        items.len() > 0 ==> json_list(items.push(item)) == json_list(items).drop_last()
            + seq![44u8] + item + seq![93u8],
{
    lemma_marks();
    assert(json_list(Seq::<Seq<u8>>::empty()) =~= seq![91u8, 93]);
    assert(items.push(item).drop_last() =~= items);
    if items.len() > 0 {
        assert(json_list(items.push(item)) =~= json_list(items).drop_last() + seq![44u8] + item
            + seq![93u8]);
    }
}

/// Texts are written as an array of strings, header pairs as an array of arrays of two strings, and
/// a table as an object of strings; each in its order.
pub proof fn collections_in_json(
    items: Seq<String>,
    rows: Seq<(String, String)>,
    parts: Seq<Seq<u8>>,
    fields: Seq<(Seq<char>, Seq<u8>)>,
)
    requires
        fields.len() == rows.len(),
        forall|i: int|
            0 <= i < rows.len() ==> #[trigger] fields[i] == (rows[i].0@, json_string(rows[i].1@)),
    ensures
        parts.len() == items.len() && (forall|i: int|
            0 <= i < items.len() ==> #[trigger] parts[i] == json_string(items[i]@))
            ==> strings_json(items) == json_list(parts),
        parts.len() == rows.len() && (forall|i: int|
            0 <= i < rows.len() ==> #[trigger] parts[i] == json_list(
                seq![json_string(rows[i].0@), json_string(rows[i].1@)],
            )) ==> headers_json(rows) == json_list(parts),
        object_json(rows) == object_of(fields),
{
    reveal(opened);
    if parts.len() == items.len() && (forall|i: int|
        0 <= i < items.len() ==> #[trigger] parts[i] == json_string(items[i]@)) {
        assert(parts =~= items.map_values(|s: String| json_string(s@)));
    }
    if parts.len() == rows.len() && (forall|i: int|
        0 <= i < rows.len() ==> #[trigger] parts[i] == json_list(
            seq![json_string(rows[i].0@), json_string(rows[i].1@)],
        )) {
        assert(parts =~= rows.map_values(
            |p: (String, String)| crate::protocol::pair_json(p.0@, p.1@),
        ));
    }
    assert(rows.map_values(|p: (String, String)| crate::json::field_json(p.0@, p.1@))
        =~= fields.map_values(
        |f: (Seq<char>, Seq<u8>)| json_string(f.0) + encode_utf8(":"@) + f.1,
    ));
}

/// A missing text is `null`, and a text is a string.
pub proof fn missing_texts_are_null(s: Seq<char>)
    ensures
        opt_string_json(None) == seq![110u8, 117, 108, 108],
        opt_string_json(Some(s)) == json_string(s),
{
    reveal_strlit("null");
    is_ascii_chars_encode_utf8("null"@);
    assert(encode_utf8("null"@) =~= seq![110u8, 117, 108, 108]);
}

// ---------------------------------------------------------------------------
// Envelopes
// ---------------------------------------------------------------------------
/// The envelope of a request is an object that names the type and all parts.
pub proof fn request_envelopes_are_objects(e: Envelope)
    requires
        e is Request,
    ensures
        envelope_json(e) == object_of(
            seq![
                ("type"@, json_string("request"@)),
                ("id"@, json_string(e->Request_id@)),
                ("method"@, json_string(e->Request_method@)),
                ("url"@, json_string(e->Request_url@)),
                ("headers"@, object_json(e->Request_headers.rows())),
                ("body"@, opt_string_json(opt_text(e->Request_body))),
            ],
        ),
{
    lemma_labels();
    lemma_heads();
    let f1 = seq![("type"@, json_string("request"@))];
    let f2 = lemma_next_field(f1, "id"@, json_string(e->Request_id@));
    let f3 = lemma_next_field(f2, "method"@, json_string(e->Request_method@));
    let f4 = lemma_next_field(f3, "url"@, json_string(e->Request_url@));
    let f5 = lemma_next_field(f4, "headers"@, object_json(e->Request_headers.rows()));
    let f6 = lemma_next_field(f5, "body"@, opt_string_json(opt_text(e->Request_body)));
    assert(f6 =~= seq![
        ("type"@, json_string("request"@)),
        ("id"@, json_string(e->Request_id@)),
        ("method"@, json_string(e->Request_method@)),
        ("url"@, json_string(e->Request_url@)),
        ("headers"@, object_json(e->Request_headers.rows())),
        ("body"@, opt_string_json(opt_text(e->Request_body))),
    ]);
}

/// The envelope of a response is an object that names the type and all parts.
pub proof fn response_envelopes_are_objects(e: Envelope)
    requires
        e is Response,
    ensures
        envelope_json(e) == object_of(
            seq![
                ("type"@, json_string("response"@)),
                ("id"@, json_string(e->Response_id@)),
                ("status"@, encode_utf8(decimal(e->Response_status as nat))),
                ("headers"@, object_json(e->Response_headers.rows())),
                ("body"@, opt_string_json(opt_text(e->Response_body))),
            ],
        ),
{
    lemma_labels();
    lemma_heads();
    let f1 = seq![("type"@, json_string("response"@))];
    let f2 = lemma_next_field(f1, "id"@, json_string(e->Response_id@));
    let f3 = lemma_next_field(
        f2,
        "status"@,
        encode_utf8(decimal(e->Response_status as nat)),
    );
    let f4 = lemma_next_field(f3, "headers"@, object_json(e->Response_headers.rows()));
    let f5 = lemma_next_field(f4, "body"@, opt_string_json(opt_text(e->Response_body)));
    assert(f5 =~= seq![
        ("type"@, json_string("response"@)),
        ("id"@, json_string(e->Response_id@)),
        ("status"@, encode_utf8(decimal(e->Response_status as nat))),
        ("headers"@, object_json(e->Response_headers.rows())),
        ("body"@, opt_string_json(opt_text(e->Response_body))),
    ]);
}

/// Heartbeats and their answers are objects that name the type and the time.
pub proof fn heartbeats_are_objects(ts: u64)
    ensures
        envelope_json(Envelope::Heartbeat { ts }) == object_of(
            seq![
                ("type"@, json_string("heartbeat"@)),
                ("ts"@, encode_utf8(decimal(ts as nat))),
            ],
        ),
        envelope_json(Envelope::HeartbeatAck { ts }) == object_of(
            seq![
                ("type"@, json_string("heartbeat-ack"@)),
                ("ts"@, encode_utf8(decimal(ts as nat))),
            ],
        ),
{
    lemma_heads();
    let at = encode_utf8(decimal(ts as nat));
    let (f, g) = (
        seq![("type"@, json_string("heartbeat"@))],
        seq![("type"@, json_string("heartbeat-ack"@))],
    );
    let f2 = lemma_next_field(f, "ts"@, at);
    let g2 = lemma_next_field(g, "ts"@, at);
    assert(f2 =~= seq![("type"@, json_string("heartbeat"@)), ("ts"@, at)]);
    assert(g2 =~= seq![("type"@, json_string("heartbeat-ack"@)), ("ts"@, at)]);
}

/// The opening of a WebSocket is an object that names the type and all parts.
pub proof fn openings_are_objects(e: Envelope)
    requires
        e is WsOpen,
    ensures
        envelope_json(e) == object_of(
            seq![
                ("type"@, json_string("ws-open"@)),
                ("id"@, json_string(e->WsOpen_id@)),
                ("url"@, json_string(e->WsOpen_url@)),
                ("headers"@, object_json(e->WsOpen_headers.rows())),
                ("protocols"@, strings_json(e->WsOpen_protocols@)),
            ],
        ),
{
    lemma_labels();
    lemma_heads();
    let f1 = seq![("type"@, json_string("ws-open"@))];
    let f2 = lemma_next_field(f1, "id"@, json_string(e->WsOpen_id@));
    let f3 = lemma_next_field(f2, "url"@, json_string(e->WsOpen_url@));
    let f4 = lemma_next_field(f3, "headers"@, object_json(e->WsOpen_headers.rows()));
    let f5 = lemma_next_field(f4, "protocols"@, strings_json(e->WsOpen_protocols@));
    assert(f5 =~= seq![
        ("type"@, json_string("ws-open"@)),
        ("id"@, json_string(e->WsOpen_id@)),
        ("url"@, json_string(e->WsOpen_url@)),
        ("headers"@, object_json(e->WsOpen_headers.rows())),
        ("protocols"@, strings_json(e->WsOpen_protocols@)),
    ]);
}

/// An acknowledgement is an object that names the type and all parts.
pub proof fn acknowledgements_are_objects(e: Envelope)
    requires
        e is WsOpenAck,
    ensures
        envelope_json(e) == object_of(
            seq![
                ("type"@, json_string("ws-open-ack"@)),
                ("id"@, json_string(e->WsOpenAck_id@)),
                (
                    "ok"@,
                    if e->ok {
                        encode_utf8("true"@)
                    } else {
                        encode_utf8("false"@)
                    },
                ),
                ("error"@, opt_string_json(opt_text(e->error))),
            ],
        ),
{
    lemma_labels();
    lemma_heads();
    let flag = if e->ok {
        "true"@
    } else {
        "false"@
    };
    let f1 = seq![("type"@, json_string("ws-open-ack"@))];
    let f2 = lemma_next_field(f1, "id"@, json_string(e->WsOpenAck_id@));
    let f3 = lemma_next_field(f2, "ok"@, encode_utf8(flag));
    let f4 = lemma_next_field(f3, "error"@, opt_string_json(opt_text(e->error)));
    reveal_strlit(",\"ok\":true,\"error\":");
    reveal_strlit(",\"ok\":false,\"error\":");
    reveal_strlit(",\"ok\":");
    reveal_strlit("true");
    reveal_strlit("false");
    reveal_strlit(",\"error\":");
    assert(crate::wire::ok_text(e->ok) =~= ",\"ok\":"@ + flag + ",\"error\":"@);
    lemma_utf8_joins(",\"ok\":"@, flag);
    lemma_utf8_joins(",\"ok\":"@ + flag, ",\"error\":"@);
    let (a, b, c) = (label("ok"@), encode_utf8(flag), label("error"@));
    assert(opened(f2) + (a + b + c) =~= opened(f2) + a + b + c);
    assert(f4 =~= seq![
        ("type"@, json_string("ws-open-ack"@)),
        ("id"@, json_string(e->WsOpenAck_id@)),
        (
            "ok"@,
            if e->ok {
                encode_utf8("true"@)
            } else {
                encode_utf8("false"@)
            },
        ),
        ("error"@, opt_string_json(opt_text(e->error))),
    ]);
}

/// A WebSocket message is an object that names the type and all parts.
pub proof fn messages_are_objects(e: Envelope)
    requires
        e is WsMsg,
    ensures
        envelope_json(e) == object_of(
            seq![
                ("type"@, json_string("ws-msg"@)),
                ("id"@, json_string(e->WsMsg_id@)),
                ("kind"@, json_string(e->WsMsg_kind@)),
                ("data"@, json_string(e->WsMsg_data@)),
            ],
        ),
{
    lemma_labels();
    lemma_heads();
    let f1 = seq![("type"@, json_string("ws-msg"@))];
    let f2 = lemma_next_field(f1, "id"@, json_string(e->WsMsg_id@));
    let f3 = lemma_next_field(f2, "kind"@, json_string(e->WsMsg_kind@));
    let f4 = lemma_next_field(f3, "data"@, json_string(e->WsMsg_data@));
    assert(f4 =~= seq![
        ("type"@, json_string("ws-msg"@)),
        ("id"@, json_string(e->WsMsg_id@)),
        ("kind"@, json_string(e->WsMsg_kind@)),
        ("data"@, json_string(e->WsMsg_data@)),
    ]);
}

/// A close is an object that names the type and all parts; what is missing is `null`.
pub proof fn closings_are_objects(e: Envelope)
    requires
        e is WsClose,
    ensures
        envelope_json(e) == object_of(
            seq![
                ("type"@, json_string("ws-close"@)),
                ("id"@, json_string(e->WsClose_id@)),
                (
                    "code"@,
                    if e->WsClose_code is Some {
                        encode_utf8(decimal(e->WsClose_code.unwrap() as nat))
                    } else {
                        encode_utf8("null"@)
                    },
                ),
                ("reason"@, opt_string_json(opt_text(e->WsClose_reason))),
            ],
        ),
{
    lemma_labels();
    lemma_heads();
    let code = if e->WsClose_code is Some {
        encode_utf8(decimal(e->WsClose_code.unwrap() as nat))
    } else {
        encode_utf8("null"@)
    };
    let f1 = seq![("type"@, json_string("ws-close"@))];
    let f2 = lemma_next_field(f1, "id"@, json_string(e->WsClose_id@));
    let f3 = lemma_next_field(f2, "code"@, code);
    let f4 = lemma_next_field(f3, "reason"@, opt_string_json(opt_text(e->WsClose_reason)));
    assert(f4 =~= seq![
        ("type"@, json_string("ws-close"@)),
        ("id"@, json_string(e->WsClose_id@)),
        ("code"@, code),
        ("reason"@, opt_string_json(opt_text(e->WsClose_reason))),
    ]);
}

// ---------------------------------------------------------------------------
// Payloads
// ---------------------------------------------------------------------------
/// The payload of an Auth message is an object with the key, and the subdomain if there is one.
pub proof fn auth_payloads_are_objects(key: Seq<char>, subdomain: Seq<char>)
    ensures
        auth_json(key, None) == object_of(seq![("key"@, json_string(key))]),
        auth_json(key, Some(subdomain)) == object_of(
            seq![("key"@, json_string(key)), ("subdomain"@, json_string(subdomain))],
        ),
{
    lemma_labels();
    lemma_firsts();
    let f1 = seq![("key"@, json_string(key))];
    lemma_first_field("key"@, json_string(key));
    let f2 = lemma_next_field(f1, "subdomain"@, json_string(subdomain));
    assert(f2 =~= seq![("key"@, json_string(key)), ("subdomain"@, json_string(subdomain))]);
}

/// The payloads of requests and responses are objects that name all parts. The body is the Base64
/// of its bytes.
pub proof fn http_payloads_are_objects(p: HttpRequestPayload, q: HttpResponsePayload)
    ensures
        request_json(p) == object_of(
            seq![
                ("method"@, json_string(p.method@)),
                ("uri"@, json_string(p.uri@)),
                ("headers"@, headers_json(p.headers@)),
                ("body"@, json_string(base64_of(p.body@))),
            ],
        ),
        response_json(q) == object_of(
            seq![
                ("status"@, encode_utf8(decimal(q.status as nat))),
                ("headers"@, headers_json(q.headers@)),
                ("body"@, json_string(base64_of(q.body@))),
            ],
        ),
{
    lemma_labels();
    lemma_firsts();
    let f1 = seq![("method"@, json_string(p.method@))];
    lemma_first_field("method"@, json_string(p.method@));
    let f2 = lemma_next_field(f1, "uri"@, json_string(p.uri@));
    let f3 = lemma_next_field(f2, "headers"@, headers_json(p.headers@));
    let f4 = lemma_next_field(f3, "body"@, json_string(base64_of(p.body@)));
    assert(f4 =~= seq![
        ("method"@, json_string(p.method@)),
        ("uri"@, json_string(p.uri@)),
        ("headers"@, headers_json(p.headers@)),
        ("body"@, json_string(base64_of(p.body@))),
    ]);
    let status = encode_utf8(decimal(q.status as nat));
    let g1 = seq![("status"@, status)];
    lemma_first_field("status"@, status);
    let g2 = lemma_next_field(g1, "headers"@, headers_json(q.headers@));
    let g3 = lemma_next_field(g2, "body"@, json_string(base64_of(q.body@)));
    assert(g3 =~= seq![
        ("status"@, status),
        ("headers"@, headers_json(q.headers@)),
        ("body"@, json_string(base64_of(q.body@))),
    ]);
}

// ---------------------------------------------------------------------------
// Lemmas
// ---------------------------------------------------------------------------
proof fn lemma_marks()
    ensures
        encode_utf8("["@) == seq![91u8],
        encode_utf8("]"@) == seq![93u8],
        encode_utf8(","@) == seq![44u8],
        encode_utf8("\""@) == seq![34u8],
{
    reveal_strlit("[");
    reveal_strlit("]");
    reveal_strlit(",");
    reveal_strlit("\"");
    is_ascii_chars_encode_utf8("["@);
    is_ascii_chars_encode_utf8("]"@);
    is_ascii_chars_encode_utf8(","@);
    is_ascii_chars_encode_utf8("\""@);
    assert(encode_utf8("["@) =~= seq![91u8]);
    assert(encode_utf8("]"@) =~= seq![93u8]);
    assert(encode_utf8(","@) =~= seq![44u8]);
    assert(encode_utf8("\""@) =~= seq![34u8]);
}

/// The bytes of two texts in a row are the bytes of the first and those of the second.
pub proof fn lemma_utf8_joins(a: Seq<char>, b: Seq<char>)
    ensures
        encode_utf8(a + b) == encode_utf8(a) + encode_utf8(b),
    decreases a.len(),
{
    if a.len() == 0 {
        assert(a + b =~= b);
        assert(encode_utf8(a + b) =~= encode_utf8(a) + encode_utf8(b));
    } else {
        lemma_utf8_joins(a.drop_first(), b);
        assert((a + b).drop_first() =~= a.drop_first() + b);
        assert(encode_utf8(a + b) =~= encode_utf8(a) + encode_utf8(b));
    }
}

spec fn is_plain(s: Seq<char>) -> bool {
    forall|i: int| 0 <= i < s.len() ==> ('a' <= #[trigger] s[i] && s[i] <= 'z') || s[i] == '-'
}

proof fn lemma_plain_string(s: Seq<char>)
    requires
        is_plain(s),
    ensures
        json_string(s) == encode_utf8("\""@ + s + "\""@),
{
    lemma_plain_chars(s);
    lemma_marks();
    lemma_utf8_joins("\""@, s);
    lemma_utf8_joins("\""@ + s, "\""@);
}

proof fn lemma_plain_chars(s: Seq<char>)
    requires
        is_plain(s),
    ensures
        json_chars(s) == encode_utf8(s),
    decreases s.len(),
{
    if s.len() > 0 {
        let init = s.drop_last();
        let c = s.last();
        assert(s[s.len() - 1] == c);
        assert forall|i: int| 0 <= i < init.len() implies ('a' <= #[trigger] init[i] && init[i]
            <= 'z') || init[i] == '-' by {
            assert(s[i] == init[i]);
        }
        lemma_plain_chars(init);
        assert(json_char(c) == encode_utf8(seq![c]));
        assert(init + seq![c] =~= s);
        lemma_utf8_joins(init, seq![c]);
    }
}

proof fn lemma_label(name: Seq<char>)
    requires
        is_plain(name),
    ensures
        encode_utf8(",\""@ + name + "\":"@) == label(name),
{
    reveal(label);
    reveal_strlit(",\"");
    reveal_strlit("\":");
    reveal_strlit(",");
    reveal_strlit("\"");
    reveal_strlit(":");
    let quoted = "\""@ + name + "\""@;
    assert(",\""@ + name + "\":"@ =~= ","@ + quoted + ":"@);
    lemma_plain_string(name);
    lemma_utf8_joins(","@, quoted);
    lemma_utf8_joins(","@ + quoted, ":"@);
}

proof fn lemma_head(kind: Seq<char>, name: Seq<char>)
    requires
        is_plain(kind),
        is_plain(name),
    ensures
        encode_utf8("{\"type\":\""@ + kind + "\""@ + (",\""@ + name + "\":"@)) == opened(
            seq![("type"@, json_string(kind))],
        ) + label(name),
{
    reveal_strlit("{\"type\":\"");
    reveal_strlit("{");
    reveal_strlit("\"");
    reveal_strlit(":");
    reveal_strlit("type");
    let (a, b) = ("\""@ + "type"@ + "\""@, "\""@ + kind + "\""@);
    let tail = ",\""@ + name + "\":"@;
    assert("{\"type\":\""@ + kind + "\""@ + tail =~= "{"@ + a + ":"@ + b + tail);
    lemma_plain_string("type"@);
    lemma_plain_string(kind);
    lemma_label(name);
    lemma_utf8_joins("{"@, a);
    lemma_utf8_joins("{"@ + a, ":"@);
    lemma_utf8_joins("{"@ + a + ":"@, b);
    lemma_utf8_joins("{"@ + a + ":"@ + b, tail);
    lemma_first_field("type"@, json_string(kind));
}

proof fn lemma_first_field(name: Seq<char>, value: Seq<u8>)
    ensures
        opened(seq![(name, value)]) == encode_utf8("{"@) + json_string(name) + encode_utf8(":"@)
            + value,
{
    reveal(opened);
    let fields = seq![(name, value)];
    let parts = fields.map_values(
        |f: (Seq<char>, Seq<u8>)| json_string(f.0) + encode_utf8(":"@) + f.1,
    );
    assert(joined(parts, encode_utf8(","@)) == parts[0]);
    assert(opened(fields) =~= encode_utf8("{"@) + json_string(name) + encode_utf8(":"@) + value);
}

proof fn lemma_next_field(
    fields: Seq<(Seq<char>, Seq<u8>)>,
    name: Seq<char>,
    value: Seq<u8>,
) -> (r: Seq<(Seq<char>, Seq<u8>)>)
    requires
        fields.len() > 0,
    ensures
        r == fields.push((name, value)),
        opened(r) == opened(fields) + label(name) + value,
{
    reveal(opened);
    reveal(label);
    let r = fields.push((name, value));
    let f = |f: (Seq<char>, Seq<u8>)| json_string(f.0) + encode_utf8(":"@) + f.1;
    let (parts, more) = (fields.map_values(f), r.map_values(f));
    assert(more.drop_last() =~= parts);
    assert(more.last() == json_string(name) + encode_utf8(":"@) + value);
    assert(opened(r) =~= opened(fields) + label(name) + value);
    r
}

proof fn lemma_labels()
    ensures
        encode_utf8(",\"id\":"@) == label("id"@),
        encode_utf8(",\"method\":"@) == label("method"@),
        encode_utf8(",\"url\":"@) == label("url"@),
        encode_utf8(",\"headers\":"@) == label("headers"@),
        encode_utf8(",\"body\":"@) == label("body"@),
        encode_utf8(",\"status\":"@) == label("status"@),
        encode_utf8(",\"protocols\":"@) == label("protocols"@),
        encode_utf8(",\"ok\":"@) == label("ok"@),
        encode_utf8(",\"error\":"@) == label("error"@),
        encode_utf8(",\"kind\":"@) == label("kind"@),
        encode_utf8(",\"data\":"@) == label("data"@),
        encode_utf8(",\"code\":"@) == label("code"@),
        encode_utf8(",\"reason\":"@) == label("reason"@),
        encode_utf8(",\"subdomain\":"@) == label("subdomain"@),
        encode_utf8(",\"uri\":"@) == label("uri"@),
{
    lemma_label_of_requests();
    lemma_label_of_answers();
    lemma_label_of_openings();
    lemma_label_of_messages();
    lemma_label_of_payloads();
}

proof fn lemma_label_of_requests()
    ensures
        encode_utf8(",\"id\":"@) == label("id"@),
        encode_utf8(",\"method\":"@) == label("method"@),
        encode_utf8(",\"url\":"@) == label("url"@),
{
    reveal_strlit(",\"");
    reveal_strlit("\":");
    assert(encode_utf8(",\"id\":"@) == label("id"@)) by {
        reveal_strlit(",\"id\":");
        reveal_strlit("id");
        assert(",\"id\":"@ =~= ",\""@ + "id"@ + "\":"@);
        lemma_label("id"@);
    }
    assert(encode_utf8(",\"method\":"@) == label("method"@)) by {
        reveal_strlit(",\"method\":");
        reveal_strlit("method");
        assert(",\"method\":"@ =~= ",\""@ + "method"@ + "\":"@);
        lemma_label("method"@);
    }
    assert(encode_utf8(",\"url\":"@) == label("url"@)) by {
        reveal_strlit(",\"url\":");
        reveal_strlit("url");
        assert(",\"url\":"@ =~= ",\""@ + "url"@ + "\":"@);
        lemma_label("url"@);
    }
}

proof fn lemma_label_of_answers()
    ensures
        encode_utf8(",\"headers\":"@) == label("headers"@),
        encode_utf8(",\"body\":"@) == label("body"@),
        encode_utf8(",\"status\":"@) == label("status"@),
{
    reveal_strlit(",\"");
    reveal_strlit("\":");
    assert(encode_utf8(",\"headers\":"@) == label("headers"@)) by {
        reveal_strlit(",\"headers\":");
        reveal_strlit("headers");
        assert(",\"headers\":"@ =~= ",\""@ + "headers"@ + "\":"@);
        lemma_label("headers"@);
    }
    assert(encode_utf8(",\"body\":"@) == label("body"@)) by {
        reveal_strlit(",\"body\":");
        reveal_strlit("body");
        assert(",\"body\":"@ =~= ",\""@ + "body"@ + "\":"@);
        lemma_label("body"@);
    }
    assert(encode_utf8(",\"status\":"@) == label("status"@)) by {
        reveal_strlit(",\"status\":");
        reveal_strlit("status");
        assert(",\"status\":"@ =~= ",\""@ + "status"@ + "\":"@);
        lemma_label("status"@);
    }
}

proof fn lemma_label_of_openings()
    ensures
        encode_utf8(",\"protocols\":"@) == label("protocols"@),
        encode_utf8(",\"ok\":"@) == label("ok"@),
        encode_utf8(",\"error\":"@) == label("error"@),
{
    reveal_strlit(",\"");
    reveal_strlit("\":");
    assert(encode_utf8(",\"protocols\":"@) == label("protocols"@)) by {
        reveal_strlit(",\"protocols\":");
        reveal_strlit("protocols");
        assert(",\"protocols\":"@ =~= ",\""@ + "protocols"@ + "\":"@);
        lemma_label("protocols"@);
    }
    assert(encode_utf8(",\"ok\":"@) == label("ok"@)) by {
        reveal_strlit(",\"ok\":");
        reveal_strlit("ok");
        assert(",\"ok\":"@ =~= ",\""@ + "ok"@ + "\":"@);
        lemma_label("ok"@);
    }
    assert(encode_utf8(",\"error\":"@) == label("error"@)) by {
        reveal_strlit(",\"error\":");
        reveal_strlit("error");
        assert(",\"error\":"@ =~= ",\""@ + "error"@ + "\":"@);
        lemma_label("error"@);
    }
}

proof fn lemma_label_of_messages()
    ensures
        encode_utf8(",\"kind\":"@) == label("kind"@),
        encode_utf8(",\"data\":"@) == label("data"@),
        encode_utf8(",\"code\":"@) == label("code"@),
{
    reveal_strlit(",\"");
    reveal_strlit("\":");
    assert(encode_utf8(",\"kind\":"@) == label("kind"@)) by {
        reveal_strlit(",\"kind\":");
        reveal_strlit("kind");
        assert(",\"kind\":"@ =~= ",\""@ + "kind"@ + "\":"@);
        lemma_label("kind"@);
    }
    assert(encode_utf8(",\"data\":"@) == label("data"@)) by {
        reveal_strlit(",\"data\":");
        reveal_strlit("data");
        assert(",\"data\":"@ =~= ",\""@ + "data"@ + "\":"@);
        lemma_label("data"@);
    }
    assert(encode_utf8(",\"code\":"@) == label("code"@)) by {
        reveal_strlit(",\"code\":");
        reveal_strlit("code");
        assert(",\"code\":"@ =~= ",\""@ + "code"@ + "\":"@);
        lemma_label("code"@);
    }
}

proof fn lemma_label_of_payloads()
    ensures
        encode_utf8(",\"reason\":"@) == label("reason"@),
        encode_utf8(",\"subdomain\":"@) == label("subdomain"@),
        encode_utf8(",\"uri\":"@) == label("uri"@),
{
    reveal_strlit(",\"");
    reveal_strlit("\":");
    assert(encode_utf8(",\"reason\":"@) == label("reason"@)) by {
        reveal_strlit(",\"reason\":");
        reveal_strlit("reason");
        assert(",\"reason\":"@ =~= ",\""@ + "reason"@ + "\":"@);
        lemma_label("reason"@);
    }
    assert(encode_utf8(",\"subdomain\":"@) == label("subdomain"@)) by {
        reveal_strlit(",\"subdomain\":");
        reveal_strlit("subdomain");
        assert(",\"subdomain\":"@ =~= ",\""@ + "subdomain"@ + "\":"@);
        lemma_label("subdomain"@);
    }
    assert(encode_utf8(",\"uri\":"@) == label("uri"@)) by {
        reveal_strlit(",\"uri\":");
        reveal_strlit("uri");
        assert(",\"uri\":"@ =~= ",\""@ + "uri"@ + "\":"@);
        lemma_label("uri"@);
    }
}

proof fn lemma_heads()
    ensures
        encode_utf8("{\"type\":\"request\",\"id\":"@) == opened(seq![("type"@, json_string("request"@))]) + label("id"@),
        encode_utf8("{\"type\":\"response\",\"id\":"@) == opened(seq![("type"@, json_string("response"@))]) + label("id"@),
        encode_utf8("{\"type\":\"heartbeat\",\"ts\":"@) == opened(seq![("type"@, json_string("heartbeat"@))]) + label("ts"@),
        encode_utf8("{\"type\":\"heartbeat-ack\",\"ts\":"@) == opened(seq![("type"@, json_string("heartbeat-ack"@))]) + label("ts"@),
        encode_utf8("{\"type\":\"ws-open\",\"id\":"@) == opened(seq![("type"@, json_string("ws-open"@))]) + label("id"@),
        encode_utf8("{\"type\":\"ws-open-ack\",\"id\":"@) == opened(seq![("type"@, json_string("ws-open-ack"@))]) + label("id"@),
        encode_utf8("{\"type\":\"ws-msg\",\"id\":"@) == opened(seq![("type"@, json_string("ws-msg"@))]) + label("id"@),
        encode_utf8("{\"type\":\"ws-close\",\"id\":"@) == opened(seq![("type"@, json_string("ws-close"@))]) + label("id"@),
{
    lemma_head_of_requests();
    lemma_head_of_responses();
    lemma_head_of_heartbeats();
    lemma_head_of_acks();
    lemma_head_of_openings();
    lemma_head_of_answers();
    lemma_head_of_messages();
    lemma_head_of_closings();
}

proof fn lemma_head_of_requests()
    ensures
        encode_utf8("{\"type\":\"request\",\"id\":"@) == opened(seq![("type"@, json_string("request"@))]) + label("id"@),
{
    reveal_strlit("{\"type\":\"");
    reveal_strlit("\"");
    reveal_strlit(",\"");
    reveal_strlit("\":");
    reveal_strlit("id");
    reveal_strlit("ts");
    assert(encode_utf8("{\"type\":\"request\",\"id\":"@) == opened(seq![("type"@, json_string("request"@))]) + label(
        "id"@,
    )) by {
        reveal_strlit("{\"type\":\"request\",\"id\":");
        reveal_strlit("request");
        assert("{\"type\":\"request\",\"id\":"@ =~= "{\"type\":\""@ + "request"@ + "\""@ + (",\""@ + "id"@ + "\":"@));
        lemma_head("request"@, "id"@);
    }
}

proof fn lemma_head_of_responses()
    ensures
        encode_utf8("{\"type\":\"response\",\"id\":"@) == opened(seq![("type"@, json_string("response"@))]) + label("id"@),
{
    reveal_strlit("{\"type\":\"");
    reveal_strlit("\"");
    reveal_strlit(",\"");
    reveal_strlit("\":");
    reveal_strlit("id");
    reveal_strlit("ts");
    assert(encode_utf8("{\"type\":\"response\",\"id\":"@) == opened(seq![("type"@, json_string("response"@))]) + label(
        "id"@,
    )) by {
        reveal_strlit("{\"type\":\"response\",\"id\":");
        reveal_strlit("response");
        assert("{\"type\":\"response\",\"id\":"@ =~= "{\"type\":\""@ + "response"@ + "\""@ + (",\""@ + "id"@ + "\":"@));
        lemma_head("response"@, "id"@);
    }
}

proof fn lemma_head_of_heartbeats()
    ensures
        encode_utf8("{\"type\":\"heartbeat\",\"ts\":"@) == opened(seq![("type"@, json_string("heartbeat"@))]) + label("ts"@),
{
    reveal_strlit("{\"type\":\"");
    reveal_strlit("\"");
    reveal_strlit(",\"");
    reveal_strlit("\":");
    reveal_strlit("id");
    reveal_strlit("ts");
    assert(encode_utf8("{\"type\":\"heartbeat\",\"ts\":"@) == opened(seq![("type"@, json_string("heartbeat"@))]) + label(
        "ts"@,
    )) by {
        reveal_strlit("{\"type\":\"heartbeat\",\"ts\":");
        reveal_strlit("heartbeat");
        assert("{\"type\":\"heartbeat\",\"ts\":"@ =~= "{\"type\":\""@ + "heartbeat"@ + "\""@ + (",\""@ + "ts"@ + "\":"@));
        lemma_head("heartbeat"@, "ts"@);
    }
}

proof fn lemma_head_of_acks()
    ensures
        encode_utf8("{\"type\":\"heartbeat-ack\",\"ts\":"@) == opened(seq![("type"@, json_string("heartbeat-ack"@))]) + label("ts"@),
{
    reveal_strlit("{\"type\":\"");
    reveal_strlit("\"");
    reveal_strlit(",\"");
    reveal_strlit("\":");
    reveal_strlit("id");
    reveal_strlit("ts");
    assert(encode_utf8("{\"type\":\"heartbeat-ack\",\"ts\":"@) == opened(seq![("type"@, json_string("heartbeat-ack"@))]) + label(
        "ts"@,
    )) by {
        reveal_strlit("{\"type\":\"heartbeat-ack\",\"ts\":");
        reveal_strlit("heartbeat-ack");
        assert("{\"type\":\"heartbeat-ack\",\"ts\":"@ =~= "{\"type\":\""@ + "heartbeat-ack"@ + "\""@ + (",\""@ + "ts"@ + "\":"@));
        lemma_head("heartbeat-ack"@, "ts"@);
    }
}

proof fn lemma_head_of_openings()
    ensures
        encode_utf8("{\"type\":\"ws-open\",\"id\":"@) == opened(seq![("type"@, json_string("ws-open"@))]) + label("id"@),
{
    reveal_strlit("{\"type\":\"");
    reveal_strlit("\"");
    reveal_strlit(",\"");
    reveal_strlit("\":");
    reveal_strlit("id");
    reveal_strlit("ts");
    assert(encode_utf8("{\"type\":\"ws-open\",\"id\":"@) == opened(seq![("type"@, json_string("ws-open"@))]) + label(
        "id"@,
    )) by {
        reveal_strlit("{\"type\":\"ws-open\",\"id\":");
        reveal_strlit("ws-open");
        assert("{\"type\":\"ws-open\",\"id\":"@ =~= "{\"type\":\""@ + "ws-open"@ + "\""@ + (",\""@ + "id"@ + "\":"@));
        lemma_head("ws-open"@, "id"@);
    }
}

proof fn lemma_head_of_answers()
    ensures
        encode_utf8("{\"type\":\"ws-open-ack\",\"id\":"@) == opened(seq![("type"@, json_string("ws-open-ack"@))]) + label("id"@),
{
    reveal_strlit("{\"type\":\"");
    reveal_strlit("\"");
    reveal_strlit(",\"");
    reveal_strlit("\":");
    reveal_strlit("id");
    reveal_strlit("ts");
    assert(encode_utf8("{\"type\":\"ws-open-ack\",\"id\":"@) == opened(seq![("type"@, json_string("ws-open-ack"@))]) + label(
        "id"@,
    )) by {
        reveal_strlit("{\"type\":\"ws-open-ack\",\"id\":");
        reveal_strlit("ws-open-ack");
        assert("{\"type\":\"ws-open-ack\",\"id\":"@ =~= "{\"type\":\""@ + "ws-open-ack"@ + "\""@ + (",\""@ + "id"@ + "\":"@));
        lemma_head("ws-open-ack"@, "id"@);
    }
}

proof fn lemma_head_of_messages()
    ensures
        encode_utf8("{\"type\":\"ws-msg\",\"id\":"@) == opened(seq![("type"@, json_string("ws-msg"@))]) + label("id"@),
{
    reveal_strlit("{\"type\":\"");
    reveal_strlit("\"");
    reveal_strlit(",\"");
    reveal_strlit("\":");
    reveal_strlit("id");
    reveal_strlit("ts");
    assert(encode_utf8("{\"type\":\"ws-msg\",\"id\":"@) == opened(seq![("type"@, json_string("ws-msg"@))]) + label(
        "id"@,
    )) by {
        reveal_strlit("{\"type\":\"ws-msg\",\"id\":");
        reveal_strlit("ws-msg");
        assert("{\"type\":\"ws-msg\",\"id\":"@ =~= "{\"type\":\""@ + "ws-msg"@ + "\""@ + (",\""@ + "id"@ + "\":"@));
        lemma_head("ws-msg"@, "id"@);
    }
}

proof fn lemma_head_of_closings()
    ensures
        encode_utf8("{\"type\":\"ws-close\",\"id\":"@) == opened(seq![("type"@, json_string("ws-close"@))]) + label("id"@),
{
    reveal_strlit("{\"type\":\"");
    reveal_strlit("\"");
    reveal_strlit(",\"");
    reveal_strlit("\":");
    reveal_strlit("id");
    reveal_strlit("ts");
    assert(encode_utf8("{\"type\":\"ws-close\",\"id\":"@) == opened(seq![("type"@, json_string("ws-close"@))]) + label(
        "id"@,
    )) by {
        reveal_strlit("{\"type\":\"ws-close\",\"id\":");
        reveal_strlit("ws-close");
        assert("{\"type\":\"ws-close\",\"id\":"@ =~= "{\"type\":\""@ + "ws-close"@ + "\""@ + (",\""@ + "id"@ + "\":"@));
        lemma_head("ws-close"@, "id"@);
    }
}

proof fn lemma_firsts()
    ensures
        encode_utf8("{\"key\":"@) == encode_utf8("{"@) + json_string("key"@) + encode_utf8(":"@),
        encode_utf8("{\"method\":"@) == encode_utf8("{"@) + json_string("method"@) + encode_utf8(":"@),
        encode_utf8("{\"status\":"@) == encode_utf8("{"@) + json_string("status"@) + encode_utf8(":"@),
{
    reveal_strlit("{");
    reveal_strlit("\"");
    reveal_strlit(":");
    assert(encode_utf8("{\"key\":"@) == encode_utf8("{"@) + json_string("key"@) + encode_utf8(
        ":"@,
    )) by {
        reveal_strlit("{\"key\":");
        reveal_strlit("key");
        assert("{\"key\":"@ =~= "{"@ + ("\""@ + "key"@ + "\""@) + ":"@);
        lemma_plain_string("key"@);
        lemma_utf8_joins("{"@, "\""@ + "key"@ + "\""@);
        lemma_utf8_joins("{"@ + ("\""@ + "key"@ + "\""@), ":"@);
    }
    assert(encode_utf8("{\"method\":"@) == encode_utf8("{"@) + json_string("method"@) + encode_utf8(
        ":"@,
    )) by {
        reveal_strlit("{\"method\":");
        reveal_strlit("method");
        assert("{\"method\":"@ =~= "{"@ + ("\""@ + "method"@ + "\""@) + ":"@);
        lemma_plain_string("method"@);
        lemma_utf8_joins("{"@, "\""@ + "method"@ + "\""@);
        lemma_utf8_joins("{"@ + ("\""@ + "method"@ + "\""@), ":"@);
    }
    assert(encode_utf8("{\"status\":"@) == encode_utf8("{"@) + json_string("status"@) + encode_utf8(
        ":"@,
    )) by {
        reveal_strlit("{\"status\":");
        reveal_strlit("status");
        assert("{\"status\":"@ =~= "{"@ + ("\""@ + "status"@ + "\""@) + ":"@);
        lemma_plain_string("status"@);
        lemma_utf8_joins("{"@, "\""@ + "status"@ + "\""@);
        lemma_utf8_joins("{"@ + ("\""@ + "status"@ + "\""@), ":"@);
    }
}

} // verus!
