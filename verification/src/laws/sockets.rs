//! Browser WebSockets: dialling, passing messages, closing.

use crate::outside::base64_text::{base64_of, base64_reads_back};
use crate::outside::http_text::{is_header_name, is_header_value};
use crate::proxy::local_url;
use crate::sockets::{
    acknowledges, all_ws_passed_on, close_code_of, open_after, read_meets, sessions_after_dial,
    write_meets, ws_address, ws_headers, ws_passed_on, DialOutcome, LocalFrame, LocalRead,
    LocalWrite, SessionEvent, Upstream,
};
use crate::text::{ascii_lower, decimal, joined, lowercased};
use crate::tunnel::{sessions_after, step_meets, Envelope, ServerEvent, Step};
use vstd::prelude::*;

verus! {

// ---------------------------------------------------------------------------
// Dialling
// ---------------------------------------------------------------------------
/// A WebSocket is dialled where a request with the same path would go, by another scheme.
pub proof fn same_place_by_another_scheme(host: Seq<char>, port: u16, path: Seq<char>)
    ensures
        ws_address(host, port, path) == "ws"@ + local_url(host, port, path).skip(4),
        ws_address(host, port, path) == "ws://"@ + host + ":"@ + decimal(port as nat) + path,
{
    reveal_strlit("ws");
    reveal_strlit("ws://");
    reveal_strlit("http://");
    assert(ws_address(host, port, path) =~= "ws"@ + local_url(host, port, path).skip(4));
}

/// Headers are passed on one by one and in order: what becomes of a list is what becomes of its
/// parts.
pub proof fn ws_headers_are_passed_on_in_order(
    a: Seq<(Seq<char>, Seq<char>)>,
    b: Seq<(Seq<char>, Seq<char>)>,
)
    ensures
        all_ws_passed_on(a + b) == all_ws_passed_on(a) + all_ws_passed_on(b),
        all_ws_passed_on(Seq::empty()) == Seq::<(Seq<char>, Seq<char>)>::empty(),
    decreases b.len(),
{
    if b.len() == 0 {
        assert(a + b =~= a);
        assert(all_ws_passed_on(a + b) =~= all_ws_passed_on(a) + all_ws_passed_on(b));
    } else {
        ws_headers_are_passed_on_in_order(a, b.drop_last());
        assert((a + b).drop_last() =~= a + b.drop_last());
        assert((a + b).last() == b.last());
        assert(all_ws_passed_on(a + b) =~= all_ws_passed_on(a) + all_ws_passed_on(b));
    }
}

/// One header is dropped if it belongs to the handshake or is no valid header; any other is passed
/// on with its value, under its name in small letters.
pub proof fn one_ws_header_passed_on(name: Seq<char>, value: Seq<char>)
    ensures
        ({
            let l = lowercased(name);
            let out = all_ws_passed_on(seq![(name, value)]);
            if l == "host"@ || l == "connection"@ || l == "upgrade"@ || l == "sec-websocket-key"@
                || l == "sec-websocket-version"@ || l == "sec-websocket-accept"@ || l
                == "sec-websocket-protocol"@ || l == "sec-websocket-extensions"@ || l
                == "content-length"@ || !is_header_name(name) || !is_header_value(value) {
                out == Seq::<(Seq<char>, Seq<char>)>::empty()
            } else {
                out == seq![(ascii_lower(name), value)]
            }
        }),
{
    let rows = seq![(name, value)];
    assert(rows.drop_last() =~= Seq::<(Seq<char>, Seq<char>)>::empty());
    assert(rows.last() == (name, value));
    assert(all_ws_passed_on(rows.drop_last()) =~= Seq::<(Seq<char>, Seq<char>)>::empty());
    match ws_passed_on(name, lowercased(name), value) {
        Some(h) => assert(all_ws_passed_on(rows) =~= seq![h]),
        None => {},
    }
}

/// Every valid header of the browser that is no part of the handshake reaches the local server.
pub proof fn valid_headers_reach_the_local_server(
    rows: Seq<(Seq<char>, Seq<char>)>,
    protocols: Seq<Seq<char>>,
    i: int,
)
    requires
        0 <= i < rows.len(),
        is_header_name(rows[i].0),
        is_header_value(rows[i].1),
        ({
            let l = lowercased(rows[i].0);
            l != "host"@ && l != "connection"@ && l != "upgrade"@ && l != "sec-websocket-key"@ && l
                != "sec-websocket-version"@ && l != "sec-websocket-accept"@ && l
                != "sec-websocket-protocol"@ && l != "sec-websocket-extensions"@ && l
                != "content-length"@
        }),
    ensures
        ws_headers(rows, protocols).contains((ascii_lower(rows[i].0), rows[i].1)),
{
    let (before, after) = (rows.take(i), rows.skip(i + 1));
    let one = seq![rows[i]];
    assert(rows =~= before + one + after);
    ws_headers_are_passed_on_in_order(before, one);
    ws_headers_are_passed_on_in_order(before + one, after);
    one_ws_header_passed_on(rows[i].0, rows[i].1);
    assert(one =~= seq![(rows[i].0, rows[i].1)]);
    let at = all_ws_passed_on(before).len() as int;
    assert(ws_headers(rows, protocols)[at] == (ascii_lower(rows[i].0), rows[i].1));
}

/// Subprotocols are asked for in one header, after all others, that joins them by a comma and a
/// space. There is no such header if there are none, or if they make no valid header.
pub proof fn subprotocols_are_asked_for(
    rows: Seq<(Seq<char>, Seq<char>)>,
    protocols: Seq<Seq<char>>,
)
    ensures
        protocols.len() > 0 && is_header_value(joined(protocols, ", "@)) ==> ws_headers(
            rows,
            protocols,
        ) == all_ws_passed_on(rows).push(("sec-websocket-protocol"@, joined(protocols, ", "@)))
            && ws_headers(rows, protocols).contains(
            ("sec-websocket-protocol"@, joined(protocols, ", "@)),
        ),
        protocols.len() == 0 || !is_header_value(joined(protocols, ", "@)) ==> ws_headers(
            rows,
            protocols,
        ) == all_ws_passed_on(rows),
{
    let out = ws_headers(rows, protocols);
    if protocols.len() > 0 && is_header_value(joined(protocols, ", "@)) {
        let h = ("sec-websocket-protocol"@, joined(protocols, ", "@));
        assert(out =~= all_ws_passed_on(rows).push(h));
        assert(out[out.len() - 1] == h);
    } else {
        assert(out =~= all_ws_passed_on(rows));
    }
}

/// A single subprotocol is asked for as it is.
pub proof fn one_subprotocol_is_asked_for(rows: Seq<(Seq<char>, Seq<char>)>, protocol: Seq<char>)
    requires
        is_header_value(protocol),
    ensures
        ws_headers(rows, seq![protocol]).contains(("sec-websocket-protocol"@, protocol)),
        ws_headers(rows, seq![protocol]).len() == all_ws_passed_on(rows).len() + 1,
{
    assert(joined(seq![protocol], ", "@) == protocol);
    subprotocols_are_asked_for(rows, seq![protocol]);
}

/// Without subprotocols the local server is asked for none, whatever the browser's headers say.
/// The lower case of a header's name is that of its ASCII letters.
pub proof fn no_subprotocol_is_made_up(rows: Seq<(Seq<char>, Seq<char>)>, i: int)
    requires
        forall|k: int|
            0 <= k < rows.len() && is_header_name((#[trigger] rows[k]).0) ==> lowercased(rows[k].0)
                == ascii_lower(rows[k].0),
        0 <= i < ws_headers(rows, Seq::empty()).len(),
    ensures
        ws_headers(rows, Seq::empty())[i].0 != "sec-websocket-protocol"@,
    decreases rows.len(),
{
    subprotocols_are_asked_for(rows, Seq::empty());
    if rows.len() > 0 {
        let init = rows.drop_last();
        let row = rows.last();
        subprotocols_are_asked_for(init, Seq::empty());
        ws_headers_are_passed_on_in_order(init, seq![row]);
        assert(rows =~= init + seq![row]);
        one_ws_header_passed_on(row.0, row.1);
        assert(seq![row] =~= seq![(row.0, row.1)]);
        assert(rows[rows.len() - 1] == row);
        if i < all_ws_passed_on(init).len() {
            assert forall|k: int| 0 <= k < init.len() && is_header_name(
                (#[trigger] init[k]).0,
            ) implies lowercased(init[k].0) == ascii_lower(init[k].0) by {
                assert(rows[k] == init[k]);
            }
            no_subprotocol_is_made_up(init, i);
            assert(all_ws_passed_on(rows)[i] == all_ws_passed_on(init)[i]);
        }
    }
}

/// The relay is told about a WebSocket under its own id; that it was opened exactly if it was, and
/// else the error.
pub proof fn dials_are_acknowledged(
    envelope: Envelope,
    id: Seq<char>,
    outcome: DialOutcome,
)
    requires
        acknowledges(envelope, id, outcome),
    ensures
        envelope is WsOpenAck,
        envelope->WsOpenAck_id@ == id,
        envelope->ok == (outcome is Opened),
        envelope->error is None <==> outcome is Opened,
        outcome matches DialOutcome::InvalidUrl(e) ==> (envelope->error matches Some(t) && t@
            == "invalid local ws url: "@ + e@),
        outcome matches DialOutcome::Failed(e) ==> (envelope->error matches Some(t) && t@
            == "local dial failed: "@ + e@),
{
}

// ---------------------------------------------------------------------------
// The open WebSockets
// ---------------------------------------------------------------------------
/// A successful dial makes its WebSocket reachable and changes no other; a failed one changes
/// nothing.
pub proof fn dials_open_one_socket<S>(
    id: Seq<char>,
    outcome: DialOutcome,
    session: S,
    sessions: Map<Seq<char>, S>,
    other: Seq<char>,
)
    ensures
        ({
            let after = sessions_after_dial(id, outcome, session, sessions);
            &&& outcome is Opened ==> after.contains_key(id) && after[id] == session
            &&& !(outcome is Opened) ==> after == sessions
            &&& other != id ==> after.contains_key(other) == sessions.contains_key(other)
                && after[other] == sessions[other]
        }),
{
}

/// What comes from the relay opens nothing, and takes away the one WebSocket that it closes.
pub proof fn relay_closes_one_socket<S>(
    event: ServerEvent,
    sessions: Map<Seq<char>, S>,
    id: Seq<char>,
)
    ensures
        ({
            let after = sessions_after(event, sessions);
            let closed = event matches ServerEvent::Text(Ok(Envelope::WsClose { id: c, .. })) && c@
                == id;
            after.contains_key(id) <==> sessions.contains_key(id) && !closed
        }),
        sessions_after(event, sessions).contains_key(id) ==> sessions_after(event, sessions)[id]
            == sessions[id],
{
}

/// A WebSocket that ended is gone, and no other.
pub proof fn an_end_closes_one_socket<S>(
    id: Seq<char>,
    sessions: Map<Seq<char>, S>,
    other: Seq<char>,
)
    ensures
        ({
            let after = open_after(SessionEvent::Ended { id }, sessions);
            &&& !after.contains_key(id)
            &&& other != id ==> after.contains_key(other) == sessions.contains_key(other)
                && after[other] == sessions[other]
        }),
{
}

// ---------------------------------------------------------------------------
// Messages
// ---------------------------------------------------------------------------
/// The message that reaches an open WebSocket has the kind and the data of the envelope, and goes
/// to the WebSocket of that id.
pub proof fn messages_are_delivered_unchanged<S: Clone>(
    id: String,
    kind: String,
    data: String,
    sessions: Map<Seq<char>, S>,
    step: Step<S>,
)
    requires
        sessions.contains_key(id@),
        step_meets(
            ServerEvent::Text(Ok(Envelope::WsMsg { id, kind, data })),
            sessions,
            step,
        ),
    ensures
        step is Deliver,
        cloned(sessions[id@], step->session),
        step->event is Msg,
        step->event->kind@ == kind@,
        step->event->data@ == data@,
{
}

/// From the relay to the local server: the bytes of a binary message arrive as a binary frame with
/// these bytes, a binary message that is no Base64 does not arrive, and the data of any other
/// message arrives as a text frame.
pub proof fn relay_messages_arrive<S: Clone>(
    id: String,
    kind: String,
    data: String,
    sessions: Map<Seq<char>, S>,
    step: Step<S>,
    written: LocalWrite,
    bytes: Seq<u8>,
)
    requires
        sessions.contains_key(id@),
        step_meets(
            ServerEvent::Text(Ok(Envelope::WsMsg { id, kind, data })),
            sessions,
            step,
        ),
        step is Deliver ==> write_meets(step->event, written),
    ensures
        kind@ == "binary"@ && data@ == base64_of(bytes) ==> (written matches LocalWrite::Send(f)
            && f is Binary && f->Binary_0@ == bytes),
        kind@ == "binary"@ && (forall|b: Seq<u8>| #[trigger] base64_of(b) != data@) ==> written
            == LocalWrite::Skip,
        kind@ != "binary"@ ==> (written matches LocalWrite::Send(f) && f is Text && f->Text_0@
            == data@),
{
    messages_are_delivered_unchanged(id, kind, data, sessions, step);
    if kind@ == "binary"@ && data@ == base64_of(bytes) {
        match written {
            LocalWrite::Send(LocalFrame::Binary(b)) => base64_reads_back(bytes, Some(b@)),
            LocalWrite::Skip => base64_reads_back(bytes, None),
            _ => {},
        }
    }
    if kind@ == "binary"@ && (forall|b: Seq<u8>| #[trigger] base64_of(b) != data@) {
        match written {
            LocalWrite::Send(LocalFrame::Binary(b)) => {
                assert(base64_of(b@) == data@);
            },
            _ => {},
        }
    }
}

/// From the relay to the local server: a close reaches the WebSocket of its id, with the reason
/// that was given and a code that may be sent: the one that was given, if it is one.
pub proof fn relay_closings_arrive<S: Clone>(
    id: String,
    code: Option<u16>,
    reason: Option<String>,
    sessions: Map<Seq<char>, S>,
    step: Step<S>,
    written: LocalWrite,
)
    requires
        step_meets(
            ServerEvent::Text(Ok(Envelope::WsClose { id, code, reason })),
            sessions,
            step,
        ),
        step is Deliver ==> write_meets(step->event, written),
    ensures
        step is Deliver <==> sessions.contains_key(id@),
        !sessions.contains_key(id@) ==> step is Ignore,
        sessions.contains_key(id@) ==> step->session == sessions[id@] && step->event is Close
            && step->event->code == code && step->event->reason == reason,
        sessions.contains_key(id@) ==> (written matches LocalWrite::SendAndStop(f) && f is Close && (
        reason matches Some(t) ==> f->reason@ == t@) && (reason is None ==> f->reason@.len() == 0)
            && (code matches Some(c) ==> (1000 <= c <= 1014 && c != 1004 && c != 1005 && c != 1006
            || 3000 <= c <= 4999 ==> f->code == c)) && (f->code == 1011 || Some(f->code) == code)
            && f->code != 1004 && f->code != 1005 && f->code != 1006 && f->code != 1015 && f->code
            >= 1000 && f->code <= 4999),
{
}

/// From the local server to the relay: a frame goes out under the id of its WebSocket, text as
/// text, bytes as the Base64 of the bytes, a close with its code and reason; only a close ends the
/// session.
pub proof fn local_frames_go_out(id: Seq<char>, frame: LocalRead, up: Upstream)
    requires
        read_meets(id, frame, up),
    ensures
        up.done <==> frame is Close,
        frame matches LocalRead::Text(t) ==> (up.envelope matches Some(e) && e is WsMsg
            && e->WsMsg_id@ == id && e->WsMsg_kind@ == "text"@ && e->WsMsg_data@ == t@),
        frame matches LocalRead::Binary(b) ==> (up.envelope matches Some(e) && e is WsMsg
            && e->WsMsg_id@ == id && e->WsMsg_kind@ == "binary"@ && e->WsMsg_data@ == base64_of(
            b@,
        )),
        frame matches LocalRead::Close(c) ==> (up.envelope matches Some(e) && e is WsClose
            && e->WsClose_id@ == id && (c matches Some(p) ==> e->WsClose_code == Some(p.0) && (
        e->WsClose_reason matches Some(t) && t@ == p.1@)) && (c is None ==> e->WsClose_code is None
            && e->WsClose_reason is None)),
        frame is Control ==> up.envelope is None,
{
}

/// The code of a close frame is the one that was given, if it may be sent, and else that of an
/// internal error.
pub proof fn close_codes_in_numbers(code: Option<u16>)
    ensures
        code matches Some(c) ==> (if (1000 <= c <= 1014 && c != 1004 && c != 1005 && c != 1006) || (
        3000 <= c <= 4999) {
            close_code_of(code) == c
        } else {
            close_code_of(code) == 1011
        }),
        code is None ==> close_code_of(code) == 1011,
{
}

} // verus!
