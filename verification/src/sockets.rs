//! Browser WebSockets that are carried through the tunnel to the local server.
//!
//! For each one the client dials `ws://<local_host>:<local_port><path>`, tells the relay whether
//! that worked, and then passes frames in both directions until either side closes. Between the
//! dial and the end it stands in the table of open WebSockets.

use crate::outside::base64_text::{
    base64_decode, base64_decodes_to, base64_encode, base64_fits, base64_of,
};
use crate::outside::http_text::{
    check_header_value, header_name, is_header_name, is_header_value, is_token, is_token_char,
};
use crate::table::Table;
use crate::text::{
    ascii_lower, decimal, join, joined, lowercase, lowercased, opt_text, pair_texts, push_decimal,
    text_eq, texts,
};
use crate::tunnel::{sessions_after, step_meets, Envelope, ServerEvent, Step, WsLocalEvent};
use vstd::prelude::*;
use vstd::utf8::is_ascii_chars;

verus! {

// ---------------------------------------------------------------------------
// Dialling
// ---------------------------------------------------------------------------
/// The address of a local WebSocket.
pub open spec fn ws_address(host: Seq<char>, port: u16, url: Seq<char>) -> Seq<char> {
    "ws://"@ + host + ":"@ + decimal(port as nat) + url
}

/// The address of a local WebSocket.
pub fn local_ws_url(local_host: &str, local_port: u16, url: &str) -> (r: String)
    ensures
        r@ == ws_address(local_host@, local_port, url@),
{
    let mut out = "ws://".to_owned();
    out.append(local_host);
    out.append(":");
    push_decimal(&mut out, local_port as u64);
    out.append(url);
    out
}

/// Headers that belong to the handshake of one connection. `lower` is the header's name in lower
/// case.
pub open spec fn is_handshake_header(lower: Seq<char>) -> bool {
    ||| lower == "host"@
    ||| lower == "connection"@
    ||| lower == "upgrade"@
    ||| lower == "sec-websocket-key"@
    ||| lower == "sec-websocket-version"@
    ||| lower == "sec-websocket-accept"@
    ||| lower == "sec-websocket-protocol"@
    ||| lower == "sec-websocket-extensions"@
    ||| lower == "content-length"@
}

/// What becomes of one header of the browser, `lower` being its name in lower case: it is passed
/// on under its canonical name, unless it belongs to the handshake or is no valid header.
pub open spec fn ws_passed_on(name: Seq<char>, lower: Seq<char>, value: Seq<char>) -> Option<
    (Seq<char>, Seq<char>),
> {
    if is_handshake_header(lower) || !is_header_name(name) || !is_header_value(value) {
        None
    } else {
        Some((ascii_lower(name), value))
    }
}

/// The headers of the browser that are passed on, in order.
pub open spec fn all_ws_passed_on(rows: Seq<(Seq<char>, Seq<char>)>) -> Seq<(Seq<char>, Seq<char>)>
    decreases rows.len(),
{
    if rows.len() == 0 {
        Seq::empty()
    } else {
        let row = rows.last();
        let init = all_ws_passed_on(rows.drop_last());
        match ws_passed_on(row.0, lowercased(row.0), row.1) {
            Some(h) => init.push(h),
            None => init,
        }
    }
}

/// The header that asks for subprotocols, if there are any and they can be asked for.
pub open spec fn protocol_header(protocols: Seq<Seq<char>>) -> Seq<(Seq<char>, Seq<char>)> {
    if protocols.len() > 0 && is_header_value(joined(protocols, ", "@)) {
        seq![("sec-websocket-protocol"@, joined(protocols, ", "@))]
    } else {
        Seq::empty()
    }
}

/// The headers that are set on the handshake with the local server, in order.
pub open spec fn ws_headers(
    rows: Seq<(Seq<char>, Seq<char>)>,
    protocols: Seq<Seq<char>>,
) -> Seq<(Seq<char>, Seq<char>)> {
    all_ws_passed_on(rows) + protocol_header(protocols)
}

fn name_is_handshake(lower: &str) -> (r: bool)
    ensures
        r == is_handshake_header(lower@),
{
    text_eq(lower, "host") || text_eq(lower, "connection") || text_eq(lower, "upgrade") || text_eq(
        lower,
        "sec-websocket-key",
    ) || text_eq(lower, "sec-websocket-version") || text_eq(lower, "sec-websocket-accept")
        || text_eq(lower, "sec-websocket-protocol") || text_eq(lower, "sec-websocket-extensions")
        || text_eq(lower, "content-length")
}

proof fn lemma_tokens_are_ascii(s: Seq<char>)
    requires
        is_token(s),
    ensures
        is_ascii_chars(s),
{
    assert forall|i: int| 0 <= i < s.len() implies '\0' <= #[trigger] s[i] <= '\u{7f}' by {
        assert(is_token_char(s[i]));
    }
}

/// What becomes of one header of the browser, `lower` being its name in lower case.
pub fn forward_ws_header(name: &str, lower: &str, value: &str) -> (r: Option<(String, String)>)
    ensures
        match r {
            Some(h) => ws_passed_on(name@, lower@, value@) == Some((h.0@, h.1@)),
            None => ws_passed_on(name@, lower@, value@) is None,
        },
{
    if name_is_handshake(lower) {
        return None;
    }
    match (header_name(name), check_header_value(value)) {
        (Some(n), Ok(_)) => Some((n, value.to_owned())),
        _ => None,
    }
}

/// The headers to set on the handshake with the local server, in order; a later one replaces an
/// earlier one of the same name.
pub fn forward_ws_headers(headers: &Table<String>, protocols: &Vec<String>) -> (r: Vec<
    (String, String),
>)
    ensures
        pair_texts(r@) == ws_headers(pair_texts(headers.rows()), texts(protocols@)),
        forall|i: int|
            0 <= i < all_ws_passed_on(pair_texts(headers.rows())).len() ==> !is_handshake_header(
                (#[trigger] pair_texts(r@)[i]).0,
            ),
{
    let mut out: Vec<(String, String)> = Vec::new();
    let ghost rows = pair_texts(headers.rows());
    let mut i: usize = 0;
    assert(rows.take(0) =~= Seq::<(Seq<char>, Seq<char>)>::empty());
    assert(pair_texts(out@) =~= all_ws_passed_on(rows.take(0)));
    while i < headers.len()
        invariant
            i <= rows.len(),
            rows == pair_texts(headers.rows()),
            pair_texts(out@) == all_ws_passed_on(rows.take(i as int)),
            forall|j: int|
                0 <= j < out@.len() ==> !is_handshake_header((#[trigger] pair_texts(out@)[j]).0),
        decreases rows.len() - i,
    {
        let row = headers.row(i);
        let lower = lowercase(row.0.as_str());
        let ghost next = rows.take(i + 1);
        let ghost before = out@;
        proof {
            assert(next.drop_last() =~= rows.take(i as int));
            assert(next.last() == rows[i as int]);
            assert(rows[i as int] == (row.0@, row.1@));
        }
        if let Some(h) = forward_ws_header(row.0.as_str(), lower.as_str(), row.1.as_str()) {
            let ghost pair = (h.0@, h.1@);
            proof {
                lemma_tokens_are_ascii(row.0@);
            }
            out.push(h);
            assert(pair_texts(out@) =~= pair_texts(before).push(pair));
            assert forall|j: int| 0 <= j < out@.len() implies !is_handshake_header(
                (#[trigger] pair_texts(out@)[j]).0,
            ) by {
                if j < before.len() {
                    assert(pair_texts(out@)[j] == pair_texts(before)[j]);
                }
            }
        }
        i = i + 1;
    }
    assert(rows.take(rows.len() as int) =~= rows);
    let ghost passed = out@;
    if protocols.len() > 0 {
        let value = join(protocols, ", ");
        if check_header_value(value.as_str()).is_ok() {
            out.push(("sec-websocket-protocol".to_owned(), value));
        }
    }
    assert(pair_texts(out@) =~= pair_texts(passed) + protocol_header(texts(protocols@)));
    assert forall|j: int| 0 <= j < passed.len() implies !is_handshake_header(
        (#[trigger] pair_texts(out@)[j]).0,
    ) by {
        assert(pair_texts(out@)[j] == pair_texts(passed)[j]);
    }
    out
}

/// What came of dialling the local server.
#[derive(Debug)]
pub enum DialOutcome {
    Opened,
    InvalidUrl(String),
    Failed(String),
}

/// Whether an envelope tells the relay what came of dialling for `id`.
pub open spec fn acknowledges(envelope: Envelope, id: Seq<char>, outcome: DialOutcome) -> bool {
    match envelope {
        Envelope::WsOpenAck { id: i, ok, error } => i@ == id && ok == (outcome is Opened)
            && opt_text(error) == match outcome {
            DialOutcome::Opened => None,
            DialOutcome::InvalidUrl(e) => Some("invalid local ws url: "@ + e@),
            DialOutcome::Failed(e) => Some("local dial failed: "@ + e@),
        },
        _ => false,
    }
}

/// The envelope that tells the relay whether the local WebSocket could be opened.
pub fn ws_open_ack(id: &str, outcome: &DialOutcome) -> (r: Envelope)
    ensures
        acknowledges(r, id@, *outcome),
{
    match outcome {
        DialOutcome::Opened => Envelope::WsOpenAck { id: id.to_owned(), ok: true, error: None },
        DialOutcome::InvalidUrl(e) => {
            let mut text = "invalid local ws url: ".to_owned();
            text.append(e.as_str());
            Envelope::WsOpenAck { id: id.to_owned(), ok: false, error: Some(text) }
        },
        DialOutcome::Failed(e) => {
            let mut text = "local dial failed: ".to_owned();
            text.append(e.as_str());
            Envelope::WsOpenAck { id: id.to_owned(), ok: false, error: Some(text) }
        },
    }
}

// ---------------------------------------------------------------------------
// The open WebSockets
// ---------------------------------------------------------------------------
/// The open local WebSockets after a dial: the one that was opened joins them.
pub open spec fn sessions_after_dial<S>(
    id: Seq<char>,
    outcome: DialOutcome,
    session: S,
    sessions: Map<Seq<char>, S>,
) -> Map<Seq<char>, S> {
    if outcome is Opened {
        sessions.insert(id, session)
    } else {
        sessions
    }
}

/// Notes what came of dialling for `id`. From then on the relay reaches the local WebSocket
/// through `session`.
pub fn session_opened<S>(id: &str, outcome: &DialOutcome, session: S, sessions: &mut Table<S>)
    ensures
        final(sessions)@ == sessions_after_dial(id@, *outcome, session, old(sessions)@),
{
    match outcome {
        DialOutcome::Opened => sessions.insert(id.to_owned(), session),
        _ => {},
    }
}

/// Notes that the local WebSocket of `id` ended, whichever side closed it.
pub fn session_ended<S>(id: &str, sessions: &mut Table<S>)
    ensures
        final(sessions)@ == old(sessions)@.remove(id@),
        final(sessions)@ == open_after(SessionEvent::Ended { id: id@ }, old(sessions)@),
{
    let _ = sessions.remove(id);
}

// ---------------------------------------------------------------------------
// From the relay to the local server
// ---------------------------------------------------------------------------
/// Close codes that may stand in a close frame: the registered ones without the codes that only
/// mark an abnormal end, and the codes for libraries and applications.
pub open spec fn is_sendable_code(code: u16) -> bool {
    ||| 1000 <= code <= 1014 && code != 1004 && code != 1005 && code != 1006
    ||| 3000 <= code <= 4999
}

/// The close code to send in place of one that may not be sent: internal error.
pub const INTERNAL_ERROR_CODE: u16 = 1011;

/// The close code to send.
pub open spec fn close_code_of(code: Option<u16>) -> u16 {
    match code {
        Some(c) => if is_sendable_code(c) {
            c
        } else {
            INTERNAL_ERROR_CODE
        },
        None => INTERNAL_ERROR_CODE,
    }
}

/// A close code that may be sent in place of `code`. Codes that only mark an abnormal end make
/// servers fail if they arrive in a close frame.
pub fn safe_close_code(code: Option<u16>) -> (r: u16)
    ensures
        r == close_code_of(code),
        is_sendable_code(r),
{
    match code {
        Some(c) => {
            if c == 1005 || c == 1006 || c == 1015 {
                INTERNAL_ERROR_CODE
            } else if 1000 <= c && c <= 1014 && c != 1004 {
                c
            } else if 3000 <= c && c <= 4999 {
                c
            } else {
                INTERNAL_ERROR_CODE
            }
        },
        None => INTERNAL_ERROR_CODE,
    }
}

/// A close code that was made safe stays as it is.
pub proof fn safe_code_is_stable(code: Option<u16>)
    ensures
        close_code_of(Some(close_code_of(code))) == close_code_of(code),
        is_sendable_code(close_code_of(code)),
{
}

/// A frame for the local WebSocket.
#[derive(Debug)]
pub enum LocalFrame {
    Text(String),
    Binary(Vec<u8>),
    Close { code: u16, reason: String },
}

/// What to do about an event of the relay.
#[derive(Debug)]
pub enum LocalWrite {
    /// Send a frame and go on.
    Send(LocalFrame),
    /// Go on.
    Skip,
    /// Send a frame and stop.
    SendAndStop(LocalFrame),
}

/// Whether `r` is what to do about an event of the relay. A binary message that is no Base64 is
/// skipped.
pub open spec fn write_meets(event: WsLocalEvent, r: LocalWrite) -> bool {
    match event {
        WsLocalEvent::Msg { kind, data } => if kind@ == "binary"@ {
            match r {
                LocalWrite::Send(LocalFrame::Binary(b)) => base64_decodes_to(data@, Some(b@)),
                LocalWrite::Skip => base64_decodes_to(data@, None),
                _ => false,
            }
        } else {
            r == LocalWrite::Send(LocalFrame::Text(data))
        },
        WsLocalEvent::Close { code, reason } => match r {
            LocalWrite::SendAndStop(LocalFrame::Close { code: c, reason: text }) => c
                == close_code_of(code) && text@ == match reason {
                Some(s) => s@,
                None => Seq::empty(),
            },
            _ => false,
        },
    }
}

/// What to send to the local WebSocket.
pub fn local_write(event: WsLocalEvent) -> (r: LocalWrite)
    ensures
        write_meets(event, r),
{
    match event {
        WsLocalEvent::Msg { kind, data } => {
            if text_eq(kind.as_str(), "binary") {
                match base64_decode(data.as_str()) {
                    Some(bytes) => LocalWrite::Send(LocalFrame::Binary(bytes)),
                    None => LocalWrite::Skip,
                }
            } else {
                LocalWrite::Send(LocalFrame::Text(data))
            }
        },
        WsLocalEvent::Close { code, reason } => {
            let text = match reason {
                Some(s) => s,
                None => String::new(),
            };
            LocalWrite::SendAndStop(LocalFrame::Close { code: safe_close_code(code), reason: text })
        },
    }
}

// ---------------------------------------------------------------------------
// From the local server to the relay
// ---------------------------------------------------------------------------
/// A frame of the local WebSocket.
#[derive(Debug)]
pub enum LocalRead {
    Text(String),
    Binary(Vec<u8>),
    /// A close frame, with its code and reason if it has them.
    Close(Option<(u16, String)>),
    /// A ping, a pong or a raw frame.
    Control,
}

/// What to send to the relay, and whether the session is over.
#[derive(Debug)]
pub struct Upstream {
    pub envelope: Option<Envelope>,
    pub done: bool,
}

/// Whether `r` is what to do about a frame of the local WebSocket `id`.
pub open spec fn read_meets(id: Seq<char>, frame: LocalRead, r: Upstream) -> bool {
    &&& r.done == (frame is Close)
    &&& match frame {
        LocalRead::Text(text) => match r.envelope {
            Some(Envelope::WsMsg { id: i, kind, data }) => i@ == id && kind@ == "text"@ && data
                == text,
            _ => false,
        },
        LocalRead::Binary(bytes) => match r.envelope {
            Some(Envelope::WsMsg { id: i, kind, data }) => i@ == id && kind@ == "binary"@ && data@
                == base64_of(bytes@),
            _ => false,
        },
        LocalRead::Close(Some((c, text))) => match r.envelope {
            Some(Envelope::WsClose { id: i, code, reason }) => i@ == id && code == Some(c)
                && reason == Some(text),
            _ => false,
        },
        LocalRead::Close(None) => match r.envelope {
            Some(Envelope::WsClose { id: i, code, reason }) => i@ == id && code is None
                && reason is None,
            _ => false,
        },
        LocalRead::Control => r.envelope is None,
    }
}

/// What to send to the relay for a frame of the local WebSocket `id`.
pub fn local_read(id: &str, frame: LocalRead) -> (r: Upstream)
    requires
        frame matches LocalRead::Binary(b) ==> base64_fits(b@.len()),
    ensures
        read_meets(id@, frame, r),
{
    match frame {
        LocalRead::Text(text) => Upstream {
            envelope: Some(
                Envelope::WsMsg { id: id.to_owned(), kind: "text".to_owned(), data: text },
            ),
            done: false,
        },
        LocalRead::Binary(bytes) => Upstream {
            envelope: Some(
                Envelope::WsMsg {
                    id: id.to_owned(),
                    kind: "binary".to_owned(),
                    data: base64_encode(bytes.as_slice()),
                },
            ),
            done: false,
        },
        LocalRead::Close(Some((code, reason))) => Upstream {
            envelope: Some(
                Envelope::WsClose { id: id.to_owned(), code: Some(code), reason: Some(reason) },
            ),
            done: true,
        },
        LocalRead::Close(None) => Upstream {
            envelope: Some(Envelope::WsClose { id: id.to_owned(), code: None, reason: None }),
            done: true,
        },
        LocalRead::Control => Upstream { envelope: None, done: false },
    }
}

// ---------------------------------------------------------------------------
// Laws
// ---------------------------------------------------------------------------
/// A message that one end of a tunnel reads from its WebSocket is the message that the other end
/// writes to its own, text as text and bytes as bytes.
pub proof fn messages_survive_the_tunnel(
    id: Seq<char>,
    frame: LocalRead,
    upstream: Upstream,
    written: LocalWrite,
)
    requires
        frame is Text || frame is Binary,
        read_meets(id, frame, upstream),
        upstream.envelope matches Some(Envelope::WsMsg { kind, data, .. }) ==> write_meets(
            WsLocalEvent::Msg { kind, data },
            written,
        ),
    ensures
        match frame {
            LocalRead::Text(text) => written == LocalWrite::Send(LocalFrame::Text(text)),
            LocalRead::Binary(bytes) => match written {
                LocalWrite::Send(LocalFrame::Binary(b)) => b@ == bytes@,
                _ => false,
            },
            _ => false,
        },
{
    reveal_strlit("text");
    reveal_strlit("binary");
    assert("text"@.len() != "binary"@.len());
}

/// Whether a header is what becomes of a row: its name in small letters and its value, if both are
/// valid and the header is no part of the handshake.
pub open spec fn is_made_of(h: (Seq<char>, Seq<char>), row: (Seq<char>, Seq<char>)) -> bool {
    &&& h == (ascii_lower(row.0), row.1)
    &&& !is_handshake_header(lowercased(row.0))
    &&& is_header_name(row.0)
    &&& is_header_value(row.1)
}

/// Whether a header is what becomes of one of the rows.
pub open spec fn comes_from(
    h: (Seq<char>, Seq<char>),
    rows: Seq<(Seq<char>, Seq<char>)>,
) -> bool {
    exists|j: int| 0 <= j < rows.len() && #[trigger] is_made_of(h, rows[j])
}

proof fn lemma_comes_from(
    h: (Seq<char>, Seq<char>),
    rows: Seq<(Seq<char>, Seq<char>)>,
    j: int,
)
    requires
        0 <= j < rows.len(),
        is_made_of(h, rows[j]),
    ensures
        comes_from(h, rows),
{
}

/// Only valid headers that are no part of the handshake reach the local server, each under its
/// name in small letters.
#[verifier::spinoff_prover]
pub proof fn handshake_headers_stay_behind(rows: Seq<(Seq<char>, Seq<char>)>)
    ensures
        forall|i: int|
            0 <= i < all_ws_passed_on(rows).len() ==> comes_from(
                #[trigger] all_ws_passed_on(rows)[i],
                rows,
            ),
    decreases rows.len(),
{
    if rows.len() > 0 {
        let init = rows.drop_last();
        let row = rows.last();
        handshake_headers_stay_behind(init);
        assert forall|i: int| 0 <= i < all_ws_passed_on(rows).len() implies comes_from(
            #[trigger] all_ws_passed_on(rows)[i],
            rows,
        ) by {
            let h = all_ws_passed_on(rows)[i];
            if i < all_ws_passed_on(init).len() {
                assert(h == all_ws_passed_on(init)[i]);
                assert(comes_from(h, init));
                let j = choose|j: int| 0 <= j < init.len() && #[trigger] is_made_of(h, init[j]);
                assert(rows[j] == init[j]);
                lemma_comes_from(h, rows, j);
            } else {
                assert(ws_passed_on(row.0, lowercased(row.0), row.1) == Some(h));
                lemma_comes_from(h, rows, rows.len() - 1);
            }
        }
    }
}

/// What can happen to the open local WebSockets.
pub enum SessionEvent<S> {
    /// Something came from the relay.
    Relay(ServerEvent),
    /// The local server was dialled.
    Dialled { id: Seq<char>, outcome: DialOutcome, session: S },
    /// A local WebSocket ended.
    Ended { id: Seq<char> },
}

/// The open local WebSockets after one event.
pub open spec fn open_after<S>(
    event: SessionEvent<S>,
    sessions: Map<Seq<char>, S>,
) -> Map<Seq<char>, S> {
    match event {
        SessionEvent::Relay(e) => sessions_after(e, sessions),
        SessionEvent::Dialled { id, outcome, session } => sessions_after_dial(
            id,
            outcome,
            session,
            sessions,
        ),
        SessionEvent::Ended { id } => sessions.remove(id),
    }
}

/// The open local WebSockets after a run of events.
pub open spec fn open_after_all<S>(
    events: Seq<SessionEvent<S>>,
    sessions: Map<Seq<char>, S>,
) -> Map<Seq<char>, S>
    decreases events.len(),
{
    if events.len() == 0 {
        sessions
    } else {
        open_after(events.last(), open_after_all(events.drop_last(), sessions))
    }
}

/// Whether an event opens the WebSocket `id`.
pub open spec fn opens<S>(event: SessionEvent<S>, id: Seq<char>) -> bool {
    match event {
        SessionEvent::Dialled { id: dialled, outcome, .. } => dialled == id && outcome is Opened,
        _ => false,
    }
}

/// Whether an event closes the WebSocket `id`, from the relay's side or from the local one.
pub open spec fn closes<S>(event: SessionEvent<S>, id: Seq<char>) -> bool {
    match event {
        SessionEvent::Relay(ServerEvent::Text(Ok(Envelope::WsClose { id: closed, .. }))) => closed@
            == id,
        SessionEvent::Ended { id: ended } => ended == id,
        _ => false,
    }
}

proof fn lemma_stays_closed<S>(
    events: Seq<SessionEvent<S>>,
    sessions: Map<Seq<char>, S>,
    id: Seq<char>,
)
    requires
        !sessions.contains_key(id),
        forall|i: int| 0 <= i < events.len() ==> !opens(#[trigger] events[i], id),
    ensures
        !open_after_all(events, sessions).contains_key(id),
    decreases events.len(),
{
    if events.len() > 0 {
        let init = events.drop_last();
        assert forall|i: int| 0 <= i < init.len() implies !opens(#[trigger] init[i], id) by {
            assert(init[i] == events[i]);
        }
        lemma_stays_closed(init, sessions, id);
        assert(!opens(events[events.len() - 1], id));
    }
}

proof fn lemma_stays_open<S>(
    events: Seq<SessionEvent<S>>,
    sessions: Map<Seq<char>, S>,
    id: Seq<char>,
)
    requires
        sessions.contains_key(id),
        forall|i: int|
            0 <= i < events.len() ==> !opens(#[trigger] events[i], id) && !closes(events[i], id),
    ensures
        open_after_all(events, sessions).contains_key(id),
        open_after_all(events, sessions)[id] == sessions[id],
    decreases events.len(),
{
    if events.len() > 0 {
        let init = events.drop_last();
        assert forall|i: int| 0 <= i < init.len() implies !opens(#[trigger] init[i], id)
            && !closes(init[i], id) by {
            assert(init[i] == events[i]);
        }
        lemma_stays_open(init, sessions, id);
        assert(!opens(events[events.len() - 1], id));
    }
}

/// Once a WebSocket was closed, by either side, it is no longer among the open ones and messages
/// for it go nowhere, whatever else happens, unless one of the same id is opened in between.
pub proof fn closed_session_gets_nothing<S: Clone>(
    close: SessionEvent<S>,
    between: Seq<SessionEvent<S>>,
    message: ServerEvent,
    id: Seq<char>,
    sessions: Map<Seq<char>, S>,
    step: Step<S>,
)
    requires
        closes(close, id),
        forall|i: int| 0 <= i < between.len() ==> !opens(#[trigger] between[i], id),
        message matches ServerEvent::Text(Ok(Envelope::WsMsg { id: addressed, .. })) && addressed@
            == id,
        step_meets(message, open_after_all(between, open_after(close, sessions)), step),
    ensures
        !open_after_all(between, open_after(close, sessions)).contains_key(id),
        step == Step::<S>::Ignore,
{
    lemma_stays_closed(between, open_after(close, sessions), id);
}

/// From a successful dial on, messages reach the WebSocket that was opened, whatever happens to
/// others, until it is closed or one of the same id is opened.
pub proof fn open_session_is_reached<S: Clone>(
    session: S,
    between: Seq<SessionEvent<S>>,
    message: ServerEvent,
    id: Seq<char>,
    sessions: Map<Seq<char>, S>,
    step: Step<S>,
)
    requires
        forall|i: int|
            0 <= i < between.len() ==> !opens(#[trigger] between[i], id) && !closes(
                between[i],
                id,
            ),
        message matches ServerEvent::Text(Ok(Envelope::WsMsg { id: addressed, .. })) && addressed@
            == id,
        step_meets(
            message,
            open_after_all(
                between,
                sessions_after_dial(id, DialOutcome::Opened, session, sessions),
            ),
            step,
        ),
    ensures
        step matches Step::Deliver { session: reached, .. } && cloned(session, reached),
{
    lemma_stays_open(
        between,
        sessions_after_dial(id, DialOutcome::Opened, session, sessions),
        id,
    );
}

} // verus!
