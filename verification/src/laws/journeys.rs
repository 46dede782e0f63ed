//! From end to end: what becomes of a request, an answer, a message or a name on its way through
//! several calls.

use crate::active::{check_lock, lock_content, lock_names_its_process, LockCheck};
use crate::auth::{get_auth_token, AuthError};
use crate::config::{
    clear_api_key, clear_session, load_session, save_session, AppConfig, ConfigError, SessionInfo,
};
use crate::laws::accounts::{only_owned_names_may_be_used, owned_names_may_be_used};
use crate::laws::http::{answer_headers_are_passed_back, end_to_end_headers_arrive};
use crate::laws::sockets::{subprotocols_are_asked_for, valid_headers_reach_the_local_server};
use crate::laws::tunnels::requests_reach_the_local_server;
use crate::outside::base64_text::{base64_of, base64_reads_back};
use crate::outside::http_text::{is_header_name, is_header_value, is_token};
use crate::proxy::{
    finish_request, plan_parsed, request_failed, table_texts, LocalRequest, LocalResponse,
    Outcome, Plan,
};
use crate::sockets::{
    forward_ws_headers, local_read, local_write, LocalFrame, LocalRead, LocalWrite, Upstream,
};
use crate::start::{choose_subdomain, first_free_subdomain_is_taken, owns_subdomain};
use crate::table::Table;
use crate::text::{
    ascii_lower, decimal, joined, lossy_text, lowercased, pair_texts, texts, trimmed,
};
use crate::tunnel::{
    classify_connect_error, local_request, response_envelope, Envelope, TunnelError, WsLocalEvent,
};
use vstd::prelude::*;

verus! {

/// A request of the relay goes to the local server with its method, under its path and query, with
/// the bytes whose Base64 came, and with every header of its own that is end to end.
pub proof fn requests_go_out_whole(
    method: String,
    url: String,
    headers: Table<String>,
    body: Option<String>,
    bytes: Seq<u8>,
    request: LocalRequest,
    path: String,
    query: Option<String>,
    host: &str,
    port: u16,
    plan: Plan,
    i: int,
)
    requires
        call_ensures(local_request, (method, url, headers, body), request),
        call_ensures(plan_parsed, (request, Some((path, query)), host, port), plan),
        is_token(method@),
    ensures
        plan is Forward,
        plan->Forward_0.method@ == method@,
        query matches Some(q) ==> plan->Forward_0.url@ == "http://"@ + host@ + ":"@ + decimal(
            port as nat,
        ) + (path@ + "?"@ + q@),
        query is None ==> plan->Forward_0.url@ == "http://"@ + host@ + ":"@ + decimal(port as nat)
            + path@,
        body matches Some(t) ==> (t@ == base64_of(bytes) && method@ != "GET"@ && method@ != "HEAD"@
            ==> (plan->Forward_0.body matches Some(b) && b@ == bytes)),
        body is None || method@ == "GET"@ || method@ == "HEAD"@ ==> plan->Forward_0.body is None,
        0 <= i < headers.rows().len() && ({
            let l = lowercased(headers.rows()[i].0@);
            l != "host"@ && l != "content-length"@ && l != "connection"@ && l != "keep-alive"@ && l
                != "transfer-encoding"@ && l != "upgrade"@ && l != "authorization"@ && l
                != "proxy-authorization"@ && l != "proxy-authenticate"@ && l != "te"@ && l
                != "trailer"@ && l != "accept-encoding"@
        }) ==> exists|k: int|
            0 <= k < plan->Forward_0.headers@.len() && (#[trigger] plan->Forward_0.headers@[k]).0@
                == headers.rows()[i].0@ && plan->Forward_0.headers@[k].1@ == headers.rows()[i].1@,
{
    requests_reach_the_local_server(request, method, url, headers, body, bytes);
    let rows = pair_texts(headers.rows());
    if 0 <= i < rows.len() {
        assert(rows[i] == (headers.rows()[i].0@, headers.rows()[i].1@));
        let l = lowercased(rows[i].0);
        if l != "host"@ && l != "content-length"@ && l != "connection"@ && l != "keep-alive"@ && l
            != "transfer-encoding"@ && l != "upgrade"@ && l != "authorization"@ && l
            != "proxy-authorization"@ && l != "proxy-authenticate"@ && l != "te"@ && l
            != "trailer"@ && l != "accept-encoding"@ {
            end_to_end_headers_arrive(rows, i);
            let sent = plan->Forward_0.headers@;
            let k = choose|k: int| 0 <= k < pair_texts(sent).len() && pair_texts(sent)[k] == rows[i];
            assert(pair_texts(sent)[k] == (sent[k].0@, sent[k].1@));
        }
    }
}

/// An answer of the local server, whatever its status, goes back to the relay under the id of the
/// request, with that status, the Base64 of its bytes and the last value of each header.
pub proof fn answers_come_back_whole(
    status: u16,
    headers: Vec<(String, Option<String>)>,
    body: Vec<u8>,
    port: u16,
    response: LocalResponse,
    id: String,
    envelope: Envelope,
    i: int,
)
    requires
        call_ensures(
            finish_request,
            (Outcome::Answered { status, headers, body: Ok(body) }, port),
            response,
        ),
        call_ensures(response_envelope, (id, response), envelope),
    ensures
        envelope is Response,
        envelope->Response_id@ == id@,
        envelope->Response_status == status,
        body@.len() == 0 ==> envelope->Response_body is None,
        body@.len() > 0 ==> (envelope->Response_body matches Some(t) && t@ == base64_of(body@)),
        0 <= i < headers@.len() && (forall|j: int|
            i < j < headers@.len() ==> (#[trigger] headers@[j]).0@ != headers@[i].0@)
            ==> envelope->Response_headers@.contains_key(headers@[i].0@) && (
        headers@[i].1 matches Some(v) ==> envelope->Response_headers@[headers@[i].0@]@ == v@),
        forall|name: Seq<char>| #[trigger]
            envelope->Response_headers@.contains_key(name) ==> exists|k: int|
                0 <= k < headers@.len() && (#[trigger] headers@[k]).0@ == name,
{
    if 0 <= i < headers@.len() {
        let name = headers@[i].0@;
        answer_headers_are_passed_back(status, headers, body, port, name, i);
        assert(table_texts(response.headers).contains_key(name) == response.headers@.contains_key(
            name,
        ));
    }
    assert forall|name: Seq<char>| #[trigger]
        envelope->Response_headers@.contains_key(name) implies exists|k: int|
        0 <= k < headers@.len() && (#[trigger] headers@[k]).0@ == name by {
        answer_headers_are_passed_back(status, headers, body, port, name, 0);
        assert(table_texts(response.headers).contains_key(name));
    }
}

/// A request that failed failed for the first of these reasons that holds: nobody listens, it took
/// too long, or whatever the error says.
pub proof fn failures_are_told_apart(refused: bool, timed_out: bool, error: String, r: Outcome)
    requires
        call_ensures(request_failed, (refused, timed_out, error), r),
    ensures
        r is Refused <==> refused,
        r is TimedOut <==> !refused && timed_out,
        !refused && !timed_out ==> r == Outcome::Failed(error),
{
}

/// The handshake with the local server asks for the subprotocols that the browser asked for, in one
/// header, and carries every valid header of the browser that is no part of a handshake.
pub proof fn handshakes_go_out_whole(
    headers: Table<String>,
    protocols: Vec<String>,
    r: Vec<(String, String)>,
    i: int,
)
    requires
        call_ensures(forward_ws_headers, (&headers, &protocols), r),
    ensures
        protocols@.len() > 0 && is_header_value(joined(texts(protocols@), ", "@)) ==> r@.len() > 0
            && r@.last().0@ == "sec-websocket-protocol"@ && r@.last().1@ == joined(
            texts(protocols@),
            ", "@,
        ),
        protocols@.len() == 1 && is_header_value(protocols@[0]@) ==> r@.len() > 0 && r@.last().0@
            == "sec-websocket-protocol"@ && r@.last().1@ == protocols@[0]@,
        0 <= i < headers.rows().len() && is_header_name(headers.rows()[i].0@) && is_header_value(
            headers.rows()[i].1@,
        ) && ({
            let l = lowercased(headers.rows()[i].0@);
            l != "host"@ && l != "connection"@ && l != "upgrade"@ && l != "sec-websocket-key"@ && l
                != "sec-websocket-version"@ && l != "sec-websocket-accept"@ && l
                != "sec-websocket-protocol"@ && l != "sec-websocket-extensions"@ && l
                != "content-length"@
        }) ==> exists|k: int|
            0 <= k < r@.len() && (#[trigger] r@[k]).0@ == ascii_lower(headers.rows()[i].0@)
                && r@[k].1@ == headers.rows()[i].1@,
{
    let rows = pair_texts(headers.rows());
    let names = texts(protocols@);
    let out = pair_texts(r@);
    subprotocols_are_asked_for(rows, names);
    if protocols@.len() == 1 {
        assert(names =~= seq![protocols@[0]@]);
        assert(joined(names, ", "@) == protocols@[0]@);
    }
    assert(out.len() == r@.len());
    if r@.len() > 0 {
        assert(out.last() == (r@.last().0@, r@.last().1@));
    }
    if 0 <= i < rows.len() {
        assert(rows[i] == (headers.rows()[i].0@, headers.rows()[i].1@));
        let l = lowercased(rows[i].0);
        if is_header_name(rows[i].0) && is_header_value(rows[i].1) && l != "host"@ && l
            != "connection"@ && l != "upgrade"@ && l != "sec-websocket-key"@ && l
            != "sec-websocket-version"@ && l != "sec-websocket-accept"@ && l
            != "sec-websocket-protocol"@ && l != "sec-websocket-extensions"@ && l
            != "content-length"@ {
            valid_headers_reach_the_local_server(rows, names, i);
            let h = (ascii_lower(rows[i].0), rows[i].1);
            let k = choose|k: int| 0 <= k < out.len() && out[k] == h;
            assert(out[k] == (r@[k].0@, r@[k].1@));
        }
    }
}

/// What one end of a tunnel reads from its WebSocket, the other end writes to its own: the same
/// text, or the same bytes, as a frame of the same kind.
pub proof fn frames_cross_the_tunnel(
    id: &str,
    frame: LocalRead,
    up: Upstream,
    event: WsLocalEvent,
    written: LocalWrite,
)
    requires
        call_ensures(local_read, (id, frame), up),
        up.envelope matches Some(Envelope::WsMsg { id: _, kind, data }) ==> event == (
        WsLocalEvent::Msg { kind, data }),
        call_ensures(local_write, (event,), written),
    ensures
        frame matches LocalRead::Text(t) ==> (written matches LocalWrite::Send(LocalFrame::Text(u))
            && u@ == t@),
        frame matches LocalRead::Binary(b) ==> (written matches LocalWrite::Send(
            LocalFrame::Binary(c),
        ) && c@ == b@),
{
    reveal_strlit("text");
    reveal_strlit("binary");
    if frame is Text {
        assert("text"@.len() != "binary"@.len());
    }
    if let LocalRead::Binary(b) = frame {
        match written {
            LocalWrite::Send(LocalFrame::Binary(c)) => base64_reads_back(b@, Some(c@)),
            LocalWrite::Skip => base64_reads_back(b@, None),
            _ => {},
        }
    }
}

/// A name counts as owned exactly if, from its start or from behind its only dot, it has the length
/// of an owned name and its letters, up to ASCII case. `i` and `from` are such a place.
pub proof fn names_of_users(owned: Vec<String>, requested: &str, r: bool, i: int, from: int) -> (at:
    (int, int))
    requires
        call_ensures(owns_subdomain, (&owned, requested), r),
    ensures
        r ==> ({
            let (k, start) = at;
            &&& 0 <= k < owned@.len()
            &&& 0 <= start <= requested@.len()
            &&& start == 0 || requested@[start - 1] == '.'
            &&& forall|j: int|
                0 <= j < requested@.len() && j != start - 1 ==> #[trigger] requested@[j] != '.'
            &&& owned@[k]@.len() == requested@.len() - start
            &&& forall|j: int|
                0 <= j < owned@[k]@.len() ==> ({
                    let (a, b) = (#[trigger] owned@[k]@[j], requested@[start + j]);
                    a == b || ('A' <= a && a <= 'Z' && b as u32 == a as u32 + 32) || ('A' <= b && b
                        <= 'Z' && a as u32 == b as u32 + 32)
                })
        }),
        0 <= i < owned@.len() && 0 <= from <= requested@.len() && (from == 0 || requested@[from - 1]
            == '.') && (forall|j: int|
            0 <= j < requested@.len() && j != from - 1 ==> #[trigger] requested@[j] != '.')
            && owned@[i]@.len() == requested@.len() - from && (forall|j: int|
            0 <= j < owned@[i]@.len() ==> ({
                let (a, b) = (#[trigger] owned@[i]@[j], requested@[from + j]);
                a == b || ('A' <= a && a <= 'Z' && b as u32 == a as u32 + 32) || ('A' <= b && b
                    <= 'Z' && a as u32 == b as u32 + 32)
            })) ==> r,
{
    let names = texts(owned@);
    assert forall|k: int| 0 <= k < owned@.len() implies #[trigger] names[k] == owned@[k]@ by {}
    if 0 <= i < owned@.len() && 0 <= from <= requested@.len() && (from == 0 || requested@[from - 1]
        == '.') && (forall|j: int|
        0 <= j < requested@.len() && j != from - 1 ==> #[trigger] requested@[j] != '.')
        && owned@[i]@.len() == requested@.len() - from && (forall|j: int|
        0 <= j < owned@[i]@.len() ==> ({
            let (a, b) = (#[trigger] owned@[i]@[j], requested@[from + j]);
            a == b || ('A' <= a && a <= 'Z' && b as u32 == a as u32 + 32) || ('A' <= b && b <= 'Z'
                && a as u32 == b as u32 + 32)
        })) {
        owned_names_may_be_used(names, requested@, i, from);
    }
    if r {
        only_owned_names_may_be_used(names, requested@)
    } else {
        (0, 0)
    }
}

/// Whoever saves a session is authenticated by its token from then on, as the user that the session
/// names, as long as the environment holds no token.
pub proof fn saved_sessions_authenticate<P>(
    path: P,
    loaded: Option<AppConfig>,
    token: &str,
    user_id: &str,
    email: &str,
    name: &str,
    saved: Result<(P, AppConfig), ConfigError>,
    session: Option<SessionInfo>,
    used: Result<String, AuthError>,
)
    requires
        token@.len() > 0,
        call_ensures(save_session::<P>, (Some(path), loaded, token, user_id, email, name), saved),
        saved is Ok ==> call_ensures(load_session, (Some(saved->Ok_0.1),), session),
        saved is Ok ==> call_ensures(get_auth_token, (None, None, Some(saved->Ok_0.1)), used),
    ensures
        saved is Ok,
        session matches Some(s) && s.session_token@ == token@ && s.user_id@ == user_id@ && s.email@
            == email@ && s.name@ == name@,
        used matches Ok(t) && t@ == token@,
{
}

/// Whoever clears the session and the API key is not authenticated any more.
pub proof fn cleared_users_are_logged_out<P>(
    path: P,
    loaded: Option<AppConfig>,
    first: Result<Option<(P, AppConfig)>, ConfigError>,
    second: Result<Option<(P, AppConfig)>, ConfigError>,
    used: Result<String, AuthError>,
)
    requires
        call_ensures(clear_session::<P>, (Some(path), true, loaded), first),
        first matches Ok(Some(w)) ==> call_ensures(
            clear_api_key::<P>,
            (Some(path), true, Some(w.1)),
            second,
        ),
        second matches Ok(Some(w)) ==> call_ensures(get_auth_token, (None, None, Some(w.1)), used),
    ensures
        first matches Ok(Some(_)),
        second matches Ok(Some(_)),
        used is Err,
{
}

/// A token of the environment wins over the config file, an API key over a session token; an empty
/// one does not count.
pub proof fn environments_win(
    key: String,
    token: String,
    loaded: Option<AppConfig>,
    by_key: Result<String, AuthError>,
    by_token: Result<String, AuthError>,
    without: Result<String, AuthError>,
    neither: Result<String, AuthError>,
)
    requires
        call_ensures(get_auth_token, (Some(key), Some(token), loaded), by_key),
        call_ensures(get_auth_token, (None, Some(token), loaded), by_token),
        call_ensures(get_auth_token, (Some(key), None, loaded), without),
        call_ensures(get_auth_token, (None, None, loaded), neither),
    ensures
        key@.len() > 0 ==> (by_key matches Ok(t) && t@ == key@) && (without matches Ok(t) && t@
            == key@),
        token@.len() > 0 ==> (by_token matches Ok(t) && t@ == token@),
        key@.len() == 0 && token@.len() > 0 ==> (by_key matches Ok(t) && t@ == token@),
        key@.len() == 0 ==> (without is Ok <==> neither is Ok) && (without matches Ok(t) ==> t@
            == neither->Ok_0@),
{
}

/// What a tunnel writes into its lock leads to the process of the tunnel, and to no other.
pub proof fn locks_lead_to_their_tunnel(pid: u32, content: String, text: &str, check: LockCheck)
    requires
        pid <= 2147483647,
        call_ensures(lock_content, (pid,), content),
        text@ == content@,
        call_ensures(check_lock, (Some(text),), check),
    ensures
        check == LockCheck::Probe(pid as i32),
{
    lock_names_its_process(pid);
}

/// Without a request a tunnel gets the first owned name that no other tunnel uses; with one it gets
/// that name or none.
pub proof fn names_are_given_out(
    requested: Option<String>,
    owned: Vec<String>,
    in_use: Vec<bool>,
    r: Result<String, String>,
    i: int,
)
    requires
        in_use@.len() == (if requested is Some {
            1
        } else {
            owned@.len()
        }),
        call_ensures(choose_subdomain, (requested, &owned, &in_use), r),
    ensures
        requested matches Some(name) ==> (r matches Ok(s) ==> s@ == name@ && !in_use@[0]),
        requested is None && 0 <= i < owned@.len() && !in_use@[i] && (forall|j: int|
            0 <= j < i ==> #[trigger] in_use@[j]) ==> (r matches Ok(s) && s@ == owned@[i]@),
        requested is None && (forall|j: int|
            0 <= j < owned@.len() ==> #[trigger] in_use@[j]) ==> r is Err,
{
    let names = texts(owned@);
    if requested is None {
        first_free_subdomain_is_taken(names, in_use@);
        if 0 <= i < owned@.len() && !in_use@[i] && (forall|j: int|
            0 <= j < i ==> #[trigger] in_use@[j]) {
            let k = choose|k: int|
                0 <= k < names.len() && r->Ok_0@ == names[k] && !#[trigger] in_use@[k] && forall|
                    j: int,
                |
                    0 <= j < k ==> in_use@[j];
            if k < i {
                assert(in_use@[k]);
            }
            if i < k {
                assert(in_use@[i]);
            }
            assert(names[i] == owned@[i]@);
        }
    }
}

/// Why a connection could not be made is told by the status and the text of the answer, whatever
/// bytes the text came in.
pub proof fn refusals_are_told(
    status: Option<u16>,
    body: &[u8],
    text: String,
    r: TunnelError,
    without: TunnelError,
)
    requires
        call_ensures(classify_connect_error, (status, Some(body), text), r),
        call_ensures(classify_connect_error, (status, None, text), without),
    ensures
        r is AuthFailed <==> status == Some(401u16),
        r is QuotaExceeded <==> status == Some(429u16),
        without is AuthFailed <==> status == Some(401u16),
        without is QuotaExceeded <==> status == Some(429u16),
        r matches TunnelError::AuthFailed(t) ==> t@ == trimmed(lossy_text(body@)),
        without matches TunnelError::AuthFailed(t) ==> t@ == "unauthorized"@,
        r matches TunnelError::WebSocket(t) ==> t@ == text@,
        without matches TunnelError::WebSocket(t) ==> t@ == text@,
{
}

} // verus!
