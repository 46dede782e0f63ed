//! The connection to the relay: making it, what comes over it, and when it is made again.

use crate::display::is_narrated;
use crate::outside::base64_text::{base64_of, base64_reads_back};
use crate::outside::http_text::{is_header_value, status_line_of};
use crate::proxy::{LocalRequest, LocalResponse};
use crate::reconnect::{backoff_secs, banner_of, delay_ms, ends_with, is_retryable, Next};
use crate::table::Table;
use crate::text::{decimal, is_space, trimmed};
use crate::tunnel::{
    asks_for, carries, connect_error_of, step_meets, upgrade_of, upgrade_refusal, Envelope,
    ServerEvent, Step, TunnelError, TunnelErrorModel,
};
use vstd::arithmetic::power2::{lemma2_to64, lemma_pow2_strictly_increases, lemma_pow2_unfold};
use vstd::prelude::*;

verus! {

// ---------------------------------------------------------------------------
// Connecting
// ---------------------------------------------------------------------------
/// The upgrade request carries the token behind its scheme, and the version as it is. A token that
/// no header can carry counts as rejected credentials.
pub proof fn tokens_travel_in_a_header(token: Seq<char>, version: Seq<char>)
    ensures
        upgrade_of(token, version) is Ok <==> is_header_value("Bearer "@ + token),
        upgrade_of(token, version) matches Ok(h) ==> h.len() == 3 && h[0].0 == "Authorization"@
            && h[0].1 == "Bearer "@ + token && h[1].0 == "x-dodev-supports-ws-proxy"@ && h[1].1
            == "1"@ && h[2].0 == "x-dodev-cli-version"@ && h[2].1 == version,
        upgrade_of(token, version) matches Err(e) ==> (e matches TunnelErrorModel::AuthFailed(t)
            && "invalid token: "@.is_prefix_of(t)),
{
    if upgrade_of(token, version) is Err {
        assert("invalid token: "@.is_prefix_of(
            "invalid token: "@ + "failed to parse header value"@,
        ));
    }
}

/// Tokens that differ are told apart by the relay.
pub proof fn different_tokens_differ(a: Seq<char>, b: Seq<char>, version: Seq<char>)
    requires
        upgrade_of(a, version) is Ok,
        upgrade_of(a, version) == upgrade_of(b, version),
    ensures
        a == b,
{
    tokens_travel_in_a_header(a, version);
    tokens_travel_in_a_header(b, version);
    reveal_strlit("Bearer ");
    assert(("Bearer "@ + a).skip(7) =~= a);
    assert(("Bearer "@ + b).skip(7) =~= b);
}

/// Only an answer that switches protocols is one to go on with.
pub proof fn only_switching_goes_on(status: u16)
    ensures
        upgrade_refusal(status) is None <==> status == 101,
        upgrade_refusal(status) matches Some(e) ==> e == TunnelErrorModel::WebSocket(
            "unexpected upgrade status "@ + status_line_of(status),
        ),
{
}

/// Rejected credentials and exhausted quotas are told by the status; the text is what the relay
/// said, without the space around it.
pub proof fn refusals_tell_what_the_relay_said(
    status: Option<u16>,
    body: Option<Seq<char>>,
    text: Seq<char>,
)
    ensures
        connect_error_of(status, body, text) is AuthFailed <==> status == Some(401u16),
        connect_error_of(status, body, text) is QuotaExceeded <==> status == Some(429u16),
        status != Some(401u16) && status != Some(429u16) ==> connect_error_of(status, body, text)
            == TunnelErrorModel::WebSocket(text),
        status == Some(401u16) && body is Some ==> connect_error_of(status, body, text)
            == TunnelErrorModel::AuthFailed(trimmed(body.unwrap())),
        status == Some(401u16) && body is None ==> connect_error_of(status, body, text)
            == TunnelErrorModel::AuthFailed("unauthorized"@),
{
}

/// What the user is told about a quota is the detail that the relay gave, followed by advice. The
/// heading of the relay does not count as detail, and a detail starts and ends with no space.
pub proof fn quotas_are_explained(detail: Seq<char>, text: Seq<char>)
    requires
        detail.len() > 0,
        !is_space(detail[0]),
        !is_space(detail.last()),
    ensures
        connect_error_of(Some(429), Some("quota exceeded: "@ + detail), text)
            == TunnelErrorModel::QuotaExceeded(
            detail + ". Stop another tunnel with Ctrl+C, or upgrade at https://local.dev/pricing"@,
        ),
        !"quota exceeded:"@.is_prefix_of(detail) ==> connect_error_of(
            Some(429),
            Some(detail),
            text,
        ) == TunnelErrorModel::QuotaExceeded(
            detail + ". Stop another tunnel with Ctrl+C, or upgrade at https://local.dev/pricing"@,
        ),
{
    let body = "quota exceeded: "@ + detail;
    reveal_strlit("quota exceeded: ");
    reveal_strlit("quota exceeded:");
    assert(!is_space(body[0]));
    assert(body.last() == detail.last());
    assert(trimmed(body) =~= body);
    assert(trimmed(detail) =~= detail);
    assert("quota exceeded:"@.is_prefix_of(body)) by {
        assert(body.take(15) =~= "quota exceeded:"@);
    }
    let rest = body.skip(15);
    assert(rest =~= seq![' '] + detail);
    assert(rest.skip(1) =~= detail);
    assert(trimmed(rest) == detail);
}

/// A quota without any detail is a limit that was reached.
pub proof fn quotas_without_detail(text: Seq<char>)
    ensures
        connect_error_of(Some(429), Some(Seq::empty()), text) == TunnelErrorModel::QuotaExceeded(
            "limit reached"@
                + ". Stop another tunnel with Ctrl+C, or upgrade at https://local.dev/pricing"@,
        ),
        connect_error_of(Some(429), Some("quota exceeded:"@), text)
            == TunnelErrorModel::QuotaExceeded(
            "limit reached"@
                + ". Stop another tunnel with Ctrl+C, or upgrade at https://local.dev/pricing"@,
        ),
        connect_error_of(Some(429), None, text) == TunnelErrorModel::QuotaExceeded(
            "quota exceeded"@
                + ". Stop another tunnel with Ctrl+C, or upgrade at https://local.dev/pricing"@,
        ),
{
    reveal_strlit("quota exceeded:");
    reveal_strlit("quota exceeded");
    let (head, e) = ("quota exceeded:"@, Seq::<char>::empty());
    assert(trimmed(e) =~= e);
    assert(trimmed(head) =~= head);
    assert(head.is_prefix_of(head));
    assert(head.skip(15) =~= e);
    assert(!head.is_prefix_of(e));
    assert(trimmed("quota exceeded"@) =~= "quota exceeded"@);
}

// ---------------------------------------------------------------------------
// What comes from the relay
// ---------------------------------------------------------------------------
/// A request is handed on with all its parts.
pub proof fn requests_are_handed_on<S: Clone>(
    id: String,
    method: String,
    url: String,
    headers: Table<String>,
    body: Option<String>,
    sessions: Map<Seq<char>, S>,
    step: Step<S>,
)
    requires
        step_meets(
            ServerEvent::Text(Ok(Envelope::Request { id, method, url, headers, body })),
            sessions,
            step,
        ),
    ensures
        step is Request,
        step->Request_id == id,
        step->Request_method == method,
        step->Request_url == url,
        step->Request_headers == headers,
        step->Request_body == body,
{
}

/// An opening is handed on with all its parts.
pub proof fn openings_are_handed_on<S: Clone>(
    id: String,
    url: String,
    headers: Table<String>,
    protocols: Vec<String>,
    sessions: Map<Seq<char>, S>,
    step: Step<S>,
)
    requires
        step_meets(
            ServerEvent::Text(Ok(Envelope::WsOpen { id, url, headers, protocols })),
            sessions,
            step,
        ),
    ensures
        step is Open,
        step->Open_id == id,
        step->Open_url == url,
        step->Open_headers == headers,
        step->Open_protocols == protocols,
{
}

/// A message or a close for a WebSocket that is not open goes nowhere, and neither does what only
/// the client sends.
pub proof fn strays_are_ignored<S: Clone>(
    envelope: Envelope,
    sessions: Map<Seq<char>, S>,
    step: Step<S>,
)
    requires
        step_meets(ServerEvent::Text(Ok(envelope)), sessions, step),
    ensures
        envelope matches Envelope::WsMsg { id, .. } && !sessions.contains_key(id@) ==> step
            is Ignore,
        envelope matches Envelope::WsClose { id, .. } && !sessions.contains_key(id@) ==> step
            is Ignore,
        envelope is Response || envelope is HeartbeatAck || envelope is WsOpenAck ==> step
            is Ignore,
        envelope is Request || envelope is WsOpen || envelope is Heartbeat ==> !(step is Ignore),
{
}

/// A ping is answered with its own payload; other frames than text, ping and close are ignored,
/// and a text that is no envelope is noted.
pub proof fn frames_are_answered<S: Clone>(
    event: ServerEvent,
    sessions: Map<Seq<char>, S>,
    step: Step<S>,
)
    requires
        step_meets(event, sessions, step),
    ensures
        event matches ServerEvent::Ping(p) ==> (step matches Step::Pong(q) && q@ == p@),
        event is Other ==> step is Ignore,
        event matches ServerEvent::Text(Err(t)) ==> (step matches Step::Malformed(u) && u@ == t@),
{
}

/// How a connection ends: a close frame is no error; silence, a lost stream and a failure are. What
/// is queued is sent if the way back may still be open.
pub proof fn endings<S: Clone>(event: ServerEvent, sessions: Map<Seq<char>, S>, step: Step<S>)
    requires
        step_meets(event, sessions, step),
    ensures
        step is Stop <==> event is Silence || event is Ended || event is Failed || event is Close,
        event is Close ==> step->result is Ok && step->drain,
        event is Ended ==> step->drain && (step->result matches Err(e) && (
        e matches TunnelError::WebSocket(t) && t@ == "connection closed unexpectedly"@)),
        event is Silence ==> !step->drain && (step->result matches Err(e) && (
        e matches TunnelError::WebSocket(t) && t@ == "no server heartbeat in 70s"@)),
        event matches ServerEvent::Failed(x) ==> !step->drain && (step->result matches Err(e) && (
        e matches TunnelError::WebSocket(t) && t@ == x@)),
{
    if event is Silence {
        reveal_strlit("no server heartbeat in ");
        reveal_strlit("s");
        reveal_strlit("no server heartbeat in 70s");
        reveal_with_fuel(decimal, 3);
        assert(decimal(70) =~= seq!['7', '0']);
        assert("no server heartbeat in "@ + decimal(70) + "s"@ =~= "no server heartbeat in 70s"@);
    }
}

/// The request for the local server has the method, the URL and the headers of the envelope, and
/// the bytes whose Base64 the envelope holds.
pub proof fn requests_reach_the_local_server(
    r: LocalRequest,
    method: String,
    url: String,
    headers: Table<String>,
    body: Option<String>,
    bytes: Seq<u8>,
)
    requires
        asks_for(r, method, url, headers, body),
    ensures
        r.method@ == method@,
        r.url@ == url@,
        r.headers@ == headers@,
        r.headers == headers,
        body is None ==> r.body is None,
        body matches Some(t) && t@ == base64_of(bytes) ==> (r.body matches Some(b) && b@ == bytes),
        r.body matches Some(b) ==> (body matches Some(t) && t@ == base64_of(b@)),
{
    if let Some(t) = body {
        if t@ == base64_of(bytes) {
            match r.body {
                Some(b) => base64_reads_back(bytes, Some(b@)),
                None => base64_reads_back(bytes, None),
            }
        }
    }
}

/// The envelope of a response answers the request of that id, with the status, the headers and the
/// bytes of the response.
pub proof fn responses_reach_the_relay(
    envelope: Envelope,
    id: String,
    response: LocalResponse,
)
    requires
        carries(envelope, id, response),
    ensures
        envelope is Response,
        envelope->Response_id@ == id@,
        envelope->Response_status == response.status,
        envelope->Response_headers == response.headers,
        response.body@.len() == 0 ==> envelope->Response_body is None,
        response.body@.len() > 0 ==> (envelope->Response_body matches Some(t) && t@ == base64_of(
            response.body@,
        )),
{
}

// ---------------------------------------------------------------------------
// Connecting again
// ---------------------------------------------------------------------------
/// What follows the end of a connection: nothing after a regular one; the error after a refusal;
/// after any other error another try, up to twenty in a row.
pub proof fn what_follows_an_end(
    before: nat,
    result: Result<(), TunnelError>,
    after: nat,
    next: Next,
)
    requires
        ends_with(before, result, after, next),
    ensures
        result is Ok ==> next is Finished && after == before,
        result matches Err(e) ==> (e is AuthFailed || e is QuotaExceeded ==> next == Next::Fail(e)
            && after == before),
        result matches Err(e) ==> (e is WebSocket || e is MaxReconnectsExceeded ==> (before < 20
            ==> next is Retry && next->attempt == before + 1 && after == before + 1 && next->reason
            == e && (next->noisy <==> before >= 3)) && (before >= 20 ==> next == Next::GaveUp(
            TunnelError::MaxReconnectsExceeded(20),
        ) && after == before)),
{
}

/// Trying again helps exactly if neither the credentials nor the quota are the trouble.
pub proof fn what_is_tried_again(e: TunnelErrorModel)
    ensures
        is_retryable(e) <==> e is WebSocket || e is MaxReconnectsExceeded,
{
}

/// The first wait is a second, each next one is twice as long, up to half a minute; jitter is added
/// to it.
pub proof fn waits_double(attempt: nat, jitter: nat)
    requires
        attempt > 0,
    ensures
        delay_ms(1, 0) == 1000,
        delay_ms(attempt + 1, 0) == (if 2 * delay_ms(attempt, 0) <= 30000 {
            2 * delay_ms(attempt, 0)
        } else {
            30000
        }),
        delay_ms(attempt, jitter) == delay_ms(attempt, 0) + jitter,
{
    lemma2_to64();
    lemma_pow2_unfold(attempt);
    if attempt > 6 {
        lemma_pow2_strictly_increases(5, (attempt - 1) as nat);
    }
    assert(backoff_secs(1) == 1);
    assert(backoff_secs(attempt + 1) == (if 2 * backoff_secs(attempt) <= 30 {
        2 * backoff_secs(attempt)
    } else {
        30
    }));
}

/// The quiet line is for one or two failed tries; from the third on the user hears of them.
pub proof fn banners_in_numbers(attempts: nat)
    ensures
        banner_of(attempts) is Quiet <==> attempts == 1 || attempts == 2,
        is_narrated(attempts) <==> attempts >= 3,
{
}

} // verus!
