//! The tunnel: its configuration, its errors and the envelopes that it carries.
//!
//! Envelopes travel as JSON text frames. Inbound requests and browser WebSockets come from the
//! relay; responses, acknowledgements and WebSocket frames go back. The bearer token travels in a
//! header of the upgrade request and never in the URL.

use crate::outside::base64_text::{
    base64_decode, base64_decodes_to, base64_encode, base64_fits, base64_of,
};
use crate::outside::http_text::{
    check_header_value, is_header_value, status_line, status_line_of,
};
use crate::outside::web_address::{parse_url, url_of};
use crate::proxy::{LocalRequest, LocalResponse};
use crate::table::Table;
use crate::text::{
    decimal, decode_lossy, lossy_text, opt_text, pair_texts, push_decimal, strip_prefix, trim,
    trimmed,
};
use vstd::prelude::*;

verus! {

/// What a tunnel connects.
#[derive(Debug)]
pub struct TunnelConfig {
    /// `wss://<subdomain>.local.dev/_dodev/connect`
    pub ws_url: String,
    /// Bearer token of the user.
    pub token: String,
    /// For the active-tunnel banner.
    pub subdomain: String,
    pub local_host: String,
    pub local_port: u16,
}

/// Why a tunnel ended.
#[derive(Debug)]
pub enum TunnelError {
    AuthFailed(String),
    QuotaExceeded(String),
    WebSocket(String),
    MaxReconnectsExceeded(u32),
}

/// Why a tunnel ended, as texts.
pub enum TunnelErrorModel {
    AuthFailed(Seq<char>),
    QuotaExceeded(Seq<char>),
    WebSocket(Seq<char>),
    MaxReconnectsExceeded(u32),
}

impl View for TunnelError {
    type V = TunnelErrorModel;

    open spec fn view(&self) -> TunnelErrorModel {
        match self {
            TunnelError::AuthFailed(s) => TunnelErrorModel::AuthFailed(s@),
            TunnelError::QuotaExceeded(s) => TunnelErrorModel::QuotaExceeded(s@),
            TunnelError::WebSocket(s) => TunnelErrorModel::WebSocket(s@),
            TunnelError::MaxReconnectsExceeded(n) => TunnelErrorModel::MaxReconnectsExceeded(*n),
        }
    }
}

fn with_prefix(prefix: &str, s: &str) -> (r: String)
    ensures
        r@ == prefix@ + s@,
{
    let mut out = prefix.to_owned();
    out.append(s);
    out
}

impl TunnelError {
    /// The message for the user.
    pub fn message(&self) -> (r: String)
        ensures
            r@ == match self@ {
                TunnelErrorModel::AuthFailed(s) => "Authentication failed: "@ + s,
                TunnelErrorModel::QuotaExceeded(s) => "Quota exceeded: "@ + s,
                TunnelErrorModel::WebSocket(s) => "WebSocket error: "@ + s,
                TunnelErrorModel::MaxReconnectsExceeded(n) => "Maximum reconnection attempts ("@
                    + decimal(n as nat) + ") exceeded"@,
            },
    {
        match self {
            TunnelError::AuthFailed(s) => with_prefix("Authentication failed: ", s.as_str()),
            TunnelError::QuotaExceeded(s) => with_prefix("Quota exceeded: ", s.as_str()),
            TunnelError::WebSocket(s) => with_prefix("WebSocket error: ", s.as_str()),
            TunnelError::MaxReconnectsExceeded(n) => {
                let mut out = "Maximum reconnection attempts (".to_owned();
                push_decimal(&mut out, *n as u64);
                out.append(") exceeded");
                out
            },
        }
    }
}

// ---------------------------------------------------------------------------
// Connecting
// ---------------------------------------------------------------------------
/// The step before the connection that failed.
#[derive(Debug, PartialEq, Eq, Structural)]
pub enum SetupStep {
    /// Building the HTTP client.
    Client,
    /// Reading the URL of the relay.
    Url,
}

/// The error of a tunnel that could not be set up.
pub fn setup_error(step: SetupStep, e: &str) -> (r: TunnelError)
    ensures
        r@ == TunnelErrorModel::WebSocket(
            (match step {
                SetupStep::Client => "client init: "@,
                SetupStep::Url => "invalid ws url: "@,
            }) + e@,
        ),
{
    match step {
        SetupStep::Client => TunnelError::WebSocket(with_prefix("client init: ", e)),
        SetupStep::Url => TunnelError::WebSocket(with_prefix("invalid ws url: ", e)),
    }
}

/// The headers that the client adds to the upgrade request, or why it cannot.
pub open spec fn upgrade_of(token: Seq<char>, version: Seq<char>) -> Result<
    Seq<(Seq<char>, Seq<char>)>,
    TunnelErrorModel,
> {
    if is_header_value("Bearer "@ + token) {
        Ok(
            seq![
                ("Authorization"@, "Bearer "@ + token),
                ("x-dodev-supports-ws-proxy"@, "1"@),
                ("x-dodev-cli-version"@, version),
            ],
        )
    } else {
        Err(TunnelErrorModel::AuthFailed("invalid token: "@ + "failed to parse header value"@))
    }
}

/// The headers that the client adds to the upgrade request: the bearer token, the mark that it
/// understands WebSocket envelopes, and its version.
pub fn upgrade_headers(token: &str, version: &str) -> (r: Result<
    Vec<(String, String)>,
    TunnelError,
>)
    ensures
        match r {
            Ok(headers) => upgrade_of(token@, version@) == Ok::<_, TunnelErrorModel>(
                pair_texts(headers@),
            ),
            Err(e) => upgrade_of(token@, version@) == Err::<Seq<(Seq<char>, Seq<char>)>, _>(e@),
        },
{
    let bearer = with_prefix("Bearer ", token);
    match check_header_value(bearer.as_str()) {
        Ok(_) => {
            let mut headers: Vec<(String, String)> = Vec::new();
            headers.push(("Authorization".to_owned(), bearer));
            headers.push(("x-dodev-supports-ws-proxy".to_owned(), "1".to_owned()));
            headers.push(("x-dodev-cli-version".to_owned(), version.to_owned()));
            assert(pair_texts(headers@) =~= seq![
                ("Authorization"@, "Bearer "@ + token@),
                ("x-dodev-supports-ws-proxy"@, "1"@),
                ("x-dodev-cli-version"@, version@),
            ]);
            Ok(headers)
        },
        Err(e) => Err(TunnelError::AuthFailed(with_prefix("invalid token: ", e.as_str()))),
    }
}

/// What is wrong with the status of the relay's answer, if anything is.
pub open spec fn upgrade_refusal(status: u16) -> Option<TunnelErrorModel> {
    if status == 101 {
        None
    } else {
        Some(
            TunnelErrorModel::WebSocket("unexpected upgrade status "@ + status_line_of(status)),
        )
    }
}

/// Whether the relay switched protocols.
pub fn check_upgrade_status(status: u16) -> (r: Result<(), TunnelError>)
    requires
        100 <= status <= 999,
    ensures
        match r {
            Ok(_) => upgrade_refusal(status) is None,
            Err(e) => upgrade_refusal(status) == Some(e@),
        },
{
    if status == 101 {
        Ok(())
    } else {
        Err(
            TunnelError::WebSocket(
                with_prefix("unexpected upgrade status ", status_line(status).as_str()),
            ),
        )
    }
}

/// What the user is told about a quota: what the relay said, without its own heading, or that a
/// limit was reached.
pub open spec fn quota_message(body: Seq<char>) -> Seq<char> {
    let heading = "quota exceeded:"@;
    let rest = if heading.is_prefix_of(body) {
        body.skip(heading.len() as int)
    } else {
        body
    };
    let detail = trimmed(rest);
    (if detail.len() == 0 {
        "limit reached"@
    } else {
        detail
    }) + ". Stop another tunnel with Ctrl+C, or upgrade at https://local.dev/pricing"@
}

/// The error of a connection that could not be made. `status` is the HTTP status if the relay
/// answered, `body` the text that came with it, and `text` the message of the error.
pub open spec fn connect_error_of(
    status: Option<u16>,
    body: Option<Seq<char>>,
    text: Seq<char>,
) -> TunnelErrorModel {
    let said = |default: Seq<char>|
        match body {
            Some(b) => trimmed(b),
            None => default,
        };
    match status {
        Some(401) => TunnelErrorModel::AuthFailed(said("unauthorized"@)),
        Some(429) => TunnelErrorModel::QuotaExceeded(quota_message(said("quota exceeded"@))),
        _ => TunnelErrorModel::WebSocket(text),
    }
}

fn body_or(body: Option<&str>, default: &str) -> (r: String)
    ensures
        r@ == match body {
            Some(b) => trimmed(b@),
            None => default@,
        },
{
    match body {
        Some(b) => trim(b).to_owned(),
        None => default.to_owned(),
    }
}

/// The error of a connection that could not be made, given the text of the relay's answer.
pub fn classify_status(status: Option<u16>, body: Option<&str>, text: String) -> (r: TunnelError)
    ensures
        r@ == connect_error_of(
            status,
            match body {
                Some(b) => Some(b@),
                None => None,
            },
            text@,
        ),
{
    match status {
        Some(401) => TunnelError::AuthFailed(body_or(body, "unauthorized")),
        Some(429) => {
            let said = body_or(body, "quota exceeded");
            let rest = match strip_prefix(said.as_str(), "quota exceeded:") {
                Some(rest) => rest,
                None => said.as_str(),
            };
            let detail = trim(rest);
            let mut message = if detail.is_empty() {
                "limit reached".to_owned()
            } else {
                detail.to_owned()
            };
            message.append(
                ". Stop another tunnel with Ctrl+C, or upgrade at https://local.dev/pricing",
            );
            TunnelError::QuotaExceeded(message)
        },
        _ => TunnelError::WebSocket(text),
    }
}

/// The error of a connection that could not be made: rejected credentials and exhausted quotas
/// are told apart from everything else, because they are not tried again.
pub fn classify_connect_error(status: Option<u16>, body: Option<&[u8]>, text: String) -> (r:
    TunnelError)
    ensures
        r@ == connect_error_of(
            status,
            match body {
                Some(b) => Some(lossy_text(b@)),
                None => None,
            },
            text@,
        ),
{
    match body {
        Some(b) => {
            let said = decode_lossy(b);
            classify_status(status, Some(said.as_str()), text)
        },
        None => classify_status(status, None, text),
    }
}

// ---------------------------------------------------------------------------
// Envelopes
// ---------------------------------------------------------------------------
/// One message between the client and the relay.
#[derive(Debug)]
pub enum Envelope {
    /// An HTTP request of a browser. The body is Base64.
    Request {
        id: String,
        method: String,
        url: String,
        headers: Table<String>,
        body: Option<String>,
    },
    /// The response to a request. The body is Base64.
    Response { id: String, status: u16, headers: Table<String>, body: Option<String> },
    /// A sign of life of the relay.
    Heartbeat { ts: u64 },
    /// The answer to a heartbeat.
    HeartbeatAck { ts: u64 },
    /// A browser opened a WebSocket. The URL is path and query.
    WsOpen { id: String, url: String, headers: Table<String>, protocols: Vec<String> },
    /// Whether the local WebSocket could be opened.
    WsOpenAck { id: String, ok: bool, error: Option<String> },
    /// A WebSocket message: raw text, or Base64 if `kind` is `binary`.
    WsMsg { id: String, kind: String, data: String },
    /// A WebSocket was closed.
    WsClose { id: String, code: Option<u16>, reason: Option<String> },
}

/// What the relay sends to a local WebSocket.
#[derive(Debug)]
pub enum WsLocalEvent {
    Msg { kind: String, data: String },
    Close { code: Option<u16>, reason: Option<String> },
}

/// The longest silence of the relay before the connection counts as dead, in seconds. The relay
/// sends a heartbeat about every 25 seconds.
pub const SERVER_SILENCE_SECS: u64 = 70;

/// What came from the relay.
#[derive(Debug)]
pub enum ServerEvent {
    /// Nothing, for too long.
    Silence,
    /// The end of the stream, or of the way back.
    Ended,
    /// An error of the connection.
    Failed(String),
    /// A text frame, read as an envelope.
    Text(Result<Envelope, String>),
    /// A close frame.
    Close,
    /// A ping frame.
    Ping(Vec<u8>),
    /// Any other frame.
    Other,
}

/// What to do about it. `S` is the way to a local WebSocket.
#[derive(Debug)]
pub enum Step<S> {
    /// Nothing.
    Ignore,
    /// Nothing but a note that the envelope was malformed.
    Malformed(String),
    /// Send an envelope.
    Reply(Envelope),
    /// Send a pong frame.
    Pong(Vec<u8>),
    /// Pass a request on to the local server.
    Request {
        id: String,
        method: String,
        url: String,
        headers: Table<String>,
        body: Option<String>,
    },
    /// Open a local WebSocket.
    Open { id: String, url: String, headers: Table<String>, protocols: Vec<String> },
    /// Hand an event to a local WebSocket.
    Deliver { session: S, event: WsLocalEvent },
    /// The connection is over. `drain` tells to send what is still queued.
    Stop { drain: bool, result: Result<(), TunnelError> },
}

/// Whether a step ends the connection with an error.
pub open spec fn stops_with<S>(step: Step<S>, drain: bool, error: TunnelErrorModel) -> bool {
    match step {
        Step::Stop { drain: d, result: Err(e) } => d == drain && e@ == error,
        _ => false,
    }
}

/// What to do about an event, given the open local WebSockets `sessions`.
pub open spec fn step_meets<S: Clone>(
    event: ServerEvent,
    sessions: Map<Seq<char>, S>,
    step: Step<S>,
) -> bool {
    match event {
        ServerEvent::Silence => stops_with(
            step,
            false,
            TunnelErrorModel::WebSocket(
                "no server heartbeat in "@ + decimal(SERVER_SILENCE_SECS as nat) + "s"@,
            ),
        ),
        ServerEvent::Ended => stops_with(
            step,
            true,
            TunnelErrorModel::WebSocket("connection closed unexpectedly"@),
        ),
        ServerEvent::Failed(text) => step == (Step::<S>::Stop {
            drain: false,
            result: Err(TunnelError::WebSocket(text)),
        }),
        ServerEvent::Close => step == (Step::<S>::Stop { drain: true, result: Ok(()) }),
        ServerEvent::Ping(payload) => step == Step::<S>::Pong(payload),
        ServerEvent::Other => step == Step::<S>::Ignore,
        ServerEvent::Text(Err(text)) => step == Step::<S>::Malformed(text),
        ServerEvent::Text(Ok(envelope)) => match envelope {
            Envelope::Request { id, method, url, headers, body } => step == (Step::<S>::Request {
                id,
                method,
                url,
                headers,
                body,
            }),
            Envelope::WsOpen { id, url, headers, protocols } => step == (Step::<S>::Open {
                id,
                url,
                headers,
                protocols,
            }),
            Envelope::Heartbeat { ts } => step == Step::<S>::Reply(Envelope::HeartbeatAck { ts }),
            Envelope::WsMsg { id, kind, data } => if sessions.contains_key(id@) {
                step matches Step::Deliver { session, event } && cloned(sessions[id@], session)
                    && event == (WsLocalEvent::Msg { kind, data })
            } else {
                step == Step::<S>::Ignore
            },
            Envelope::WsClose { id, code, reason } => if sessions.contains_key(id@) {
                step == (Step::Deliver {
                    session: sessions[id@],
                    event: WsLocalEvent::Close { code, reason },
                })
            } else {
                step == Step::<S>::Ignore
            },
            Envelope::Response { .. } => step == Step::<S>::Ignore,
            Envelope::HeartbeatAck { .. } => step == Step::<S>::Ignore,
            Envelope::WsOpenAck { .. } => step == Step::<S>::Ignore,
        },
    }
}

/// The open local WebSockets after an event: a closed one leaves.
pub open spec fn sessions_after<S>(
    event: ServerEvent,
    sessions: Map<Seq<char>, S>,
) -> Map<Seq<char>, S> {
    match event {
        ServerEvent::Text(Ok(Envelope::WsClose { id, .. })) => sessions.remove(id@),
        _ => sessions,
    }
}

/// What to do about an event of the relay.
pub fn on_server_event<S: Clone>(event: ServerEvent, sessions: &mut Table<S>) -> (r: Step<S>)
    ensures
        step_meets(event, old(sessions)@, r),
        final(sessions)@ == sessions_after(event, old(sessions)@),
{
    let envelope = match event {
        ServerEvent::Silence => {
            let mut text = "no server heartbeat in ".to_owned();
            push_decimal(&mut text, SERVER_SILENCE_SECS);
            text.append("s");
            return Step::Stop { drain: false, result: Err(TunnelError::WebSocket(text)) };
        },
        ServerEvent::Ended => {
            return Step::Stop {
                drain: true,
                result: Err(
                    TunnelError::WebSocket("connection closed unexpectedly".to_owned()),
                ),
            };
        },
        ServerEvent::Failed(text) => {
            return Step::Stop { drain: false, result: Err(TunnelError::WebSocket(text)) };
        },
        ServerEvent::Close => {
            return Step::Stop { drain: true, result: Ok(()) };
        },
        ServerEvent::Ping(payload) => {
            return Step::Pong(payload);
        },
        ServerEvent::Other => {
            return Step::Ignore;
        },
        ServerEvent::Text(Err(text)) => {
            return Step::Malformed(text);
        },
        ServerEvent::Text(Ok(envelope)) => envelope,
    };
    match envelope {
        Envelope::Request { id, method, url, headers, body } => Step::Request {
            id,
            method,
            url,
            headers,
            body,
        },
        Envelope::WsOpen { id, url, headers, protocols } => Step::Open {
            id,
            url,
            headers,
            protocols,
        },
        Envelope::Heartbeat { ts } => Step::Reply(Envelope::HeartbeatAck { ts }),
        Envelope::WsMsg { id, kind, data } => match sessions.get(id.as_str()) {
            Some(s) => {
                let session = s.clone();
                Step::Deliver { session, event: WsLocalEvent::Msg { kind, data } }
            },
            None => Step::Ignore,
        },
        Envelope::WsClose { id, code, reason } => match sessions.remove(id.as_str()) {
            Some(session) => Step::Deliver {
                session,
                event: WsLocalEvent::Close { code, reason },
            },
            None => Step::Ignore,
        },
        Envelope::Response { .. } => Step::Ignore,
        Envelope::HeartbeatAck { .. } => Step::Ignore,
        Envelope::WsOpenAck { .. } => Step::Ignore,
    }
}

// ---------------------------------------------------------------------------
// Requests
// ---------------------------------------------------------------------------
/// The bytes of an optional vector.
pub open spec fn opt_bytes(v: Option<Vec<u8>>) -> Option<Seq<u8>> {
    match v {
        Some(b) => Some(b@),
        None => None,
    }
}

/// Whether a request for the local server is what an envelope asks for. A body that is no Base64
/// is left out.
pub open spec fn asks_for(
    r: LocalRequest,
    method: String,
    url: String,
    headers: Table<String>,
    body: Option<String>,
) -> bool {
    &&& r.method == method
    &&& r.url == url
    &&& r.headers == headers
    &&& match body {
        Some(text) => base64_decodes_to(text@, opt_bytes(r.body)),
        None => r.body is None,
    }
}

/// The request for the local server.
pub fn local_request(
    method: String,
    url: String,
    headers: Table<String>,
    body: Option<String>,
) -> (r: LocalRequest)
    ensures
        asks_for(r, method, url, headers, body),
{
    let bytes = match body {
        Some(text) => base64_decode(text.as_str()),
        None => None,
    };
    LocalRequest { method, url, headers, body: bytes }
}

/// The path for the request log, given the path of the URL: the URL itself if it is none.
pub fn log_path_parsed(url: &str, path: Option<String>) -> (r: String)
    ensures
        r@ == match path {
            Some(p) => p@,
            None => url@,
        },
{
    match path {
        Some(p) => p,
        None => url.to_owned(),
    }
}

/// The path for the request log.
pub fn log_path(url: &str) -> (r: String)
    ensures
        r@ == match url_of(url@) {
            Ok(u) => u.0,
            Err(_) => url@,
        },
{
    match parse_url(url) {
        Ok(parts) => log_path_parsed(url, Some(parts.path)),
        Err(_) => log_path_parsed(url, None),
    }
}

/// Whether an envelope carries a response. An empty body is left out.
pub open spec fn carries(envelope: Envelope, id: String, response: LocalResponse) -> bool {
    match envelope {
        Envelope::Response { id: i, status, headers, body } => i == id && status == response.status
            && headers == response.headers && opt_text(body) == (if response.body@.len() == 0 {
            None
        } else {
            Some(base64_of(response.body@))
        }),
        _ => false,
    }
}

/// The envelope of a response.
pub fn response_envelope(id: String, response: LocalResponse) -> (r: Envelope)
    requires
        base64_fits(response.body@.len()),
    ensures
        carries(r, id, response),
{
    let body = if response.body.len() == 0 {
        None
    } else {
        Some(base64_encode(response.body.as_slice()))
    };
    Envelope::Response { id, status: response.status, headers: response.headers, body }
}

// ---------------------------------------------------------------------------
// Laws
// ---------------------------------------------------------------------------
/// Closing one WebSocket leaves the others open.
pub proof fn closing_keeps_other_sessions<S>(
    id: String,
    code: Option<u16>,
    reason: Option<String>,
    sessions: Map<Seq<char>, S>,
    other: Seq<char>,
)
    requires
        other != id@,
        sessions.contains_key(other),
    ensures
        ({
            let after = sessions_after(
                ServerEvent::Text(Ok(Envelope::WsClose { id, code, reason })),
                sessions,
            );
            after.contains_key(other) && after[other] == sessions[other]
        }),
{
}

/// Every heartbeat is answered with its own time stamp, whatever is open.
pub proof fn heartbeat_is_acknowledged<S: Clone>(
    ts: u64,
    sessions: Map<Seq<char>, S>,
    step: Step<S>,
)
    requires
        step_meets(ServerEvent::Text(Ok(Envelope::Heartbeat { ts })), sessions, step),
    ensures
        step == Step::<S>::Reply(Envelope::HeartbeatAck { ts }),
{
}

/// Only silence, a lost connection or a close frame end a connection; no envelope does.
pub proof fn no_envelope_ends_the_connection<S: Clone>(
    text: Result<Envelope, String>,
    sessions: Map<Seq<char>, S>,
    step: Step<S>,
)
    requires
        step_meets(ServerEvent::Text(text), sessions, step),
    ensures
        !(step is Stop),
{
}

/// Whoever decodes the body of a response envelope has the body of the response; there is none to
/// decode exactly if the response has none.
pub proof fn response_body_reads_back(
    envelope: Envelope,
    id: String,
    response: LocalResponse,
    decoded: Option<Seq<u8>>,
)
    requires
        carries(envelope, id, response),
        envelope->Response_body matches Some(text) ==> base64_decodes_to(text@, decoded),
    ensures
        envelope->Response_body is None <==> response.body@.len() == 0,
        envelope->Response_body is Some ==> decoded == Some(response.body@),
{
}

} // verus!
