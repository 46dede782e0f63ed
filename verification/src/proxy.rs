//! The HTTP proxy to the user's local server: what is asked of it, and what is answered.
//!
//! A request of the tunnel becomes either a request to `http://<local_host>:<local_port><path>`
//! or, where it makes no sense, a synthetic response. Whatever comes of the local request, the
//! tunnel gets a response.

use crate::outside::http_text::{http_method, is_token};
use crate::outside::web_address::{parse_url, url_of};
use crate::pages::{DOWN_PAGE_HEAD, DOWN_PAGE_MIDDLE, DOWN_PAGE_TAIL};
use crate::table::Table;
use crate::text::{
    decimal, lowercase, lowercased, opt_text, pair_texts, push_decimal, text_eq,
};
use vstd::prelude::*;
use vstd::utf8::encode_utf8;

verus! {

/// A request that came through the tunnel.
#[derive(Debug)]
pub struct LocalRequest {
    pub method: String,
    /// Full URL as the external caller sent it.
    pub url: String,
    pub headers: Table<String>,
    pub body: Option<Vec<u8>>,
}

/// A response for the tunnel.
#[derive(Debug)]
pub struct LocalResponse {
    pub status: u16,
    pub headers: Table<String>,
    pub body: Vec<u8>,
}

/// A response as plain values.
#[verifier::ext_equal]
pub struct ResponseModel {
    pub status: u16,
    pub headers: Map<Seq<char>, Seq<char>>,
    pub body: Seq<u8>,
}

/// The texts of a table of strings.
pub open spec fn table_texts(t: Table<String>) -> Map<Seq<char>, Seq<char>> {
    t@.map_values(|s: String| s@)
}

impl View for LocalResponse {
    type V = ResponseModel;

    open spec fn view(&self) -> ResponseModel {
        ResponseModel {
            status: self.status,
            headers: table_texts(self.headers),
            body: self.body@,
        }
    }
}

// ---------------------------------------------------------------------------
// Synthetic responses
// ---------------------------------------------------------------------------
/// A plain text response.
pub open spec fn plain_response(status: u16, message: Seq<char>) -> ResponseModel {
    ResponseModel {
        status,
        headers: Map::empty().insert("content-type"@, "text/plain; charset=utf-8"@),
        body: encode_utf8(message),
    }
}

/// The response for a local server that is down.
pub open spec fn down_response(port: u16) -> ResponseModel {
    ResponseModel {
        status: 502,
        headers: Map::empty().insert("content-type"@, "text/html; charset=utf-8"@).insert(
            "cache-control"@,
            "no-store"@,
        ),
        body: encode_utf8(
            DOWN_PAGE_HEAD@ + decimal(port as nat) + DOWN_PAGE_MIDDLE@ + decimal(port as nat)
                + DOWN_PAGE_TAIL@,
        ),
    }
}

/// A plain text response with a status and a message.
pub fn error_response(status: u16, message: &str) -> (r: LocalResponse)
    ensures
        r@ == plain_response(status, message@),
{
    let mut headers: Table<String> = Table::new();
    headers.insert("content-type".to_owned(), "text/plain; charset=utf-8".to_owned());
    let r = LocalResponse { status, headers, body: message.as_bytes_vec() };
    assert(r@ =~= plain_response(status, message@));
    r
}

/// HTML page served when the tunnel is healthy but the user's local server isn't responding
/// (connection refused). Most common situation: they stopped their dev server and reloaded the
/// URL, or pointed the tunnel at the wrong port.
pub fn local_server_down_response(port: u16) -> (r: LocalResponse)
    ensures
        r@ == down_response(port),
{
    let mut html = DOWN_PAGE_HEAD.to_owned();
    push_decimal(&mut html, port as u64);
    html.append(DOWN_PAGE_MIDDLE);
    push_decimal(&mut html, port as u64);
    html.append(DOWN_PAGE_TAIL);
    let mut headers: Table<String> = Table::new();
    headers.insert("content-type".to_owned(), "text/html; charset=utf-8".to_owned());
    headers.insert("cache-control".to_owned(), "no-store".to_owned());
    let r = LocalResponse { status: 502, headers, body: html.as_str().as_bytes_vec() };
    assert(r@ =~= down_response(port));
    r
}

// ---------------------------------------------------------------------------
// The request to the local server
// ---------------------------------------------------------------------------
/// A request to the local server.
#[derive(Debug)]
pub struct Outgoing {
    pub method: String,
    pub url: String,
    /// Headers to add, in order.
    pub headers: Vec<(String, String)>,
    pub body: Option<Vec<u8>>,
}

/// What to do with a request of the tunnel.
#[derive(Debug)]
pub enum Plan {
    /// Answer it at once.
    Answer(LocalResponse),
    /// Pass it on to the local server.
    Forward(Outgoing),
}

/// A request to the local server as plain values.
#[verifier::ext_equal]
pub struct OutgoingModel {
    pub method: Seq<char>,
    pub url: Seq<char>,
    pub headers: Seq<(Seq<char>, Seq<char>)>,
    pub body: Option<Seq<u8>>,
}

impl View for Outgoing {
    type V = OutgoingModel;

    open spec fn view(&self) -> OutgoingModel {
        OutgoingModel {
            method: self.method@,
            url: self.url@,
            headers: pair_texts(self.headers@),
            body: match self.body {
                Some(b) => Some(b@),
                None => None,
            },
        }
    }
}

/// What to do with a request, as plain values.
#[verifier::ext_equal]
pub enum PlanModel {
    Answer(ResponseModel),
    Forward(OutgoingModel),
}

impl View for Plan {
    type V = PlanModel;

    open spec fn view(&self) -> PlanModel {
        match self {
            Plan::Answer(r) => PlanModel::Answer(r@),
            Plan::Forward(o) => PlanModel::Forward(o@),
        }
    }
}

/// Headers that belong to one connection, that the client sets itself, or that authenticate. The
/// browser's `Authorization` is for the tunnel and not for the local application, so it is not
/// forwarded. `lower` is the header's name in lower case.
pub open spec fn is_dropped(lower: Seq<char>) -> bool {
    ||| lower == "host"@
    ||| lower == "content-length"@
    ||| lower == "connection"@
    ||| lower == "keep-alive"@
    ||| lower == "transfer-encoding"@
    ||| lower == "upgrade"@
    ||| lower == "authorization"@
    ||| lower == "proxy-authorization"@
    ||| lower == "proxy-authenticate"@
    ||| lower == "te"@
    ||| lower == "trailer"@
}

/// What becomes of one header, `lower` being its name in lower case. Hop-by-hop headers and
/// credentials are dropped, and whatever compression the browser accepts, only what the relay can undo is asked
/// for.
pub open spec fn passed_on(name: Seq<char>, lower: Seq<char>, value: Seq<char>) -> Option<
    (Seq<char>, Seq<char>),
> {
    if is_dropped(lower) {
        None
    } else if lower == "accept-encoding"@ {
        Some(accepted_encodings())
    } else {
        Some((name, value))
    }
}

/// The header that asks for the compressions that the relay can undo.
pub open spec fn accepted_encodings() -> (Seq<char>, Seq<char>) {
    ("accept-encoding"@, "gzip, deflate"@)
}

/// The headers that are passed on, in order.
pub open spec fn all_passed_on(rows: Seq<(Seq<char>, Seq<char>)>) -> Seq<(Seq<char>, Seq<char>)>
    decreases rows.len(),
{
    if rows.len() == 0 {
        Seq::empty()
    } else {
        let row = rows.last();
        let init = all_passed_on(rows.drop_last());
        match passed_on(row.0, lowercased(row.0), row.1) {
            Some(h) => init.push(h),
            None => init,
        }
    }
}

/// Whether a header asks for a compression.
pub open spec fn asks_for_encoding(rows: Seq<(Seq<char>, Seq<char>)>) -> bool {
    exists|i: int| 0 <= i < rows.len() && lowercased((#[trigger] rows[i]).0) == "accept-encoding"@
}

/// The headers of the request to the local server. Compression is asked for even if the browser
/// did not.
pub open spec fn outgoing_headers(rows: Seq<(Seq<char>, Seq<char>)>) -> Seq<
    (Seq<char>, Seq<char>),
> {
    if asks_for_encoding(rows) {
        all_passed_on(rows)
    } else {
        all_passed_on(rows).push(accepted_encodings())
    }
}

/// The path with its query.
pub open spec fn path_and_query(path: Seq<char>, query: Option<Seq<char>>) -> Seq<char> {
    match query {
        Some(q) => path + "?"@ + q,
        None => path,
    }
}

/// The address at the local server.
pub open spec fn local_url(host: Seq<char>, port: u16, path: Seq<char>) -> Seq<char> {
    "http://"@ + host + ":"@ + decimal(port as nat) + path
}

/// The body that is passed on: GET and HEAD must not carry one even if one was sent.
pub open spec fn passed_body(method: Seq<char>, body: Option<Vec<u8>>) -> Option<Seq<u8>> {
    match body {
        Some(b) => if method == "GET"@ || method == "HEAD"@ {
            None
        } else {
            Some(b@)
        },
        None => None,
    }
}

/// What to do with a request whose URL has the given path and query, or is no URL.
pub open spec fn plan_of(
    request: LocalRequest,
    parsed: Option<(Seq<char>, Option<Seq<char>>)>,
    host: Seq<char>,
    port: u16,
) -> PlanModel {
    match parsed {
        None => PlanModel::Answer(plain_response(400, "invalid request url: "@ + request.url@)),
        Some((path, query)) => if !is_token(request.method@) {
            PlanModel::Answer(plain_response(400, "unsupported method: "@ + request.method@))
        } else {
            PlanModel::Forward(
                OutgoingModel {
                    method: request.method@,
                    url: local_url(host, port, path_and_query(path, query)),
                    headers: outgoing_headers(pair_texts(request.headers.rows())),
                    body: passed_body(request.method@, request.body),
                },
            )
        },
    }
}

fn name_is_dropped(lower: &str) -> (r: bool)
    ensures
        r == is_dropped(lower@),
{
    text_eq(lower, "host") || text_eq(lower, "content-length") || text_eq(lower, "connection")
        || text_eq(lower, "keep-alive") || text_eq(lower, "transfer-encoding") || text_eq(
        lower,
        "upgrade",
    ) || text_eq(lower, "authorization") || text_eq(lower, "proxy-authorization") || text_eq(
        lower,
        "proxy-authenticate",
    ) || text_eq(lower, "te") || text_eq(lower, "trailer")
}

/// What becomes of one header, `lower` being its name in lower case.
pub fn forward_header(name: &str, lower: &str, value: &str) -> (r: Option<(String, String)>)
    ensures
        match r {
            Some(h) => passed_on(name@, lower@, value@) == Some((h.0@, h.1@)),
            None => passed_on(name@, lower@, value@) is None,
        },
{
    if name_is_dropped(lower) {
        None
    } else if text_eq(lower, "accept-encoding") {
        Some(("accept-encoding".to_owned(), "gzip, deflate".to_owned()))
    } else {
        Some((name.to_owned(), value.to_owned()))
    }
}

/// The headers of the request to the local server.
pub fn forward_headers(headers: &Table<String>) -> (r: Vec<(String, String)>)
    ensures
        pair_texts(r@) == outgoing_headers(pair_texts(headers.rows())),
{
    let mut out: Vec<(String, String)> = Vec::new();
    let mut saw_accept_encoding: bool = false;
    let ghost rows = pair_texts(headers.rows());
    let mut i: usize = 0;
    assert(rows.take(0) =~= Seq::<(Seq<char>, Seq<char>)>::empty());
    assert(pair_texts(out@) =~= all_passed_on(rows.take(0)));
    while i < headers.len()
        invariant
            i <= rows.len(),
            rows == pair_texts(headers.rows()),
            pair_texts(out@) == all_passed_on(rows.take(i as int)),
            saw_accept_encoding == asks_for_encoding(rows.take(i as int)),
        decreases rows.len() - i,
    {
        let row = headers.row(i);
        let lower = lowercase(row.0.as_str());
        let ghost next = rows.take(i + 1);
        let ghost before = out@;
        proof {
            assert(next.drop_last() =~= rows.take(i as int));
            assert(next.last() == rows[i as int]);
            assert(rows[i as int] == (row.0@, row.1@));
        }
        if let Some(h) = forward_header(row.0.as_str(), lower.as_str(), row.1.as_str()) {
            let ghost pair = (h.0@, h.1@);
            out.push(h);
            assert(pair_texts(out@) =~= pair_texts(before).push(pair));
        }
        if text_eq(lower.as_str(), "accept-encoding") {
            saw_accept_encoding = true;
        }
        proof {
            if asks_for_encoding(rows.take(i as int)) {
                let k = choose|k: int|
                    0 <= k < i && lowercased((#[trigger] rows.take(i as int)[k]).0)
                        == "accept-encoding"@;
                assert(next[k] == rows.take(i as int)[k]);
            }
            if lowercased(rows[i as int].0) == "accept-encoding"@ {
                assert(next[i as int] == rows[i as int]);
            }
            if asks_for_encoding(next) {
                let k = choose|k: int|
                    0 <= k < next.len() && lowercased((#[trigger] next[k]).0)
                        == "accept-encoding"@;
                if k < i {
                    assert(rows.take(i as int)[k] == next[k]);
                }
            }
        }
        i = i + 1;
    }
    assert(rows.take(rows.len() as int) =~= rows);
    if !saw_accept_encoding {
        let ghost before = out@;
        out.push(("accept-encoding".to_owned(), "gzip, deflate".to_owned()));
        assert(pair_texts(out@) =~= pair_texts(before).push(accepted_encodings()));
    }
    out
}

/// What to do with a request of the tunnel, given the path and query of its URL, or nothing if it
/// is no URL.
pub fn plan_parsed(
    request: LocalRequest,
    parsed: Option<(String, Option<String>)>,
    local_host: &str,
    local_port: u16,
) -> (r: Plan)
    ensures
        r@ == plan_of(
            request,
            match parsed {
                Some((p, q)) => Some((p@, opt_text(q))),
                None => None,
            },
            local_host@,
            local_port,
        ),
{
    let (path, query) = match parsed {
        Some(p) => p,
        None => {
            let mut message = "invalid request url: ".to_owned();
            message.append(request.url.as_str());
            return Plan::Answer(error_response(400, message.as_str()));
        },
    };
    let mut url = "http://".to_owned();
    url.append(local_host);
    url.append(":");
    push_decimal(&mut url, local_port as u64);
    let ghost origin = url@;
    url.append(path.as_str());
    if let Some(q) = &query {
        url.append("?");
        url.append(q.as_str());
    }
    assert(url@ =~= origin + path_and_query(path@, opt_text(query)));

    let method = match http_method(request.method.as_str()) {
        Some(m) => m,
        None => {
            let mut message = "unsupported method: ".to_owned();
            message.append(request.method.as_str());
            return Plan::Answer(error_response(400, message.as_str()));
        },
    };
    let headers = forward_headers(&request.headers);
    let body = if text_eq(method.as_str(), "GET") || text_eq(method.as_str(), "HEAD") {
        None
    } else {
        request.body
    };
    Plan::Forward(Outgoing { method, url, headers, body })
}

/// What to do with a request of the tunnel.
///
/// The origin of its URL is replaced by the local server's; path and query are kept.
pub fn plan_request(request: LocalRequest, local_host: &str, local_port: u16) -> (r: Plan)
    ensures
        r@ == plan_of(
            request,
            match url_of(request.url@) {
                Ok(u) => Some((u.0, u.1)),
                Err(_) => None,
            },
            local_host@,
            local_port,
        ),
{
    let parsed = match parse_url(request.url.as_str()) {
        Ok(parts) => Some((parts.path, parts.query)),
        Err(_) => None,
    };
    plan_parsed(request, parsed, local_host, local_port)
}

// ---------------------------------------------------------------------------
// The response of the local server
// ---------------------------------------------------------------------------
/// What came of the request to the local server.
#[derive(Debug)]
pub enum Outcome {
    /// The server answered. A header has no value if it is not visible text; the body is an error
    /// if it could not be read.
    Answered {
        status: u16,
        headers: Vec<(String, Option<String>)>,
        body: Result<Vec<u8>, String>,
    },
    /// Nothing listens at the port.
    Refused,
    /// The server took too long.
    TimedOut,
    /// Anything else.
    Failed(String),
}

/// What came of a request that got no answer. A refused connection is told before a timeout.
pub fn request_failed(refused: bool, timed_out: bool, error: String) -> (r: Outcome)
    ensures
        r == if refused {
            Outcome::Refused
        } else if timed_out {
            Outcome::TimedOut
        } else {
            Outcome::Failed(error)
        },
{
    if refused {
        Outcome::Refused
    } else if timed_out {
        Outcome::TimedOut
    } else {
        Outcome::Failed(error)
    }
}

/// The headers of a response. Of a name that comes several times the last value stays.
pub open spec fn response_headers(headers: Seq<(String, Option<String>)>) -> Map<
    Seq<char>,
    Seq<char>,
>
    decreases headers.len(),
{
    if headers.len() == 0 {
        Map::empty()
    } else {
        response_headers(headers.drop_last()).insert(
            headers.last().0@,
            match headers.last().1 {
                Some(v) => v@,
                None => Seq::empty(),
            },
        )
    }
}

/// The response for the tunnel.
pub open spec fn response_of(outcome: Outcome, port: u16) -> ResponseModel {
    match outcome {
        Outcome::Answered { status, headers, body } => match body {
            Ok(b) => ResponseModel { status, headers: response_headers(headers@), body: b@ },
            Err(e) => plain_response(502, "failed to read response body: "@ + e@),
        },
        Outcome::Refused => down_response(port),
        Outcome::TimedOut => plain_response(
            504,
            "Local server timeout on port "@ + decimal(port as nat),
        ),
        Outcome::Failed(e) => plain_response(502, "proxy error: "@ + e@),
    }
}

fn collect_headers(headers: Vec<(String, Option<String>)>) -> (r: Table<String>)
    ensures
        table_texts(r) == response_headers(headers@),
{
    let mut table: Table<String> = Table::new();
    let mut i: usize = 0;
    assert(headers@.take(0) =~= Seq::<(String, Option<String>)>::empty());
    assert(table_texts(table) =~= response_headers(headers@.take(0)));
    while i < headers.len()
        invariant
            i <= headers@.len(),
            table_texts(table) == response_headers(headers@.take(i as int)),
        decreases headers@.len() - i,
    {
        let value = match &headers[i].1 {
            Some(v) => v.clone(),
            None => String::new(),
        };
        let ghost before = table_texts(table);
        let ghost text = value@;
        table.insert(headers[i].0.clone(), value);
        proof {
            let next = headers@.take(i + 1);
            assert(next.drop_last() =~= headers@.take(i as int));
            assert(table_texts(table) =~= before.insert(headers@[i as int].0@, text));
        }
        i = i + 1;
    }
    assert(headers@.take(headers@.len() as int) =~= headers@);
    table
}

/// The response for the tunnel, whatever came of the request to the local server.
pub fn finish_request(outcome: Outcome, local_port: u16) -> (r: LocalResponse)
    ensures
        r@ == response_of(outcome, local_port),
{
    match outcome {
        Outcome::Answered { status, headers, body } => match body {
            Ok(body) => {
                let headers = collect_headers(headers);
                LocalResponse { status, headers, body }
            },
            Err(e) => {
                let mut message = "failed to read response body: ".to_owned();
                message.append(e.as_str());
                error_response(502, message.as_str())
            },
        },
        Outcome::Refused => local_server_down_response(local_port),
        Outcome::TimedOut => {
            let mut message = "Local server timeout on port ".to_owned();
            push_decimal(&mut message, local_port as u64);
            error_response(504, message.as_str())
        },
        Outcome::Failed(e) => {
            let mut message = "proxy error: ".to_owned();
            message.append(e.as_str());
            error_response(502, message.as_str())
        },
    }
}

// ---------------------------------------------------------------------------
// Laws
// ---------------------------------------------------------------------------
/// Every header that is passed on is the fixed request for compression or a header of the browser
/// that is neither dropped nor asks for a compression of its own.
pub proof fn only_end_to_end_headers_pass(rows: Seq<(Seq<char>, Seq<char>)>)
    ensures
        forall|i: int|
            0 <= i < outgoing_headers(rows).len() ==> {
                let h = #[trigger] outgoing_headers(rows)[i];
                ||| h == accepted_encodings()
                ||| rows.contains(h) && !is_dropped(lowercased(h.0)) && lowercased(h.0)
                    != "accept-encoding"@
            },
{
    lemma_only_end_to_end(rows);
}

proof fn lemma_only_end_to_end(rows: Seq<(Seq<char>, Seq<char>)>)
    ensures
        forall|i: int|
            0 <= i < all_passed_on(rows).len() ==> {
                let h = #[trigger] all_passed_on(rows)[i];
                ||| h == accepted_encodings()
                ||| rows.contains(h) && !is_dropped(lowercased(h.0)) && lowercased(h.0)
                    != "accept-encoding"@
            },
    decreases rows.len(),
{
    if rows.len() > 0 {
        let init = rows.drop_last();
        lemma_only_end_to_end(init);
        assert forall|i: int| 0 <= i < all_passed_on(rows).len() implies {
            let h = #[trigger] all_passed_on(rows)[i];
            ||| h == accepted_encodings()
            ||| rows.contains(h) && !is_dropped(lowercased(h.0)) && lowercased(h.0)
                != "accept-encoding"@
        } by {
            let h = all_passed_on(rows)[i];
            if i < all_passed_on(init).len() {
                assert(h == all_passed_on(init)[i]);
                if init.contains(h) {
                    let k = choose|k: int| 0 <= k < init.len() && init[k] == h;
                    assert(rows[k] == h);
                }
            } else {
                assert(rows[rows.len() - 1] == rows.last());
            }
        }
    }
}

/// The local server is always asked for a compression that the relay can undo.
pub proof fn compression_is_always_asked_for(rows: Seq<(Seq<char>, Seq<char>)>)
    ensures
        outgoing_headers(rows).contains(accepted_encodings()),
{
    if asks_for_encoding(rows) {
        lemma_encoding_passes(rows);
    } else {
        let out = outgoing_headers(rows);
        assert(out[out.len() - 1] == accepted_encodings());
    }
}

proof fn lemma_encoding_passes(rows: Seq<(Seq<char>, Seq<char>)>)
    requires
        asks_for_encoding(rows),
    ensures
        all_passed_on(rows).contains(accepted_encodings()),
    decreases rows.len(),
{
    reveal_strlit("accept-encoding");
    reveal_strlit("host");
    reveal_strlit("content-length");
    reveal_strlit("connection");
    reveal_strlit("keep-alive");
    reveal_strlit("transfer-encoding");
    reveal_strlit("upgrade");
    reveal_strlit("authorization");
    reveal_strlit("proxy-authorization");
    reveal_strlit("proxy-authenticate");
    reveal_strlit("te");
    reveal_strlit("trailer");
    let k = choose|k: int|
        0 <= k < rows.len() && lowercased((#[trigger] rows[k]).0) == "accept-encoding"@;
    let init = rows.drop_last();
    let out = all_passed_on(rows);
    if k == rows.len() - 1 {
        assert("accept-encoding"@[0] == 'a' && "accept-encoding"@[1] == 'c');
        assert(!is_dropped("accept-encoding"@));
        assert(out[out.len() - 1] == accepted_encodings());
    } else {
        assert(init[k] == rows[k]);
        lemma_encoding_passes(init);
        let j = choose|j: int|
            0 <= j < all_passed_on(init).len() && all_passed_on(init)[j] == accepted_encodings();
        assert(out[j] == accepted_encodings());
    }
}

/// A request passed on as GET or HEAD carries no body.
pub proof fn get_and_head_carry_no_body(
    request: LocalRequest,
    parsed: Option<(Seq<char>, Option<Seq<char>>)>,
    host: Seq<char>,
    port: u16,
)
    requires
        request.method@ == "GET"@ || request.method@ == "HEAD"@,
    ensures
        plan_of(request, parsed, host, port) matches PlanModel::Forward(o) ==> o.body is None,
{
}

/// A request that the local server does not answer in full gets a gateway error, a timeout exactly
/// if the server took too long.
pub proof fn failures_are_gateway_errors(outcome: Outcome, port: u16)
    requires
        !(outcome matches Outcome::Answered { body, .. } && body is Ok),
    ensures
        response_of(outcome, port).status == (if outcome is TimedOut {
            504u16
        } else {
            502u16
        }),
{
}

} // verus!
