//! HTTP requests to the local server, and its answers.

use crate::laws::objects::lemma_utf8_joins;
use crate::outside::http_text::{is_header_value, is_token, is_token_char};
use crate::pages::{DOWN_PAGE_HEAD, DOWN_PAGE_MIDDLE, DOWN_PAGE_TAIL};
use crate::proxy::{
    all_passed_on, only_end_to_end_headers_pass, outgoing_headers, passed_on, plan_of,
    response_headers, response_of, LocalRequest, Outcome, OutgoingModel, PlanModel,
};
use crate::text::{decimal, lowercased, pair_texts};
use vstd::prelude::*;
use vstd::utf8::{encode_utf8, is_ascii_chars, is_ascii_chars_encode_utf8};

verus! {

// ---------------------------------------------------------------------------
// Requests
// ---------------------------------------------------------------------------
/// A request is passed on exactly if its URL can be read and its method is a token.
pub proof fn readable_requests_are_forwarded(
    request: LocalRequest,
    parsed: Option<(Seq<char>, Option<Seq<char>>)>,
    host: Seq<char>,
    port: u16,
)
    ensures
        plan_of(request, parsed, host, port) is Forward <==> parsed is Some && is_token(
            request.method@,
        ),
{
}

/// A request that is passed on keeps its method, and goes to the local server under its own path
/// and query.
pub proof fn method_path_and_query_are_kept(
    request: LocalRequest,
    path: Seq<char>,
    query: Seq<char>,
    host: Seq<char>,
    port: u16,
)
    requires
        is_token(request.method@),
    ensures
        plan_of(request, Some((path, None)), host, port) matches PlanModel::Forward(o)
            && o.method == request.method@ && o.url == "http://"@ + host + ":"@ + decimal(
            port as nat,
        ) + path,
        plan_of(request, Some((path, Some(query))), host, port) matches PlanModel::Forward(o)
            && o.method == request.method@ && o.url == "http://"@ + host + ":"@ + decimal(
            port as nat,
        ) + (path + "?"@ + query),
{
}

/// The body of a request that is passed on is the body that came, unless the method is GET or
/// HEAD; a request without a body is passed on without one.
pub proof fn bodies_are_passed_on(
    request: LocalRequest,
    parsed: Option<(Seq<char>, Option<Seq<char>>)>,
    host: Seq<char>,
    port: u16,
    outgoing: OutgoingModel,
)
    requires
        plan_of(request, parsed, host, port) == PlanModel::Forward(outgoing),
    ensures
        request.method@ != "GET"@ && request.method@ != "HEAD"@ ==> match request.body {
            Some(b) => outgoing.body == Some(b@),
            None => outgoing.body is None,
        },
        request.method@ == "GET"@ || request.method@ == "HEAD"@ ==> outgoing.body is None,
{
}

/// The URL of a request only matters for where it goes, its headers only for which headers go, and
/// its body only for which body goes: two requests that agree in one of these agree in what
/// becomes of it.
pub proof fn parts_of_a_request_do_not_mix(
    a: LocalRequest,
    b: LocalRequest,
    to_a: Option<(Seq<char>, Option<Seq<char>>)>,
    to_b: Option<(Seq<char>, Option<Seq<char>>)>,
    host: Seq<char>,
    port: u16,
    out_a: OutgoingModel,
    out_b: OutgoingModel,
)
    requires
        plan_of(a, to_a, host, port) == PlanModel::Forward(out_a),
        plan_of(b, to_b, host, port) == PlanModel::Forward(out_b),
    ensures
        to_a == to_b ==> out_a.url == out_b.url,
        pair_texts(a.headers.rows()) == pair_texts(b.headers.rows()) ==> out_a.headers
            == out_b.headers,
        a.method@ == b.method@ ==> out_a.method == out_b.method,
        a.method@ == b.method@ && a.body == b.body ==> out_a.body == out_b.body,
{
}

/// A request that makes no sense is answered with status 400 and a text that quotes it.
pub proof fn nonsense_is_quoted(
    request: LocalRequest,
    path: Seq<char>,
    query: Option<Seq<char>>,
    host: Seq<char>,
    port: u16,
)
    ensures
        plan_of(request, None, host, port) matches PlanModel::Answer(r) && r.status == 400 && r.body
            == encode_utf8("invalid request url: "@ + request.url@),
        !is_token(request.method@) ==> (plan_of(
            request,
            Some((path, query)),
            host,
            port,
        ) matches PlanModel::Answer(r) && r.status == 400 && r.body == encode_utf8(
            "unsupported method: "@ + request.method@,
        )),
{
}

// ---------------------------------------------------------------------------
// Request headers
// ---------------------------------------------------------------------------
/// Headers are passed on one by one and in order: what becomes of a list is what becomes of its
/// parts.
pub proof fn headers_are_passed_on_in_order(
    a: Seq<(Seq<char>, Seq<char>)>,
    b: Seq<(Seq<char>, Seq<char>)>,
)
    ensures
        all_passed_on(a + b) == all_passed_on(a) + all_passed_on(b),
        all_passed_on(Seq::empty()) == Seq::<(Seq<char>, Seq<char>)>::empty(),
    decreases b.len(),
{
    if b.len() == 0 {
        assert(a + b =~= a);
        assert(all_passed_on(a + b) =~= all_passed_on(a) + all_passed_on(b));
    } else {
        headers_are_passed_on_in_order(a, b.drop_last());
        assert((a + b).drop_last() =~= a + b.drop_last());
        assert((a + b).last() == b.last());
        assert(all_passed_on(a + b) =~= all_passed_on(a) + all_passed_on(b));
    }
}

/// One header is dropped if it belongs to the connection, is set by the client or authenticates;
/// one that asks for a compression asks for those that the relay can undo; any other is passed on
/// as it is.
pub proof fn one_header_passed_on(name: Seq<char>, value: Seq<char>)
    ensures
        ({
            let l = lowercased(name);
            let out = all_passed_on(seq![(name, value)]);
            if l == "host"@ || l == "content-length"@ || l == "connection"@ || l == "keep-alive"@
                || l == "transfer-encoding"@ || l == "upgrade"@ || l == "authorization"@ || l
                == "proxy-authorization"@ || l == "proxy-authenticate"@ || l == "te"@ || l
                == "trailer"@ {
                out == Seq::<(Seq<char>, Seq<char>)>::empty()
            } else if l == "accept-encoding"@ {
                out == seq![("accept-encoding"@, "gzip, deflate"@)]
            } else {
                out == seq![(name, value)]
            }
        }),
{
    let rows = seq![(name, value)];
    assert(rows.drop_last() =~= Seq::<(Seq<char>, Seq<char>)>::empty());
    assert(rows.last() == (name, value));
    assert(all_passed_on(rows.drop_last()) =~= Seq::<(Seq<char>, Seq<char>)>::empty());
    match passed_on(name, lowercased(name), value) {
        Some(h) => assert(all_passed_on(rows) =~= seq![h]),
        None => {},
    }
}

/// A browser that asks for a compression gets no second request for one; any other gets one at the
/// end.
pub proof fn compression_is_asked_for_once(rows: Seq<(Seq<char>, Seq<char>)>)
    ensures
        (exists|i: int|
            0 <= i < rows.len() && lowercased((#[trigger] rows[i]).0) == "accept-encoding"@)
            ==> outgoing_headers(rows) == all_passed_on(rows),
        (forall|i: int|
            0 <= i < rows.len() ==> lowercased((#[trigger] rows[i]).0) != "accept-encoding"@)
            ==> outgoing_headers(rows) == all_passed_on(rows).push(
            ("accept-encoding"@, "gzip, deflate"@),
        ),
{
}

/// Every header that is neither dropped nor asks for a compression arrives as it was sent.
pub proof fn end_to_end_headers_arrive(rows: Seq<(Seq<char>, Seq<char>)>, i: int)
    requires
        0 <= i < rows.len(),
        ({
            let l = lowercased(rows[i].0);
            l != "host"@ && l != "content-length"@ && l != "connection"@ && l != "keep-alive"@ && l
                != "transfer-encoding"@ && l != "upgrade"@ && l != "authorization"@ && l
                != "proxy-authorization"@ && l != "proxy-authenticate"@ && l != "te"@ && l
                != "trailer"@ && l != "accept-encoding"@
        }),
    ensures
        outgoing_headers(rows).contains(rows[i]),
{
    let (before, after) = (rows.take(i), rows.skip(i + 1));
    let one = seq![rows[i]];
    assert(rows =~= before + one + after);
    headers_are_passed_on_in_order(before, one);
    headers_are_passed_on_in_order(before + one, after);
    one_header_passed_on(rows[i].0, rows[i].1);
    assert(one =~= seq![(rows[i].0, rows[i].1)]);
    let all = all_passed_on(rows);
    let at = all_passed_on(before).len() as int;
    assert(all[at] == rows[i]);
    assert(outgoing_headers(rows)[at] == rows[i]);
}

/// The local server never sees the browser's credentials.
pub proof fn credentials_stay_behind(rows: Seq<(Seq<char>, Seq<char>)>, i: int)
    requires
        0 <= i < outgoing_headers(rows).len(),
    ensures
        ({
            let h = outgoing_headers(rows)[i];
            h == ("accept-encoding"@, "gzip, deflate"@) || (lowercased(h.0) != "authorization"@
                && lowercased(h.0) != "proxy-authorization"@ && lowercased(h.0) != "host"@
                && rows.contains(h))
        }),
{
    only_end_to_end_headers_pass(rows);
}

// ---------------------------------------------------------------------------
// Answers
// ---------------------------------------------------------------------------
/// Whatever the status of the local server's answer, the browser gets that status and the body as
/// it was read.
pub proof fn answers_are_passed_back(
    status: u16,
    headers: Vec<(String, Option<String>)>,
    body: Vec<u8>,
    port: u16,
)
    ensures
        ({
            let r = response_of(
                Outcome::Answered { status, headers, body: Ok(body) },
                port,
            );
            r.status == status && r.body == body@
        }),
{
}

proof fn lemma_header_values(headers: Seq<(String, Option<String>)>, name: Seq<char>)
    ensures
        response_headers(headers).contains_key(name) <==> exists|i: int|
            0 <= i < headers.len() && (#[trigger] headers[i]).0@ == name,
    decreases headers.len(),
{
    if headers.len() > 0 {
        let init = headers.drop_last();
        lemma_header_values(init, name);
        if headers.last().0@ == name {
            assert(headers[headers.len() - 1].0@ == name);
        } else {
            if exists|i: int| 0 <= i < init.len() && (#[trigger] init[i]).0@ == name {
                let i = choose|i: int| 0 <= i < init.len() && (#[trigger] init[i]).0@ == name;
                assert(headers[i].0@ == name);
            }
            if exists|i: int| 0 <= i < headers.len() && (#[trigger] headers[i]).0@ == name {
                let i = choose|i: int| 0 <= i < headers.len() && (#[trigger] headers[i]).0@ == name;
                assert(init[i].0@ == name);
            }
        }
    }
}

proof fn lemma_last_value(headers: Seq<(String, Option<String>)>, i: int)
    requires
        0 <= i < headers.len(),
        forall|j: int| i < j < headers.len() ==> (#[trigger] headers[j]).0@ != headers[i].0@,
    ensures
        response_headers(headers).contains_key(headers[i].0@),
        response_headers(headers)[headers[i].0@] == (match headers[i].1 {
            Some(v) => v@,
            None => Seq::<char>::empty(),
        }),
    decreases headers.len(),
{
    if i < headers.len() - 1 {
        let init = headers.drop_last();
        assert(headers[headers.len() - 1].0@ != headers[i].0@);
        assert forall|j: int| i < j < init.len() implies (#[trigger] init[j]).0@ != init[i].0@ by {
            assert(headers[j].0@ != headers[i].0@);
        }
        lemma_last_value(init, i);
    }
}

/// The browser gets the headers of the local server's answer and no others; of a name that comes
/// several times the last value, and nothing as the value of a header that is no visible text.
pub proof fn answer_headers_are_passed_back(
    status: u16,
    headers: Vec<(String, Option<String>)>,
    body: Vec<u8>,
    port: u16,
    name: Seq<char>,
    i: int,
)
    ensures
        ({
            let r = response_of(
                Outcome::Answered { status, headers, body: Ok(body) },
                port,
            );
            &&& r.headers.contains_key(name) <==> exists|k: int|
                0 <= k < headers@.len() && (#[trigger] headers@[k]).0@ == name
            &&& 0 <= i < headers@.len() && headers@[i].0@ == name && (forall|j: int|
                i < j < headers@.len() ==> (#[trigger] headers@[j]).0@ != name) ==> r.headers[name]
                == (match headers@[i].1 {
                Some(v) => v@,
                None => Seq::<char>::empty(),
            })
        }),
{
    lemma_header_values(headers@, name);
    if 0 <= i < headers@.len() && headers@[i].0@ == name && (forall|j: int|
        i < j < headers@.len() ==> (#[trigger] headers@[j]).0@ != name) {
        lemma_last_value(headers@, i);
    }
}

/// A synthetic answer other than the page says that it is plain text, and has no other header.
pub proof fn texts_are_plain(
    request: LocalRequest,
    parsed: Option<(Seq<char>, Option<Seq<char>>)>,
    host: Seq<char>,
    port: u16,
    outcome: Outcome,
    name: Seq<char>,
)
    ensures
        plan_of(request, parsed, host, port) matches PlanModel::Answer(r) ==> (
        r.headers.contains_key(name) <==> name == "content-type"@) && r.headers["content-type"@]
            == "text/plain; charset=utf-8"@,
        outcome is TimedOut || outcome is Failed || (outcome matches Outcome::Answered {
            body,
            ..
        } && body is Err) ==> (response_of(outcome, port).headers.contains_key(name) <==> name
            == "content-type"@) && response_of(outcome, port).headers["content-type"@]
            == "text/plain; charset=utf-8"@,
{
}

/// A request without an answer gets a text that tells why, and one to a port where nothing listens
/// a page that must not be kept.
pub proof fn failures_tell_why(
    status: u16,
    headers: Vec<(String, Option<String>)>,
    error: String,
    port: u16,
)
    ensures
        ({
            let r = response_of(Outcome::Answered { status, headers, body: Err(error) }, port);
            r.status == 502 && r.body == encode_utf8("failed to read response body: "@ + error@)
        }),
        ({
            let r = response_of(Outcome::TimedOut, port);
            r.status == 504 && r.body == encode_utf8(
                "Local server timeout on port "@ + decimal(port as nat),
            )
        }),
        ({
            let r = response_of(Outcome::Failed(error), port);
            r.status == 502 && r.body == encode_utf8("proxy error: "@ + error@)
        }),
        ({
            let r = response_of(Outcome::Refused, port);
            r.status == 502 && r.headers.contains_key("content-type"@) && r.headers["content-type"@]
                == "text/html; charset=utf-8"@ && r.headers.contains_key("cache-control"@)
                && r.headers["cache-control"@] == "no-store"@ && r.body == encode_utf8(
                DOWN_PAGE_HEAD@ + decimal(port as nat) + DOWN_PAGE_MIDDLE@ + decimal(port as nat)
                    + DOWN_PAGE_TAIL@,
            )
        }),
{
    reveal_strlit("content-type");
    reveal_strlit("cache-control");
    assert("content-type"@.len() != "cache-control"@.len());
}

// ---------------------------------------------------------------------------
// Methods and headers
// ---------------------------------------------------------------------------
/// Letters, digits and hyphens make methods and header names; nothing and anything with a space, a
/// colon or a control character makes none.
pub proof fn what_a_token_is(s: Seq<char>, i: int)
    ensures
        s.len() > 0 && (forall|k: int|
            0 <= k < s.len() ==> ('a' <= #[trigger] s[k] && s[k] <= 'z') || ('A' <= s[k] && s[k]
                <= 'Z') || ('0' <= s[k] && s[k] <= '9') || s[k] == '-') ==> is_token(s),
        s.len() == 0 ==> !is_token(s),
        0 <= i < s.len() && (32 >= s[i] as u32 || s[i] == ':' || s[i] as u32 >= 127) ==> !is_token(
            s,
        ),
{
    if 0 <= i < s.len() && is_token(s) {
        assert(is_token_char(s[i]));
    }
}

/// A text of visible ASCII characters and spaces can be the value of a header; one with a line end
/// in it cannot.
pub proof fn what_a_header_value_is(a: Seq<char>, b: Seq<char>)
    ensures
        (forall|k: int| 0 <= k < a.len() ==> ' ' <= #[trigger] a[k] && a[k] <= '~')
            ==> is_header_value(a),
        !is_header_value(a + seq!['\n'] + b),
        !is_header_value(a + seq!['\r'] + b),
{
    if forall|k: int| 0 <= k < a.len() ==> ' ' <= #[trigger] a[k] && a[k] <= '~' {
        assert(is_ascii_chars(a));
        is_ascii_chars_encode_utf8(a);
        assert forall|k: int| 0 <= k < encode_utf8(a).len() implies ({
            let x = #[trigger] encode_utf8(a)[k];
            (x >= 32 && x != 127) || x == 9
        }) by {
            assert(a[k] as u8 == encode_utf8(a)[k]);
        }
    }
    lemma_no_line_end(a, '\n', b);
    lemma_no_line_end(a, '\r', b);
}

proof fn lemma_no_line_end(a: Seq<char>, c: char, b: Seq<char>)
    requires
        c == '\n' || c == '\r',
    ensures
        !is_header_value(a + seq![c] + b),
{
    let end = seq![c];
    assert(is_ascii_chars(end));
    is_ascii_chars_encode_utf8(end);
    assert(end[0] as u8 == encode_utf8(end)[0]);
    lemma_utf8_joins(a, end);
    lemma_utf8_joins(a + end, b);
    let at = encode_utf8(a).len() as int;
    assert(encode_utf8(a + end + b)[at] == encode_utf8(end)[0]);
}

} // verus!
