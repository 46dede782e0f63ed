use dodev::proxy::{
    error_response, finish_request, forward_header, forward_headers, local_server_down_response,
    plan_parsed, plan_request, request_failed, LocalRequest, LocalResponse, Outcome, Outgoing,
    Plan,
};
use dodev::table::Table;

fn table(rows: &[(&str, &str)]) -> Table<String> {
    let mut t = Table::new();
    for (k, v) in rows {
        t.insert(k.to_string(), v.to_string());
    }
    t
}

fn request(method: &str, url: &str, headers: &[(&str, &str)], body: Option<&[u8]>) -> LocalRequest {
    LocalRequest {
        method: method.to_string(),
        url: url.to_string(),
        headers: table(headers),
        body: body.map(|b| b.to_vec()),
    }
}

fn forwarded(plan: Plan) -> Outgoing {
    match plan {
        Plan::Forward(o) => o,
        Plan::Answer(r) => panic!("answered {}", r.status),
    }
}

fn answered(plan: Plan) -> LocalResponse {
    match plan {
        Plan::Forward(o) => panic!("forwarded to {}", o.url),
        Plan::Answer(r) => r,
    }
}

fn pairs(rows: &[(&str, &str)]) -> Vec<(String, String)> {
    rows.iter().map(|(k, v)| (k.to_string(), v.to_string())).collect()
}

#[test]
fn origin_is_replaced_and_query_kept() {
    let plan = plan_request(
        request("POST", "https://lab.local.dev:8443/a%20b/../c?x=1&y=%C3%A9#frag", &[], Some(b"hi")),
        "localhost",
        3000,
    );
    let out = forwarded(plan);
    assert_eq!(out.method, "POST");
    assert_eq!(out.url, "http://localhost:3000/c?x=1&y=%C3%A9");
    assert_eq!(out.body, Some(b"hi".to_vec()));
    assert_eq!(out.headers, pairs(&[("accept-encoding", "gzip, deflate")]));
}

#[test]
fn url_without_query() {
    let out = forwarded(plan_request(request("GET", "https://x.local.dev", &[], None), "127.0.0.1", 80));
    assert_eq!(out.url, "http://127.0.0.1:80/");
    let out = forwarded(plan_request(request("GET", "https://x.local.dev/p?", &[], None), "h", 1));
    assert_eq!(out.url, "http://h:1/p?");
}

#[test]
fn plan_from_parsed_parts() {
    let out = forwarded(plan_parsed(
        request("PUT", "ignored", &[], Some(b"b")),
        Some(("/p".to_string(), Some("q".to_string()))),
        "h",
        9,
    ));
    assert_eq!(out.url, "http://h:9/p?q");
    let out = answered(plan_parsed(request("PUT", "odd url", &[], None), None, "h", 9));
    assert_eq!(out.status, 400);
    assert_eq!(out.body, b"invalid request url: odd url".to_vec());
}

#[test]
fn nonsense_is_answered_at_once() {
    let bad_url = answered(plan_request(request("GET", "/relative", &[], None), "h", 1));
    assert_eq!(bad_url.status, 400);
    assert_eq!(bad_url.body, b"invalid request url: /relative".to_vec());
    assert_eq!(bad_url.headers.get("content-type").unwrap(), "text/plain; charset=utf-8");
    let bad_method = answered(plan_request(request("GE T", "http://x/", &[], None), "h", 1));
    assert_eq!(bad_method.status, 400);
    assert_eq!(bad_method.body, b"unsupported method: GE T".to_vec());
    let empty_method = answered(plan_request(request("", "http://x/", &[], None), "h", 1));
    assert_eq!(empty_method.body, b"unsupported method: ".to_vec());
}

#[test]
fn methods_are_tokens() {
    for n in 0u8..128 {
        let c = n as char;
        let method = format!("X{}", c);
        let token = c.is_ascii_alphanumeric() || "!#$%&'*+-.^_`|~".contains(c);
        let plan = plan_request(request(&method, "http://x/", &[], None), "h", 1);
        match plan {
            Plan::Forward(o) => {
                assert!(token, "{:?}", c);
                assert_eq!(o.method, method);
            }
            Plan::Answer(_) => assert!(!token, "{:?}", c),
        }
    }
    assert!(matches!(plan_request(request("é", "http://x/", &[], None), "h", 1), Plan::Answer(_)));
}

#[test]
fn get_and_head_have_no_body() {
    for (method, kept) in [("GET", false), ("HEAD", false), ("POST", true), ("get", true), ("DELETE", true)] {
        let out = forwarded(plan_request(request(method, "http://x/", &[], Some(b"b")), "h", 1));
        assert_eq!(out.body.is_some(), kept, "{}", method);
    }
}

#[test]
fn hop_by_hop_headers_are_dropped() {
    let headers = table(&[
        ("Host", "lab.local.dev"),
        ("Content-Length", "3"),
        ("CONNECTION", "close"),
        ("keep-alive", "1"),
        ("Transfer-Encoding", "chunked"),
        ("Upgrade", "h2c"),
        ("Proxy-Authorization", "x"),
        ("proxy-authenticate", "x"),
        ("TE", "x"),
        ("Trailer", "x"),
        ("Authorization", "Bearer app"),
        ("Accept-Encoding", "br, gzip"),
        ("X-Real", "1"),
    ]);
    assert_eq!(
        forward_headers(&headers),
        pairs(&[
            ("accept-encoding", "gzip, deflate"),
            ("X-Real", "1"),
        ])
    );
}

#[test]
fn authorization_is_not_forwarded() {
    let out = forwarded(plan_request(
        request("GET", "https://lab.local.dev/", &[("Authorization", "Bearer x")], None),
        "localhost",
        3000,
    ));
    assert_eq!(out.url, "http://localhost:3000/");
    assert_eq!(out.headers, pairs(&[("accept-encoding", "gzip, deflate")]));
    for name in ["authorization", "AUTHORIZATION", "aUthorization"] {
        assert_eq!(forward_headers(&table(&[(name, "Basic x")])).len(), 1);
    }
    assert_eq!(forward_header("Authorization", "authorization", "x"), None);
}

#[test]
fn compression_is_asked_for_exactly_once() {
    assert_eq!(
        forward_headers(&table(&[("a", "1")])),
        pairs(&[("a", "1"), ("accept-encoding", "gzip, deflate")])
    );
    assert_eq!(
        forward_headers(&table(&[("ACCEPT-ENCODING", "identity"), ("a", "1")])),
        pairs(&[("accept-encoding", "gzip, deflate"), ("a", "1")])
    );
    // The Kelvin sign has a small letter in ASCII.
    assert_eq!(forward_headers(&table(&[("\u{212a}eep-alive", "1")])).len(), 1);
    assert_eq!(forward_header("Te", "te", "x"), None);
    assert_eq!(
        forward_header("Te", "ts", "x"),
        Some(("Te".to_string(), "x".to_string()))
    );
}

#[test]
fn answers_are_passed_back() {
    let r = finish_request(
        Outcome::Answered {
            status: 201,
            headers: vec![
                ("set-cookie".to_string(), Some("a=1".to_string())),
                ("x-odd".to_string(), None),
                ("set-cookie".to_string(), Some("b=2".to_string())),
            ],
            body: Ok(vec![1, 2]),
        },
        3000,
    );
    assert_eq!(r.status, 201);
    assert_eq!(r.headers.len(), 2);
    assert_eq!(r.headers.get("set-cookie").unwrap(), "b=2");
    assert_eq!(r.headers.get("x-odd").unwrap(), "");
    assert_eq!(r.body, vec![1, 2]);
}

#[test]
fn failures_become_gateway_errors() {
    let unread = finish_request(
        Outcome::Answered { status: 200, headers: vec![], body: Err("cut".to_string()) },
        1,
    );
    assert_eq!((unread.status, unread.body), (502, b"failed to read response body: cut".to_vec()));
    let slow = finish_request(request_failed(false, true, "e".to_string()), 8080);
    assert_eq!((slow.status, slow.body), (504, b"Local server timeout on port 8080".to_vec()));
    let odd = finish_request(request_failed(false, false, "e".to_string()), 8080);
    assert_eq!((odd.status, odd.body), (502, b"proxy error: e".to_vec()));
    assert!(matches!(request_failed(true, true, "e".to_string()), Outcome::Refused));
}

#[test]
fn down_page_names_the_port() {
    let down = finish_request(Outcome::Refused, 5173);
    let same = local_server_down_response(5173);
    assert_eq!(down.body, same.body);
    assert_eq!(down.status, 502);
    assert_eq!(down.headers.get("content-type").unwrap(), "text/html; charset=utf-8");
    assert_eq!(down.headers.get("cache-control").unwrap(), "no-store");
    let page = String::from_utf8(down.body).unwrap();
    assert!(page.starts_with("<!doctype html>\n<html lang=\"en\">\n"));
    assert!(page.ends_with("</body>\n</html>\n"));
    assert!(page.contains("<title>local.dev — local server is down</title>"));
    assert!(page.contains("  :root { color-scheme: light dark; }\n"));
    assert!(page.contains("  <code>localhost:5173</code>. Start your dev server, then refresh\n"));
    assert!(page.contains("    <li>Make sure it's bound to port <code>5173</code></li>\n"));
    assert_eq!(page.matches("5173").count(), 2);
    assert!(!page.contains("{port}") && !page.contains("{{"));
}

#[test]
fn error_responses_are_plain_text() {
    let r = error_response(418, "é");
    assert_eq!(r.status, 418);
    assert_eq!(r.headers.len(), 1);
    assert_eq!(r.headers.get("content-type").unwrap(), "text/plain; charset=utf-8");
    assert_eq!(r.body, "é".as_bytes().to_vec());
}
