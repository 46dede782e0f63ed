use dodev::display::reconnecting;
use dodev::outside::base64_text::fits_as_base64;
use dodev::proxy::LocalResponse;
use dodev::reconnect::{retry_delay_ms, Banner, Next, Reconnect, MAX_RECONNECT_ATTEMPTS};
use dodev::table::Table;
use dodev::tunnel::{
    check_upgrade_status, classify_connect_error, classify_status, local_request, log_path,
    log_path_parsed, on_server_event, response_envelope, setup_error, upgrade_headers, Envelope,
    ServerEvent, SetupStep, Step, TunnelError, WsLocalEvent,
};
use serde_json::Value;

fn s(text: &str) -> String {
    text.to_string()
}

fn json(envelope: &Envelope) -> Value {
    serde_json::from_slice(&envelope.to_json().unwrap()).unwrap()
}

fn text(envelope: &Envelope) -> String {
    String::from_utf8(envelope.to_json().unwrap()).unwrap()
}

#[test]
fn errors_have_messages() {
    assert_eq!(TunnelError::AuthFailed(s("x")).message(), "Authentication failed: x");
    assert_eq!(TunnelError::QuotaExceeded(s("x")).message(), "Quota exceeded: x");
    assert_eq!(TunnelError::WebSocket(s("x")).message(), "WebSocket error: x");
    assert_eq!(
        TunnelError::MaxReconnectsExceeded(20).message(),
        "Maximum reconnection attempts (20) exceeded"
    );
    assert_eq!(setup_error(SetupStep::Client, "e").message(), "WebSocket error: client init: e");
    assert_eq!(setup_error(SetupStep::Url, "e").message(), "WebSocket error: invalid ws url: e");
}

#[test]
fn token_travels_in_a_header() {
    let headers = upgrade_headers("tok-1", "0.1.1").unwrap();
    assert_eq!(
        headers,
        vec![
            (s("Authorization"), s("Bearer tok-1")),
            (s("x-dodev-supports-ws-proxy"), s("1")),
            (s("x-dodev-cli-version"), s("0.1.1")),
        ]
    );
    assert!(upgrade_headers("t\tok é", "1").is_ok());
    for bad in ["a\nb", "a\u{7f}", "\u{0}"] {
        match upgrade_headers(bad, "1") {
            Err(TunnelError::AuthFailed(e)) => {
                assert_eq!(e, "invalid token: failed to parse header value")
            }
            other => panic!("{:?}", other),
        }
    }
}

#[test]
fn upgrade_must_switch_protocols() {
    assert!(check_upgrade_status(101).is_ok());
    match check_upgrade_status(200) {
        Err(TunnelError::WebSocket(e)) => assert_eq!(e, "unexpected upgrade status 200 OK"),
        other => panic!("{:?}", other),
    }
    match check_upgrade_status(599) {
        Err(TunnelError::WebSocket(e)) => {
            assert_eq!(e, "unexpected upgrade status 599 <unknown status code>")
        }
        other => panic!("{:?}", other),
    }
}

fn quota(body: Option<&str>) -> String {
    match classify_connect_error(Some(429), body.map(|b| b.as_bytes()), s("http error")) {
        TunnelError::QuotaExceeded(m) => m,
        other => panic!("{:?}", other),
    }
}

#[test]
fn refusals_are_classified() {
    let advice = ". Stop another tunnel with Ctrl+C, or upgrade at https://local.dev/pricing";
    match classify_connect_error(Some(401), Some(b" bad token \n"), s("http")) {
        TunnelError::AuthFailed(m) => assert_eq!(m, "bad token"),
        other => panic!("{:?}", other),
    }
    match classify_connect_error(Some(401), None, s("http")) {
        TunnelError::AuthFailed(m) => assert_eq!(m, "unauthorized"),
        other => panic!("{:?}", other),
    }
    match classify_connect_error(Some(403), Some(b"not yours"), s("HTTP error: 403")) {
        TunnelError::WebSocket(m) => assert_eq!(m, "HTTP error: 403"),
        other => panic!("{:?}", other),
    }
    match classify_connect_error(Some(403), None, s("HTTP error: 403")) {
        TunnelError::WebSocket(m) => assert_eq!(m, "HTTP error: 403"),
        other => panic!("{:?}", other),
    }
    assert_eq!(quota(Some("quota exceeded: 3 of 3 tunnels ")), format!("3 of 3 tunnels{}", advice));
    assert_eq!(quota(Some("too many")), format!("too many{}", advice));
    assert_eq!(quota(Some(" quota exceeded:  ")), format!("limit reached{}", advice));
    assert_eq!(quota(Some("")), format!("limit reached{}", advice));
    assert_eq!(quota(None), format!("quota exceeded{}", advice));
    match classify_connect_error(Some(500), Some(b"x"), s("HTTP error: 500")) {
        TunnelError::WebSocket(m) => assert_eq!(m, "HTTP error: 500"),
        other => panic!("{:?}", other),
    }
    match classify_status(None, None, s("refused")) {
        TunnelError::WebSocket(m) => assert_eq!(m, "refused"),
        other => panic!("{:?}", other),
    }
}

#[test]
fn odd_bytes_of_the_relay_are_replaced() {
    match classify_connect_error(Some(401), Some(&[0x61, 0xff, 0x62]), s("http")) {
        TunnelError::AuthFailed(m) => assert_eq!(m, "a\u{fffd}b"),
        other => panic!("{:?}", other),
    }
}

// ---------------------------------------------------------------------------
// Reconnecting
// ---------------------------------------------------------------------------
fn lost() -> Result<(), TunnelError> {
    Err(TunnelError::WebSocket(s("lost")))
}

#[test]
fn refusals_are_not_tried_again() {
    let mut r = Reconnect::new();
    assert!(matches!(
        r.ended(Err(TunnelError::AuthFailed(s("no")))),
        Next::Fail(TunnelError::AuthFailed(m)) if m == "no"
    ));
    assert!(matches!(
        r.ended(Err(TunnelError::QuotaExceeded(s("q")))),
        Next::Fail(TunnelError::QuotaExceeded(m)) if m == "q"
    ));
    assert!(matches!(r.ended(Ok(())), Next::Finished));
    assert_eq!(r.attempts(), 0);
    let forbidden = classify_connect_error(Some(403), None, s("http"));
    assert!(matches!(r.ended(Err(forbidden)), Next::Retry { attempt: 1, .. }));
}

#[test]
fn gives_up_after_twenty_tries() {
    let mut r = Reconnect::new();
    for n in 1..=MAX_RECONNECT_ATTEMPTS {
        match r.ended(lost()) {
            Next::Retry { attempt, noisy, reason } => {
                assert_eq!(attempt, n);
                assert_eq!(noisy, n > 3);
                assert_eq!(reason.message(), "WebSocket error: lost");
            }
            other => panic!("{:?}", other),
        }
        assert_eq!(r.attempts(), n);
    }
    assert!(matches!(
        r.ended(lost()),
        Next::GaveUp(TunnelError::MaxReconnectsExceeded(20))
    ));
}

#[test]
fn success_starts_the_count_afresh() {
    let mut r = Reconnect::new();
    assert_eq!(r.connected(), Banner::Full);
    for failures in 1..=5 {
        for _ in 0..failures {
            r.ended(lost());
        }
        let expected = if failures < 3 { Banner::Quiet } else { Banner::Full };
        assert_eq!(r.connected(), expected);
        assert_eq!(r.attempts(), 0);
    }
}

#[test]
fn full_banner_comes_back_if_the_user_was_told() {
    for failures in 1..=MAX_RECONNECT_ATTEMPTS {
        let mut r = Reconnect::new();
        for _ in 0..failures {
            r.ended(lost());
        }
        let told = reconnecting(failures, MAX_RECONNECT_ATTEMPTS).is_some();
        assert_eq!(r.connected() == Banner::Full, told);
    }
}

#[test]
fn waits_double_up_to_half_a_minute() {
    let secs: Vec<u64> = (1..=20).map(|n| retry_delay_ms(n, 0) / 1000).collect();
    assert_eq!(secs[..7], [1, 2, 4, 8, 16, 30, 30]);
    assert!(secs[7..].iter().all(|&s| s == 30));
    assert_eq!(retry_delay_ms(3, 999), 4999);
    for n in 1u32..=20 {
        assert_eq!(retry_delay_ms(n, 7), std::cmp::min(1u64 << (n - 1), 30) * 1000 + 7);
    }
}

// ---------------------------------------------------------------------------
// Events
// ---------------------------------------------------------------------------
fn sessions(rows: &[(&str, u32)]) -> Table<u32> {
    let mut t = Table::new();
    for (id, v) in rows {
        t.insert(s(id), *v);
    }
    t
}

fn envelope(e: Envelope) -> ServerEvent {
    ServerEvent::Text(Ok(e))
}

#[test]
fn heartbeats_are_acknowledged() {
    let step = on_server_event(envelope(Envelope::Heartbeat { ts: 77 }), &mut sessions(&[]));
    assert!(matches!(step, Step::Reply(Envelope::HeartbeatAck { ts: 77 })));
}

#[test]
fn silence_is_death() {
    match on_server_event(ServerEvent::Silence, &mut sessions(&[])) {
        Step::Stop { drain: false, result: Err(TunnelError::WebSocket(m)) } => {
            assert_eq!(m, "no server heartbeat in 70s")
        }
        other => panic!("{:?}", other),
    }
}

#[test]
fn ends_of_a_connection() {
    let mut none = sessions(&[]);
    assert!(matches!(
        on_server_event(ServerEvent::Close, &mut none),
        Step::Stop { drain: true, result: Ok(()) }
    ));
    assert!(matches!(
        on_server_event(ServerEvent::Ended, &mut none),
        Step::Stop { drain: true, result: Err(TunnelError::WebSocket(m)) }
            if m == "connection closed unexpectedly"
    ));
    assert!(matches!(
        on_server_event(ServerEvent::Failed(s("reset")), &mut none),
        Step::Stop { drain: false, result: Err(TunnelError::WebSocket(m)) } if m == "reset"
    ));
}

#[test]
fn frames_without_envelopes() {
    let mut none = sessions(&[]);
    assert!(matches!(
        on_server_event(ServerEvent::Ping(vec![1, 2]), &mut none),
        Step::Pong(p) if p == vec![1, 2]
    ));
    assert!(matches!(on_server_event(ServerEvent::Other, &mut none), Step::Ignore));
    assert!(matches!(
        on_server_event(ServerEvent::Text(Err(s("eof"))), &mut none),
        Step::Malformed(m) if m == "eof"
    ));
}

#[test]
fn envelopes_for_the_relay_are_ignored() {
    let mut open = sessions(&[("w", 1)]);
    for e in [
        Envelope::Response { id: s("w"), status: 200, headers: Table::new(), body: None },
        Envelope::HeartbeatAck { ts: 1 },
        Envelope::WsOpenAck { id: s("w"), ok: true, error: None },
    ] {
        assert!(matches!(on_server_event(envelope(e), &mut open), Step::Ignore));
    }
    assert_eq!(open.len(), 1);
}

#[test]
fn requests_and_openings_are_handed_on() {
    let mut none = sessions(&[]);
    let mut headers = Table::new();
    headers.insert(s("h"), s("v"));
    match on_server_event(
        envelope(Envelope::Request {
            id: s("1"),
            method: s("GET"),
            url: s("http://x/"),
            headers,
            body: Some(s("aGk=")),
        }),
        &mut none,
    ) {
        Step::Request { id, method, url, headers, body } => {
            assert_eq!((id, method, url, body), (s("1"), s("GET"), s("http://x/"), Some(s("aGk="))));
            assert_eq!(headers.get("h").unwrap(), "v");
        }
        other => panic!("{:?}", other),
    }
    match on_server_event(
        envelope(Envelope::WsOpen {
            id: s("2"),
            url: s("/ws"),
            headers: Table::new(),
            protocols: vec![s("p")],
        }),
        &mut none,
    ) {
        Step::Open { id, url, protocols, .. } => {
            assert_eq!((id, url, protocols), (s("2"), s("/ws"), vec![s("p")]))
        }
        other => panic!("{:?}", other),
    }
}

#[test]
fn messages_reach_open_sockets_only() {
    let mut open = sessions(&[("a", 1), ("b", 2)]);
    let msg = |id: &str| envelope(Envelope::WsMsg { id: s(id), kind: s("text"), data: s("d") });
    match on_server_event(msg("b"), &mut open) {
        Step::Deliver { session: 2, event: WsLocalEvent::Msg { kind, data } } => {
            assert_eq!((kind, data), (s("text"), s("d")))
        }
        other => panic!("{:?}", other),
    }
    assert!(matches!(on_server_event(msg("c"), &mut open), Step::Ignore));
    assert_eq!(open.len(), 2);
    match on_server_event(
        envelope(Envelope::WsClose { id: s("b"), code: Some(1001), reason: Some(s("bye")) }),
        &mut open,
    ) {
        Step::Deliver { session: 2, event: WsLocalEvent::Close { code, reason } } => {
            assert_eq!((code, reason), (Some(1001), Some(s("bye"))))
        }
        other => panic!("{:?}", other),
    }
    assert!(matches!(on_server_event(ServerEvent::Other, &mut open), Step::Ignore));
    assert!(matches!(on_server_event(msg("b"), &mut open), Step::Ignore));
    assert!(matches!(on_server_event(msg("a"), &mut open), Step::Deliver { session: 1, .. }));
    assert!(matches!(
        on_server_event(envelope(Envelope::WsClose { id: s("b"), code: None, reason: None }), &mut open),
        Step::Ignore
    ));
}

// ---------------------------------------------------------------------------
// Requests
// ---------------------------------------------------------------------------
#[test]
fn request_bodies_are_decoded() {
    let body = |b: Option<&str>| {
        local_request(s("POST"), s("http://x/"), Table::new(), b.map(s)).body
    };
    assert_eq!(body(Some("aGVsbG8=")), Some(b"hello".to_vec()));
    assert_eq!(body(Some("")), Some(vec![]));
    assert_eq!(body(Some("aGVsbG8")), None); // no padding
    assert_eq!(body(Some("aGVsbG9=")), None); // trailing bits
    assert_eq!(body(Some("a*==")), None);
    assert_eq!(body(Some("aGVs bG8=")), None);
    assert_eq!(body(None), None);
    let r = local_request(s("M"), s("u"), Table::new(), None);
    assert_eq!((r.method, r.url, r.headers.len()), (s("M"), s("u"), 0));
}

#[test]
fn response_bodies_read_back() {
    for body in [vec![], vec![0u8], vec![1, 2], vec![255; 3], (0..=255).collect::<Vec<u8>>()] {
        let mut headers = Table::new();
        headers.insert(s("k"), s("v"));
        let response = LocalResponse { status: 203, headers, body: body.clone() };
        match response_envelope(s("id-1"), response) {
            Envelope::Response { id, status, headers, body: text } => {
                assert_eq!((id, status), (s("id-1"), 203));
                assert_eq!(headers.get("k").unwrap(), "v");
                assert_eq!(text.is_none(), body.is_empty());
                if let Some(t) = text {
                    let back = local_request(s("POST"), s("u"), Table::new(), Some(t));
                    assert_eq!(back.body, Some(body));
                }
            }
            other => panic!("{:?}", other),
        }
    }
}

#[test]
fn response_body_is_base64() {
    let response = LocalResponse { status: 200, headers: Table::new(), body: b"hello".to_vec() };
    match response_envelope(s("1"), response) {
        Envelope::Response { body, .. } => assert_eq!(body, Some(s("aGVsbG8="))),
        other => panic!("{:?}", other),
    }
}

#[test]
fn base64_has_to_fit_into_memory() {
    assert!(fits_as_base64(0) && fits_as_base64(1) && fits_as_base64(1 << 20));
    let most = isize::MAX as usize / 4 * 3;
    assert!(fits_as_base64(most) && !fits_as_base64(most + 1) && !fits_as_base64(usize::MAX));
}

#[test]
fn log_shows_the_path() {
    assert_eq!(log_path("https://lab.local.dev/a/b?x=1"), "/a/b");
    assert_eq!(log_path("not a url"), "not a url");
    assert_eq!(log_path_parsed("u", Some(s("/p"))), "/p");
    assert_eq!(log_path_parsed("u", None), "u");
}

// ---------------------------------------------------------------------------
// The JSON of the envelopes
// ---------------------------------------------------------------------------
#[test]
fn response_envelope_in_json() {
    let mut headers = Table::new();
    headers.insert(s("a"), s("1"));
    headers.insert(s("b\""), s("é\n"));
    let e = Envelope::Response { id: s("i"), status: 200, headers, body: None };
    assert_eq!(
        text(&e),
        "{\"type\":\"response\",\"id\":\"i\",\"status\":200,\"headers\":{\"a\":\"1\",\"b\\\"\":\"é\\n\"},\"body\":null}"
    );
    let e = Envelope::Response { id: s("i"), status: 200, headers: Table::new(), body: Some(s("aGk=")) };
    assert_eq!(
        text(&e),
        "{\"type\":\"response\",\"id\":\"i\",\"status\":200,\"headers\":{},\"body\":\"aGk=\"}"
    );
}

#[test]
fn small_envelopes_in_json() {
    assert_eq!(
        text(&Envelope::HeartbeatAck { ts: u64::MAX }),
        "{\"type\":\"heartbeat-ack\",\"ts\":18446744073709551615}"
    );
    assert_eq!(text(&Envelope::Heartbeat { ts: 0 }), "{\"type\":\"heartbeat\",\"ts\":0}");
    assert_eq!(
        text(&Envelope::WsOpenAck { id: s("w"), ok: true, error: None }),
        "{\"type\":\"ws-open-ack\",\"id\":\"w\",\"ok\":true,\"error\":null}"
    );
    assert_eq!(
        text(&Envelope::WsOpenAck { id: s("w"), ok: false, error: Some(s("e")) }),
        "{\"type\":\"ws-open-ack\",\"id\":\"w\",\"ok\":false,\"error\":\"e\"}"
    );
    assert_eq!(
        text(&Envelope::WsMsg { id: s("w"), kind: s("text"), data: s("hi") }),
        "{\"type\":\"ws-msg\",\"id\":\"w\",\"kind\":\"text\",\"data\":\"hi\"}"
    );
    assert_eq!(
        text(&Envelope::WsClose { id: s("w"), code: Some(1000), reason: Some(s("")) }),
        "{\"type\":\"ws-close\",\"id\":\"w\",\"code\":1000,\"reason\":\"\"}"
    );
    assert_eq!(
        text(&Envelope::WsClose { id: s("w"), code: None, reason: None }),
        "{\"type\":\"ws-close\",\"id\":\"w\",\"code\":null,\"reason\":null}"
    );
}

#[test]
fn inbound_envelopes_in_json() {
    let mut headers = Table::new();
    headers.insert(s("h"), s("v"));
    let v = json(&Envelope::Request {
        id: s("1"),
        method: s("GET"),
        url: s("http://x/"),
        headers,
        body: None,
    });
    assert_eq!(v["type"], "request");
    assert_eq!(v["method"], "GET");
    assert_eq!(v["url"], "http://x/");
    assert_eq!(v["headers"]["h"], "v");
    assert!(v["body"].is_null());
    let v = json(&Envelope::WsOpen {
        id: s("2"),
        url: s("/ws"),
        headers: Table::new(),
        protocols: vec![s("a"), s("b")],
    });
    assert_eq!(v["type"], "ws-open");
    assert_eq!(v["protocols"][0], "a");
    assert_eq!(v["protocols"][1], "b");
    assert_eq!(v["protocols"].as_array().unwrap().len(), 2);
}

#[test]
fn different_envelopes_have_different_json() {
    let all = [
        Envelope::Heartbeat { ts: 1 },
        Envelope::Heartbeat { ts: 12 },
        Envelope::HeartbeatAck { ts: 1 },
        Envelope::WsOpenAck { id: s("a"), ok: true, error: None },
        Envelope::WsOpenAck { id: s("a"), ok: false, error: None },
        Envelope::WsOpenAck { id: s("a"), ok: false, error: Some(s("null")) },
        Envelope::WsMsg { id: s("a"), kind: s("b"), data: s("c") },
        Envelope::WsMsg { id: s("a\",\"kind\":\"b"), kind: s("b"), data: s("c") },
        Envelope::WsClose { id: s("a"), code: None, reason: None },
        Envelope::WsClose { id: s("a"), code: Some(0), reason: None },
        Envelope::Response { id: s("a"), status: 20, headers: Table::new(), body: None },
        Envelope::Response { id: s("a"), status: 200, headers: Table::new(), body: None },
    ];
    for (i, a) in all.iter().enumerate() {
        for b in &all[i + 1..] {
            assert_ne!(text(a), text(b));
        }
    }
}
