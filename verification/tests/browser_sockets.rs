use dodev::sockets::{
    forward_ws_header, forward_ws_headers, local_read, local_write, local_ws_url, safe_close_code,
    session_ended, session_opened, ws_open_ack, DialOutcome, LocalFrame, LocalRead, LocalWrite,
};
use dodev::table::Table;
use dodev::tunnel::{on_server_event, Envelope, ServerEvent, Step, WsLocalEvent};

fn s(text: &str) -> String {
    text.to_string()
}

fn table(rows: &[(&str, &str)]) -> Table<String> {
    let mut t = Table::new();
    for (k, v) in rows {
        t.insert(s(k), s(v));
    }
    t
}

fn pairs(rows: &[(&str, &str)]) -> Vec<(String, String)> {
    rows.iter().map(|(k, v)| (s(k), s(v))).collect()
}

#[test]
fn local_address() {
    assert_eq!(local_ws_url("localhost", 3000, "/_next/hmr?x=1"), "ws://localhost:3000/_next/hmr?x=1");
}

#[test]
fn handshake_headers_stay_behind() {
    let headers = table(&[
        ("Host", "x"),
        ("Connection", "Upgrade"),
        ("UPGRADE", "websocket"),
        ("Sec-WebSocket-Key", "k"),
        ("Sec-WebSocket-Version", "13"),
        ("sec-websocket-accept", "a"),
        ("Sec-WebSocket-Protocol", "p"),
        ("Sec-WebSocket-Extensions", "e"),
        ("Content-Length", "0"),
        ("Cookie", "a=1"),
        ("X-Bad", "a\nb"),
        ("bad name", "v"),
        ("", "v"),
        ("Origin", "https://lab.local.dev"),
    ]);
    assert_eq!(
        forward_ws_headers(&headers, &vec![]),
        pairs(&[("cookie", "a=1"), ("origin", "https://lab.local.dev")])
    );
}

#[test]
fn protocols_are_asked_for() {
    assert_eq!(
        forward_ws_headers(&table(&[("A", "1")]), &vec![s("graphql-ws"), s("v2")]),
        pairs(&[("a", "1"), ("sec-websocket-protocol", "graphql-ws, v2")])
    );
    assert_eq!(forward_ws_headers(&table(&[]), &vec![s("bad\r")]), pairs(&[]));
    assert_eq!(forward_ws_headers(&table(&[]), &vec![]), pairs(&[]));
}

#[test]
fn header_names_are_bounded_tokens() {
    let long = "A".repeat(65535);
    assert_eq!(
        forward_ws_header(&long, "x", "v"),
        Some(("a".repeat(65535), s("v")))
    );
    assert_eq!(forward_ws_header(&"A".repeat(65536), "x", "v"), None);
    assert_eq!(forward_ws_header("X-É", "x", "v"), None);
    assert_eq!(forward_ws_header("X", "host", "v"), None);
    assert_eq!(forward_ws_header("X", "x", "é\t"), Some((s("x"), s("é\t"))));
    for n in 0u8..128 {
        let c = n as char;
        let token = c.is_ascii_alphanumeric() || "!#$%&'*+-.^_`|~".contains(c);
        assert_eq!(forward_ws_header(&format!("x{}", c), "?", "v").is_some(), token, "{:?}", c);
        let value = n == 9 || (n >= 32 && n != 127);
        assert_eq!(forward_ws_header("x", "?", &format!("v{}", c)).is_some(), value, "{:?}", c);
    }
}

#[test]
fn dialling_is_acknowledged() {
    match ws_open_ack("w", &DialOutcome::Opened) {
        Envelope::WsOpenAck { id, ok, error } => assert_eq!((id, ok, error), (s("w"), true, None)),
        other => panic!("{:?}", other),
    }
    match ws_open_ack("w", &DialOutcome::InvalidUrl(s("e"))) {
        Envelope::WsOpenAck { ok, error, .. } => {
            assert_eq!((ok, error), (false, Some(s("invalid local ws url: e"))))
        }
        other => panic!("{:?}", other),
    }
    match ws_open_ack("w", &DialOutcome::Failed(s("e"))) {
        Envelope::WsOpenAck { ok, error, .. } => {
            assert_eq!((ok, error), (false, Some(s("local dial failed: e"))))
        }
        other => panic!("{:?}", other),
    }
}

#[test]
fn sessions_last_from_dial_to_end() {
    let mut open: Table<u32> = Table::new();
    let msg = || {
        ServerEvent::Text(Ok(Envelope::WsMsg { id: s("w"), kind: s("text"), data: s("d") }))
    };
    session_opened("w", &DialOutcome::Failed(s("e")), 1, &mut open);
    session_opened("w", &DialOutcome::InvalidUrl(s("e")), 2, &mut open);
    assert_eq!(open.len(), 0);
    assert!(matches!(on_server_event(msg(), &mut open), Step::Ignore));

    session_opened("w", &DialOutcome::Opened, 3, &mut open);
    session_opened("v", &DialOutcome::Opened, 4, &mut open);
    session_ended("v", &mut open);
    assert!(matches!(on_server_event(msg(), &mut open), Step::Deliver { session: 3, .. }));

    session_ended("w", &mut open);
    assert_eq!(open.len(), 0);
    assert!(matches!(on_server_event(msg(), &mut open), Step::Ignore));
    session_ended("w", &mut open);

    // The same id may be opened again.
    session_opened("w", &DialOutcome::Opened, 5, &mut open);
    session_opened("w", &DialOutcome::Opened, 6, &mut open);
    assert_eq!(open.len(), 1);
    assert!(matches!(on_server_event(msg(), &mut open), Step::Deliver { session: 6, .. }));
}

#[test]
fn close_codes_are_made_safe() {
    assert_eq!(safe_close_code(None), 1011);
    for c in 0u16..=65535 {
        let kept = (1000..=1014).contains(&c) && ![1004, 1005, 1006].contains(&c)
            || (3000..=4999).contains(&c);
        let safe = safe_close_code(Some(c));
        assert_eq!(safe, if kept { c } else { 1011 });
        assert_eq!(safe_close_code(Some(safe)), safe);
    }
}

#[test]
fn messages_become_frames() {
    let msg = |kind: &str, data: &str| {
        local_write(WsLocalEvent::Msg { kind: s(kind), data: s(data) })
    };
    assert!(matches!(msg("text", "hi"), LocalWrite::Send(LocalFrame::Text(t)) if t == "hi"));
    assert!(matches!(msg("odd", "hi"), LocalWrite::Send(LocalFrame::Text(t)) if t == "hi"));
    assert!(matches!(msg("binary", "AAH/"), LocalWrite::Send(LocalFrame::Binary(b)) if b == vec![0, 1, 255]));
    assert!(matches!(msg("binary", "no base64"), LocalWrite::Skip));
}

#[test]
fn closing_the_local_socket() {
    match local_write(WsLocalEvent::Close { code: Some(1006), reason: None }) {
        LocalWrite::SendAndStop(LocalFrame::Close { code, reason }) => {
            assert_eq!((code, reason), (1011, s("")))
        }
        other => panic!("{:?}", other),
    }
    match local_write(WsLocalEvent::Close { code: Some(4000), reason: Some(s("bye")) }) {
        LocalWrite::SendAndStop(LocalFrame::Close { code, reason }) => {
            assert_eq!((code, reason), (4000, s("bye")))
        }
        other => panic!("{:?}", other),
    }
}

#[test]
fn frames_become_messages() {
    let up = local_read("w", LocalRead::Text(s("hi")));
    assert!(!up.done);
    match up.envelope {
        Some(Envelope::WsMsg { id, kind, data }) => {
            assert_eq!((id, kind, data), (s("w"), s("text"), s("hi")))
        }
        other => panic!("{:?}", other),
    }
    let up = local_read("w", LocalRead::Binary(vec![0, 1, 255]));
    match up.envelope {
        Some(Envelope::WsMsg { kind, data, .. }) => assert_eq!((kind, data), (s("binary"), s("AAH/"))),
        other => panic!("{:?}", other),
    }
    let up = local_read("w", LocalRead::Control);
    assert!(up.envelope.is_none() && !up.done);
}

#[test]
fn local_close_ends_the_session() {
    let up = local_read("w", LocalRead::Close(Some((1001, s("gone")))));
    assert!(up.done);
    match up.envelope {
        Some(Envelope::WsClose { id, code, reason }) => {
            assert_eq!((id, code, reason), (s("w"), Some(1001), Some(s("gone"))))
        }
        other => panic!("{:?}", other),
    }
    let up = local_read("w", LocalRead::Close(None));
    assert!(up.done);
    match up.envelope {
        Some(Envelope::WsClose { code, reason, .. }) => assert_eq!((code, reason), (None, None)),
        other => panic!("{:?}", other),
    }
}

#[test]
fn binary_frames_survive_the_tunnel() {
    for bytes in [vec![], vec![7u8], (0..=255).collect::<Vec<u8>>()] {
        let up = local_read("w", LocalRead::Binary(bytes.clone()));
        let event = match up.envelope {
            Some(Envelope::WsMsg { kind, data, .. }) => WsLocalEvent::Msg { kind, data },
            other => panic!("{:?}", other),
        };
        match local_write(event) {
            LocalWrite::Send(LocalFrame::Binary(back)) => assert_eq!(back, bytes),
            other => panic!("{:?}", other),
        }
    }
}
