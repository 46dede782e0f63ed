use base64::engine::general_purpose::STANDARD;
use base64::Engine;
use bytes::{BufMut, Bytes, BytesMut};
use dodev::protocol::{
    serialization_message, AuthPayload, HttpRequestPayload, HttpResponsePayload, MessageType,
    ProtocolError, TunnelMessage, HEADER_SIZE, MAX_PAYLOAD_SIZE,
};
use serde_json::Value;
use uuid::Uuid;

fn json(payload: &[u8]) -> Value {
    serde_json::from_slice(payload).unwrap()
}

fn bytes_of(v: &Value) -> Vec<u8> {
    STANDARD.decode(v.as_str().unwrap()).unwrap()
}

#[test]
fn roundtrip_auth() {
    let msg = TunnelMessage::auth("test-key-123", Some("myapp")).unwrap();
    let encoded = msg.encode();
    let decoded = TunnelMessage::decode(encoded).unwrap();

    assert_eq!(decoded.msg_type, MessageType::Auth);
    assert_eq!(decoded.request_id, msg.request_id);

    let payload = json(&decoded.payload);
    assert_eq!(payload["key"].as_str(), Some("test-key-123"));
    assert_eq!(payload["subdomain"].as_str(), Some("myapp"));
}

#[test]
fn roundtrip_auth_no_subdomain() {
    let msg = TunnelMessage::auth("key-only", None).unwrap();
    let encoded = msg.encode();
    let decoded = TunnelMessage::decode(encoded).unwrap();

    assert_eq!(decoded.msg_type, MessageType::Auth);
    let payload = json(&decoded.payload);
    assert_eq!(payload["key"].as_str(), Some("key-only"));
    assert!(payload.get("subdomain").is_none());
}

#[test]
fn roundtrip_auth_ok() {
    let msg = TunnelMessage::auth_ok("myapp.local.dev");
    let encoded = msg.encode();
    let decoded = TunnelMessage::decode(encoded).unwrap();

    assert_eq!(decoded.msg_type, MessageType::AuthOk);
    assert_eq!(std::str::from_utf8(&decoded.payload).unwrap(), "myapp.local.dev");
}

#[test]
fn roundtrip_auth_fail() {
    let msg = TunnelMessage::auth_fail("invalid api key");
    let encoded = msg.encode();
    let decoded = TunnelMessage::decode(encoded).unwrap();

    assert_eq!(decoded.msg_type, MessageType::AuthFail);
    assert_eq!(std::str::from_utf8(&decoded.payload).unwrap(), "invalid api key");
}

#[test]
fn roundtrip_ping_pong() {
    let ping = TunnelMessage::ping();
    let ping_id = ping.request_id;
    let encoded = ping.encode();
    let decoded = TunnelMessage::decode(encoded).unwrap();
    assert_eq!(decoded.msg_type, MessageType::Ping);
    assert!(decoded.payload.is_empty());

    let pong = TunnelMessage::pong(ping_id);
    let encoded = pong.encode();
    let decoded = TunnelMessage::decode(encoded).unwrap();
    assert_eq!(decoded.msg_type, MessageType::Pong);
    assert_eq!(decoded.request_id, ping_id);
    assert!(decoded.payload.is_empty());
}

#[test]
fn roundtrip_close() {
    let msg = TunnelMessage::close();
    let encoded = msg.encode();
    let decoded = TunnelMessage::decode(encoded).unwrap();

    assert_eq!(decoded.msg_type, MessageType::Close);
    assert!(decoded.payload.is_empty());
}

#[test]
fn roundtrip_error() {
    let msg = TunnelMessage::error("something went wrong");
    let encoded = msg.encode();
    let decoded = TunnelMessage::decode(encoded).unwrap();

    assert_eq!(decoded.msg_type, MessageType::Error);
    assert_eq!(std::str::from_utf8(&decoded.payload).unwrap(), "something went wrong");
}

#[test]
fn roundtrip_http_request() {
    let req = HttpRequestPayload {
        method: "POST".to_string(),
        uri: "/api/data".to_string(),
        headers: vec![
            ("Content-Type".to_string(), "application/json".to_string()),
            ("Authorization".to_string(), "Bearer tok".to_string()),
        ],
        body: b"{\"hello\":\"world\"}".to_vec(),
    };
    let id = Uuid::new_v4().into_bytes();
    let msg = TunnelMessage::http_request(id, &req).unwrap();
    let encoded = msg.encode();
    let decoded = TunnelMessage::decode(encoded).unwrap();

    assert_eq!(decoded.msg_type, MessageType::HttpRequest);
    assert_eq!(decoded.request_id, id);

    let parsed = json(&decoded.payload);
    assert_eq!(parsed["method"].as_str(), Some("POST"));
    assert_eq!(parsed["uri"].as_str(), Some("/api/data"));
    assert_eq!(parsed["headers"].as_array().unwrap().len(), 2);
    assert_eq!(bytes_of(&parsed["body"]), b"{\"hello\":\"world\"}");
}

#[test]
fn roundtrip_http_response() {
    let resp = HttpResponsePayload {
        status: 200,
        headers: vec![("Content-Type".to_string(), "text/plain".to_string())],
        body: b"OK".to_vec(),
    };
    let id = Uuid::new_v4().into_bytes();
    let msg = TunnelMessage::http_response(id, &resp).unwrap();
    let encoded = msg.encode();
    let decoded = TunnelMessage::decode(encoded).unwrap();

    assert_eq!(decoded.msg_type, MessageType::HttpResponse);
    assert_eq!(decoded.request_id, id);

    let parsed = json(&decoded.payload);
    assert_eq!(parsed["status"].as_u64(), Some(200));
    assert_eq!(bytes_of(&parsed["body"]), b"OK");
}

#[test]
fn decode_insufficient_data() {
    let data = Bytes::from_static(&[0x01; 5]); // Only 5 bytes, need 17
    let result = TunnelMessage::decode(data);
    assert!(matches!(result, Err(ProtocolError::InsufficientData(5))));
}

#[test]
fn decode_invalid_message_type() {
    let mut buf = BytesMut::with_capacity(HEADER_SIZE);
    buf.put_u8(0xFF); // invalid type
    buf.put_slice(Uuid::new_v4().as_bytes());
    let result = TunnelMessage::decode(buf.freeze());
    assert!(matches!(result, Err(ProtocolError::InvalidMessageType(0xFF))));
}

#[test]
fn decode_header_only_no_payload() {
    // A valid message with exactly 17 bytes (no payload) should succeed.
    let msg =
        TunnelMessage::new(MessageType::Ping, Uuid::new_v4().into_bytes(), Bytes::new());
    let encoded = msg.encode();
    assert_eq!(encoded.len(), HEADER_SIZE);
    let decoded = TunnelMessage::decode(encoded).unwrap();
    assert_eq!(decoded.msg_type, MessageType::Ping);
    assert!(decoded.payload.is_empty());
}

#[test]
fn message_type_roundtrip_all_variants() {
    let variants: Vec<(MessageType, u8)> = vec![
        (MessageType::Auth, 0x01),
        (MessageType::AuthOk, 0x02),
        (MessageType::AuthFail, 0x03),
        (MessageType::HttpRequest, 0x10),
        (MessageType::HttpResponse, 0x11),
        (MessageType::Ping, 0x20),
        (MessageType::Pong, 0x21),
        (MessageType::Error, 0x30),
        (MessageType::Close, 0x40),
    ];

    for (expected_type, byte_val) in variants {
        let converted = MessageType::try_from(byte_val).unwrap();
        assert_eq!(converted, expected_type);
        assert_eq!(converted.to_byte(), byte_val);
    }
}

#[test]
fn encode_preserves_uuid() {
    let id = Uuid::new_v4().into_bytes();
    let msg = TunnelMessage::new(MessageType::Auth, id, Bytes::from("test"));
    let encoded = msg.encode();
    let decoded = TunnelMessage::decode(encoded).unwrap();
    assert_eq!(decoded.request_id, id);
}

#[test]
fn frame_is_type_id_payload() {
    let id: [u8; 16] = [7; 16];
    let msg = TunnelMessage::new(MessageType::Error, id, Bytes::from_static(b"no"));
    let mut expected = vec![0x30u8];
    expected.extend_from_slice(&[7; 16]);
    expected.extend_from_slice(b"no");
    assert_eq!(&msg.encode()[..], &expected[..]);
    assert_eq!(msg.encoded_len(), Some(19));
    assert_eq!(&msg.try_encode().unwrap()[..], &expected[..]);
}

#[test]
fn only_nine_bytes_are_message_types() {
    let mut known = 0;
    for byte in 0u8..=255 {
        match MessageType::try_from(byte) {
            Ok(t) => {
                assert_eq!(t.to_byte(), byte);
                known += 1;
            }
            Err(ProtocolError::InvalidMessageType(b)) => assert_eq!(b, byte),
            Err(e) => panic!("{}", e.message()),
        }
    }
    assert_eq!(known, 9);
}

#[test]
fn payload_limit_is_exact() {
    let fits = TunnelMessage::new(
        MessageType::HttpResponse,
        [1; 16],
        Bytes::from(vec![0u8; MAX_PAYLOAD_SIZE]),
    );
    assert!(TunnelMessage::decode(fits.encode()).is_ok());
    let large = TunnelMessage::new(
        MessageType::HttpResponse,
        [1; 16],
        Bytes::from(vec![0u8; MAX_PAYLOAD_SIZE + 1]),
    );
    let refused = TunnelMessage::decode(large.encode());
    assert!(matches!(refused, Err(ProtocolError::PayloadTooLarge(n)) if n == MAX_PAYLOAD_SIZE + 1));
}

#[test]
fn encode_gives_the_decoded_frame_back() {
    let mut frame = vec![0x21u8];
    frame.extend_from_slice(&[9, 8, 7, 6, 5, 4, 3, 2, 1, 0, 1, 2, 3, 4, 5, 6]);
    frame.extend_from_slice(b"payload");
    let decoded = TunnelMessage::decode(Bytes::from(frame.clone())).unwrap();
    assert_eq!(decoded.msg_type, MessageType::Pong);
    assert_eq!(&decoded.encode()[..], &frame[..]);
    let copy = decoded.clone();
    assert_eq!(&copy.encode()[..], &frame[..]);
}

#[test]
fn frames_of_different_messages_differ() {
    let a = TunnelMessage::new(MessageType::Ping, [1; 16], Bytes::new());
    let b = TunnelMessage::new(MessageType::Pong, [1; 16], Bytes::new());
    let c = TunnelMessage::new(MessageType::Ping, [2; 16], Bytes::new());
    assert_ne!(a.encode(), b.encode());
    assert_ne!(a.encode(), c.encode());
}

#[test]
fn random_ids_are_version_four() {
    let a = TunnelMessage::ping();
    let b = TunnelMessage::ping();
    assert_ne!(a.request_id, b.request_id);
    for id in [a.request_id, b.request_id] {
        assert_eq!(id[6] >> 4, 4);
        assert_eq!(id[8] >> 6, 2);
        assert_eq!(Uuid::from_bytes(id).get_version_num(), 4);
    }
}

#[test]
fn payload_json_is_exact() {
    let auth = AuthPayload { key: "a\"b\\\n\u{1}é".to_string(), subdomain: None };
    assert_eq!(
        auth.to_json().unwrap(),
        "{\"key\":\"a\\\"b\\\\\\n\\u0001é\"}".as_bytes().to_vec()
    );
    let request = HttpRequestPayload {
        method: "GET".to_string(),
        uri: "/".to_string(),
        headers: vec![
            ("a".to_string(), "1".to_string()),
            ("b".to_string(), "2".to_string()),
        ],
        body: vec![0, 255],
    };
    assert_eq!(
        request.to_json().unwrap(),
        b"{\"method\":\"GET\",\"uri\":\"/\",\"headers\":[[\"a\",\"1\"],[\"b\",\"2\"]],\"body\":\"AP8=\"}".to_vec()
    );
    let response = HttpResponsePayload { status: 404, headers: vec![], body: vec![] };
    assert_eq!(
        response.to_json().unwrap(),
        b"{\"status\":404,\"headers\":[],\"body\":\"\"}".to_vec()
    );
}

#[test]
fn every_control_character_is_escaped_as_json() {
    for n in 0u32..=0x2ff {
        if let Some(c) = char::from_u32(n) {
            let text = format!("x{}y", c);
            let auth = AuthPayload { key: text.clone(), subdomain: Some(text.clone()) };
            let value = json(&auth.to_json().unwrap());
            assert_eq!(value["key"].as_str(), Some(text.as_str()));
            assert_eq!(value["subdomain"].as_str(), Some(text.as_str()));
        }
    }
}

#[test]
fn protocol_errors_have_messages() {
    assert_eq!(
        ProtocolError::InvalidMessageType(0x0f).message(),
        "invalid message type: 0x0f"
    );
    assert_eq!(
        ProtocolError::InsufficientData(5).message(),
        "insufficient data: need at least 17 bytes, got 5"
    );
    assert_eq!(
        ProtocolError::PayloadTooLarge(10485761).message(),
        "payload too large: 10485761 bytes exceeds 10485760 byte limit"
    );
    let error = serde_json::from_str::<Value>("{").unwrap_err();
    let text = error.to_string();
    let wrapped = ProtocolError::from(error);
    assert!(matches!(wrapped, ProtocolError::SerializationError(_)));
    assert_eq!(wrapped.message(), serialization_message(&text));
    assert_eq!(serialization_message("x"), "serialization error: x");
}

#[test]
fn payload_bodies_are_base64() {
    for (body, text) in [
        (&b""[..], ""),
        (b"f", "Zg=="),
        (b"fo", "Zm8="),
        (b"foo", "Zm9v"),
        (b"foob", "Zm9vYg=="),
        (b"fooba", "Zm9vYmE="),
        (b"foobar", "Zm9vYmFy"),
        (&[0xfb, 0xff, 0xfe], "+//+"),
        (&[0x00, 0x10, 0x83], "ABCD"),
    ] {
        let request = HttpRequestPayload {
            method: "PUT".to_string(),
            uri: "/".to_string(),
            headers: vec![],
            body: body.to_vec(),
        };
        let value = json(&request.to_json().unwrap());
        assert_eq!(value["body"].as_str(), Some(text));
        assert_eq!(bytes_of(&value["body"]), body);
        let response = HttpResponsePayload { status: 200, headers: vec![], body: body.to_vec() };
        let msg = TunnelMessage::http_response([1; 16], &response).unwrap();
        assert_eq!(json(&msg.payload)["body"].as_str(), Some(text));
    }
}

#[test]
fn different_payloads_have_different_json() {
    let auth = |key: &str, subdomain: Option<&str>| {
        AuthPayload { key: key.to_string(), subdomain: subdomain.map(|s| s.to_string()) }
            .to_json()
            .unwrap()
    };
    let written = [
        auth("a", None),
        auth("a", Some("")),
        auth("a\",\"subdomain\":\"", None),
        auth("a\\", None),
        auth("a\\\\", None),
        auth("\u{1}", None),
        auth("\\u0001", None),
    ];
    for (i, a) in written.iter().enumerate() {
        for b in &written[i + 1..] {
            assert_ne!(a, b);
        }
    }
    let response = |status: u16, headers: &[(&str, &str)], body: &[u8]| {
        HttpResponsePayload {
            status,
            headers: headers.iter().map(|(k, v)| (k.to_string(), v.to_string())).collect(),
            body: body.to_vec(),
        }
        .to_json()
        .unwrap()
    };
    assert_ne!(response(1, &[], &[1, 2]), response(1, &[], &[12]));
    assert_ne!(response(1, &[("a", "b,c")], &[]), response(1, &[("a", "b"), ("c", "")], &[]));
}
