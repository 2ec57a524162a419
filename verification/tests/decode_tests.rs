use plustwo_collector::decode::decode;
use plustwo_collector::json::{parse_json, Json};
use plustwo_collector::messages::{DecodeError, DomainEvent, ProtocolMessage};

fn b(s: &str) -> Vec<u8> {
    s.as_bytes().to_vec()
}

#[test]
fn parses_scalars_and_nesting() {
    let v = parse_json(&b(" [1, -2.5e3, true, false, null, \"a\"] ")).unwrap();
    assert_eq!(
        v,
        Json::Arr(vec![
            Json::Num(b("1")),
            Json::Num(b("-2.5e3")),
            Json::Bool(true),
            Json::Bool(false),
            Json::Null,
            Json::Str(b("a")),
        ])
    );
}

#[test]
fn parses_objects_in_order() {
    let v = parse_json(&b("{\"x\": {\"y\": []}, \"z\": \"w\"}")).unwrap();
    assert_eq!(
        v,
        Json::Obj(vec![
            (b("x"), Json::Obj(vec![(b("y"), Json::Arr(vec![]))])),
            (b("z"), Json::Str(b("w"))),
        ])
    );
}

#[test]
fn unescapes_short_escapes() {
    let v = parse_json(&b("\"a\\\"b\\\\c\\nd\\te\\/f\"")).unwrap();
    assert_eq!(v, Json::Str(b("a\"b\\c\nd\te/f")));
}

#[test]
fn unescapes_unicode_escapes() {
    assert_eq!(parse_json(&b("\"\\u0041\"")).unwrap(), Json::Str(b("A")));
    assert_eq!(parse_json(&b("\"\\u004a\"")).unwrap(), Json::Str(b("J")));
    // U+00E9, U+4E2D: two- and three-byte UTF-8.
    assert_eq!(
        parse_json(&b("\"\\u00e9\"")).unwrap(),
        Json::Str(vec![0xC3, 0xA9])
    );
    assert_eq!(
        parse_json(&b("\"\\u4E2D\"")).unwrap(),
        Json::Str(vec![0xE4, 0xB8, 0xAD])
    );
    // A surrogate pair: U+1F600, four bytes.
    assert_eq!(
        parse_json(&b("\"hi \\ud83d\\ude00\"")).unwrap(),
        Json::Str(vec![b'h', b'i', b' ', 0xF0, 0x9F, 0x98, 0x80])
    );
}

#[test]
fn rejects_bad_unicode_escapes() {
    // A lone surrogate has no UTF-8 encoding.
    assert!(parse_json(&b("\"\\ud800\"")).is_none());
    assert!(parse_json(&b("\"\\ude00\"")).is_none());
    assert!(parse_json(&b("\"\\ud83d x\"")).is_none());
    // Not four hexadecimal digits.
    assert!(parse_json(&b("\"\\uZZZZ\"")).is_none());
    assert!(parse_json(&b("\"\\u12\"")).is_none());
}

#[test]
fn number_grammar_is_strict() {
    assert_eq!(parse_json(&b("0")).unwrap(), Json::Num(b("0")));
    assert_eq!(parse_json(&b("-0.5")).unwrap(), Json::Num(b("-0.5")));
    assert_eq!(parse_json(&b("1e+5")).unwrap(), Json::Num(b("1e+5")));
    assert_eq!(parse_json(&b("12.25E-2")).unwrap(), Json::Num(b("12.25E-2")));
    assert!(parse_json(&b("01")).is_none());
    assert!(parse_json(&b("-")).is_none());
    assert!(parse_json(&b("1.")).is_none());
    assert!(parse_json(&b("1..2")).is_none());
    assert!(parse_json(&b("1e")).is_none());
    assert!(parse_json(&b("1e+")).is_none());
    assert!(parse_json(&b("1..2e+-3")).is_none());
    assert!(parse_json(&b("+1")).is_none());
}

#[test]
fn keeps_duplicate_keys_in_order() {
    let v = parse_json(&b("{\"a\":1,\"a\":2}")).unwrap();
    assert_eq!(
        v,
        Json::Obj(vec![(b("a"), Json::Num(b("1"))), (b("a"), Json::Num(b("2")))])
    );
}

#[test]
fn parses_deep_nesting() {
    let v = parse_json(&b("[[[[[[[[[[1]]]]]]]]]]")).unwrap();
    let mut expected = Json::Num(b("1"));
    for _ in 0..10 {
        expected = Json::Arr(vec![expected]);
    }
    assert_eq!(v, expected);
}

#[test]
fn tolerates_whitespace_everywhere() {
    let v = parse_json(&b(" { \"a\" : [ 1 , 2 ] , \"b\" : { } } ")).unwrap();
    assert_eq!(
        v,
        Json::Obj(vec![
            (b("a"), Json::Arr(vec![Json::Num(b("1")), Json::Num(b("2"))])),
            (b("b"), Json::Obj(vec![])),
        ])
    );
}

#[test]
fn rejects_broken_json() {
    assert!(parse_json(&b("")).is_none());
    assert!(parse_json(&b("{")).is_none());
    assert!(parse_json(&b("[1,]")).is_none());
    assert!(parse_json(&b("{\"a\" 1}")).is_none());
    assert!(parse_json(&b("\"unterminated")).is_none());
    assert!(parse_json(&b("tru")).is_none());
    assert!(parse_json(&b("1 2")).is_none());
}

fn welcome_frame(session: &str) -> Vec<u8> {
    let mut s = String::new();
    s.push_str("{\"metadata\":{\"message_id\":\"m1\",\"message_type\":\"session_welcome\",");
    s.push_str("\"message_timestamp\":\"2023-01-01T00:00:00.000Z\"},");
    s.push_str("\"payload\":{\"session\":{\"id\":\"");
    s.push_str(session);
    s.push_str("\",\"status\":\"connected\",\"keepalive_timeout_seconds\":10}}}");
    b(&s)
}

#[test]
fn decodes_welcome() {
    let m = decode(&welcome_frame("abc123")).unwrap();
    assert_eq!(m, ProtocolMessage::Welcome { session_id: b("abc123") });
}

#[test]
fn decodes_reconnect() {
    let frame = b(
        "{\"metadata\":{\"message_type\":\"session_reconnect\",\"message_timestamp\":\"t\"},\
         \"payload\":{\"session\":{\"id\":\"xyz789\"}}}",
    );
    let m = decode(&frame).unwrap();
    assert_eq!(m, ProtocolMessage::Reconnect { session_id: b("xyz789") });
}

#[test]
fn decodes_keepalive() {
    let frame = b(
        "{\"metadata\":{\"message_type\":\"session_keepalive\",\
         \"message_timestamp\":\"2023-01-01T00:00:10.000Z\"},\"payload\":{}}",
    );
    assert_eq!(decode(&frame).unwrap(), ProtocolMessage::Keepalive);
}

#[test]
fn decodes_chat_notification() {
    let frame = b(
        "{\"metadata\":{\"message_id\":\"m2\",\"message_type\":\"notification\",\
         \"message_timestamp\":\"2023-01-01T00:00:05.123Z\",\
         \"subscription_type\":\"channel.chat.message\"},\
         \"payload\":{\"subscription\":{\"type\":\"channel.chat.message\",\"version\":\"1\"},\
         \"event\":{\"broadcaster_user_id\":\"100\",\"chatter_user_id\":\"200\",\
         \"chatter_user_login\":\"viewer\",\
         \"message_id\":\"11111111-2222-3333-4444-555555555555\",\
         \"message\":{\"text\":\"+2 great play\",\"fragments\":[]}}}}",
    );
    let m = decode(&frame).unwrap();
    assert_eq!(
        m,
        ProtocolMessage::Notification {
            event: DomainEvent::ChatMessage {
                chatter_id: b("200"),
                chatter_login: b("viewer"),
                broadcaster_id: b("100"),
                message_id: b("11111111-2222-3333-4444-555555555555"),
                text: b("+2 great play"),
            },
            timestamp: b("2023-01-01T00:00:05.123Z"),
        }
    );
}

#[test]
fn decodes_stream_online_notification() {
    let frame = b(
        "{\"metadata\":{\"message_type\":\"notification\",\
         \"message_timestamp\":\"2023-01-01T12:00:01.000Z\"},\
         \"payload\":{\"subscription\":{\"type\":\"stream.online\"},\
         \"event\":{\"broadcaster_user_id\":\"100\",\"type\":\"live\",\
         \"started_at\":\"2023-01-01T12:00:00.000Z\"}}}",
    );
    let m = decode(&frame).unwrap();
    assert_eq!(
        m,
        ProtocolMessage::Notification {
            event: DomainEvent::StreamOnline {
                broadcaster_id: b("100"),
                started_at: b("2023-01-01T12:00:00.000Z"),
            },
            timestamp: b("2023-01-01T12:00:01.000Z"),
        }
    );
}

#[test]
fn decodes_stream_offline_notification() {
    let frame = b(
        "{\"metadata\":{\"message_type\":\"notification\",\
         \"message_timestamp\":\"2023-01-01T13:00:00.000Z\"},\
         \"payload\":{\"subscription\":{\"type\":\"stream.offline\"},\
         \"event\":{\"broadcaster_user_id\":\"100\"}}}",
    );
    let m = decode(&frame).unwrap();
    assert_eq!(
        m,
        ProtocolMessage::Notification {
            event: DomainEvent::StreamOffline { broadcaster_id: b("100") },
            timestamp: b("2023-01-01T13:00:00.000Z"),
        }
    );
}

#[test]
fn unknown_subscription_type_decodes_as_other() {
    let frame = b(
        "{\"metadata\":{\"message_type\":\"notification\",\
         \"message_timestamp\":\"t\"},\
         \"payload\":{\"subscription\":{\"type\":\"channel.follow\"},\
         \"event\":{\"whatever\":true}}}",
    );
    let m = decode(&frame).unwrap();
    assert_eq!(
        m,
        ProtocolMessage::Notification { event: DomainEvent::Other, timestamp: b("t") }
    );
}

#[test]
fn non_json_frame_is_malformed() {
    assert_eq!(decode(&b("definitely not json")), Err(DecodeError::Malformed));
}

#[test]
fn missing_fields_are_envelope_errors() {
    assert_eq!(decode(&b("{}")), Err(DecodeError::Envelope));
    assert_eq!(decode(&b("[1,2,3]")), Err(DecodeError::Envelope));
    assert_eq!(
        decode(&b("{\"metadata\":{\"message_type\":\"session_welcome\"},\"payload\":{}}")),
        Err(DecodeError::Envelope)
    );
    let no_ts = b(
        "{\"metadata\":{\"message_type\":\"notification\"},\
         \"payload\":{\"subscription\":{\"type\":\"stream.online\"},\"event\":{}}}",
    );
    assert_eq!(decode(&no_ts), Err(DecodeError::Envelope));
}

#[test]
fn unknown_message_type_is_its_own_error() {
    let frame = b(
        "{\"metadata\":{\"message_type\":\"revocation\",\"message_timestamp\":\"t\"},\
         \"payload\":{}}",
    );
    assert_eq!(decode(&frame), Err(DecodeError::UnknownMessageType));
}
