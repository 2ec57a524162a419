use plustwo_collector::database::{
    EventKind, MessageKind, RowError, prepare_event_row, prepare_message_row,
};
use plustwo_collector::handler::{classify_chat_text, handle_notification, HandlerDecision, HandlerError};
use plustwo_collector::ids::parse_id;
use plustwo_collector::messages::DomainEvent;
use plustwo_collector::time::{timestamp_to_time, TimeError};

fn b(s: &str) -> Vec<u8> {
    s.as_bytes().to_vec()
}

#[test]
fn chat_scoring() {
    assert_eq!(classify_chat_text(&b("+2 great play")), Some(MessageKind::PlusTwo));
    assert_eq!(classify_chat_text(&b("that was +2")), Some(MessageKind::PlusTwo));
    assert_eq!(classify_chat_text(&b("-2 oof")), Some(MessageKind::MinusTwo));
    assert_eq!(classify_chat_text(&b("big misplay -2")), Some(MessageKind::MinusTwo));
    // A leading +2 wins over a trailing -2.
    assert_eq!(classify_chat_text(&b("+2 but also -2")), Some(MessageKind::PlusTwo));
    assert_eq!(classify_chat_text(&b("nothing to score")), None);
    assert_eq!(classify_chat_text(&b("2")), None);
    assert_eq!(classify_chat_text(&b("")), None);
    assert_eq!(classify_chat_text(&b("+2")), Some(MessageKind::PlusTwo));
}

#[test]
fn id_parsing() {
    assert_eq!(parse_id(&b("0")), Some(0));
    assert_eq!(parse_id(&b("100")), Some(100));
    assert_eq!(parse_id(&b("999999999999999999")), Some(999999999999999999));
    assert_eq!(parse_id(&b("")), None);
    assert_eq!(parse_id(&b("1234567890123456789")), None);
    assert_eq!(parse_id(&b("12a")), None);
    assert_eq!(parse_id(&b("-5")), None);
}

#[test]
fn timestamp_conversion_matches_the_wire_format() {
    assert_eq!(
        timestamp_to_time(&b("2023-01-01T00:00:05.123Z")),
        Ok(1_672_531_205_123_000)
    );
    assert_eq!(timestamp_to_time(&b("2023-01-01T00:00:00Z")), Ok(1_672_531_200_000_000));
    assert_eq!(timestamp_to_time(&b("yesterday")), Err(TimeError::Unparseable));
    assert_eq!(timestamp_to_time(&b("")), Err(TimeError::Unparseable));
}

#[test]
fn message_row_preparation() {
    let row = prepare_message_row(
        &b("2023-01-01T00:00:05.123Z"),
        &b("200"),
        &b("100"),
        MessageKind::PlusTwo,
    )
    .unwrap();
    assert_eq!(row.sent_at_micros, 1_672_531_205_123_000);
    assert_eq!(row.user_id, 200);
    assert_eq!(row.channel_id, 100);
    assert_eq!(row.kind, MessageKind::PlusTwo);
    assert_eq!(
        prepare_message_row(&b("bad"), &b("200"), &b("100"), MessageKind::PlusTwo),
        Err(RowError::BadTimestamp)
    );
    assert_eq!(
        prepare_message_row(
            &b("2023-01-01T00:00:05.123Z"),
            &b("not a number"),
            &b("100"),
            MessageKind::PlusTwo,
        ),
        Err(RowError::BadId)
    );
}

#[test]
fn event_row_preparation() {
    let row = prepare_event_row(
        &b("2023-01-01T12:00:00.000Z"),
        &b("100"),
        EventKind::BroadcastOnline,
    )
    .unwrap();
    assert_eq!(row.at_micros, 1_672_574_400_000_000);
    assert_eq!(row.broadcaster_id, 100);
    assert_eq!(row.kind, EventKind::BroadcastOnline);
    assert_eq!(
        prepare_event_row(&b("t"), &b("100"), EventKind::BroadcastOffline),
        Err(RowError::BadTimestamp)
    );
}

#[test]
fn online_event_is_recorded_at_its_start_time() {
    let ev = DomainEvent::StreamOnline {
        broadcaster_id: b("100"),
        started_at: b("2023-01-01T12:00:00.000Z"),
    };
    let d = handle_notification(&ev, &b("2023-01-01T12:00:01.000Z")).unwrap();
    match d {
        HandlerDecision::RecordOnline { row } => {
            assert_eq!(row.at_micros, 1_672_574_400_000_000);
            assert_eq!(row.broadcaster_id, 100);
            assert_eq!(row.kind, EventKind::BroadcastOnline);
        }
        _ => panic!("expected an online record"),
    }
}

#[test]
fn offline_event_is_recorded_at_the_envelope_time() {
    let ev = DomainEvent::StreamOffline { broadcaster_id: b("100") };
    let d = handle_notification(&ev, &b("2023-01-01T13:00:00.000Z")).unwrap();
    match d {
        HandlerDecision::RecordOffline { row } => {
            assert_eq!(row.at_micros, 1_672_578_000_000_000);
            assert_eq!(row.broadcaster_id, 100);
            assert_eq!(row.kind, EventKind::BroadcastOffline);
        }
        _ => panic!("expected an offline record"),
    }
}

#[test]
fn scored_chat_becomes_a_message_row() {
    let ev = DomainEvent::ChatMessage {
        chatter_id: b("200"),
        chatter_login: b("viewer"),
        broadcaster_id: b("100"),
        message_id: b("mid"),
        text: b("+2 great play"),
    };
    let d = handle_notification(&ev, &b("2023-01-01T00:00:05.123Z")).unwrap();
    match d {
        HandlerDecision::RecordMessage { row, message_id, chatter_login } => {
            assert_eq!(row.sent_at_micros, 1_672_531_205_123_000);
            assert_eq!(row.user_id, 200);
            assert_eq!(row.channel_id, 100);
            assert_eq!(row.kind, MessageKind::PlusTwo);
            assert_eq!(message_id, b("mid"));
            assert_eq!(chatter_login, b("viewer"));
        }
        _ => panic!("expected a message record"),
    }
}

#[test]
fn unscored_chat_and_unknown_events_are_ignored() {
    let ev = DomainEvent::ChatMessage {
        chatter_id: b("200"),
        chatter_login: b("viewer"),
        broadcaster_id: b("100"),
        message_id: b("mid"),
        text: b("hello there"),
    };
    assert_eq!(
        handle_notification(&ev, &b("2023-01-01T00:00:05.123Z")).unwrap(),
        HandlerDecision::Ignore
    );
    assert_eq!(
        handle_notification(&DomainEvent::Other, &b("whatever")).unwrap(),
        HandlerDecision::Ignore
    );
}

#[test]
fn unreadable_fields_fail_the_handler() {
    let ev = DomainEvent::StreamOnline { broadcaster_id: b("100"), started_at: b("bad") };
    assert_eq!(handle_notification(&ev, &b("t")), Err(HandlerError::BadRow));
    let ev = DomainEvent::ChatMessage {
        chatter_id: b("not numeric"),
        chatter_login: b("viewer"),
        broadcaster_id: b("100"),
        message_id: b("mid"),
        text: b("+2"),
    };
    assert_eq!(
        handle_notification(&ev, &b("2023-01-01T00:00:05.123Z")),
        Err(HandlerError::BadRow)
    );
}
