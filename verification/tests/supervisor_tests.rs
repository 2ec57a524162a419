use plustwo_collector::messages::{DomainEvent, SubscriptionType};
use plustwo_collector::supervisor::{
    Config, FatalError, Phase, SupAction, SupEvent, Supervisor,
};

fn b(s: &str) -> Vec<u8> {
    s.as_bytes().to_vec()
}

fn cfg() -> Config {
    Config { broadcaster_login: b("streamer"), user_login: b("viewer") }
}

fn welcome_frame(session: &str) -> SupEvent {
    let mut s = String::new();
    s.push_str("{\"metadata\":{\"message_type\":\"session_welcome\",");
    s.push_str("\"message_timestamp\":\"2023-01-01T00:00:00.000Z\"},");
    s.push_str("\"payload\":{\"session\":{\"id\":\"");
    s.push_str(session);
    s.push_str("\"}}}");
    SupEvent::TextFrame { body: s.into_bytes() }
}

fn reconnect_frame(session: &str) -> SupEvent {
    let mut s = String::new();
    s.push_str("{\"metadata\":{\"message_type\":\"session_reconnect\",");
    s.push_str("\"message_timestamp\":\"2023-01-01T00:01:00.000Z\"},");
    s.push_str("\"payload\":{\"session\":{\"id\":\"");
    s.push_str(session);
    s.push_str("\"}}}");
    SupEvent::TextFrame { body: s.into_bytes() }
}

fn chat_frame(text: &str) -> SupEvent {
    let mut s = String::new();
    s.push_str("{\"metadata\":{\"message_type\":\"notification\",");
    s.push_str("\"message_timestamp\":\"2023-01-01T00:00:05.123Z\"},");
    s.push_str("\"payload\":{\"subscription\":{\"type\":\"channel.chat.message\"},");
    s.push_str("\"event\":{\"broadcaster_user_id\":\"100\",\"chatter_user_id\":\"200\",");
    s.push_str("\"chatter_user_login\":\"viewer\",\"message_id\":\"mid\",");
    s.push_str("\"message\":{\"text\":\"");
    s.push_str(text);
    s.push_str("\"}}}}");
    SupEvent::TextFrame { body: s.into_bytes() }
}

/// Drives a fresh supervisor through connect, welcome, and a full
/// registration pass for the given session id.
fn activated(session: &str) -> Supervisor {
    let sup = Supervisor::new(cfg());
    let (sup, a) = sup.step(SupEvent::Connected);
    assert!(matches!(a, SupAction::Idle));
    let (sup, a) = sup.step(welcome_frame(session));
    assert!(matches!(a, SupAction::CheckToken));
    let (sup, a) = sup.step(SupEvent::TokenStatus { expired: false });
    assert!(matches!(a, SupAction::ResolveIdentities { .. }));
    let (sup, a) = sup.step(SupEvent::IdsResolved {
        broadcaster: Some(b("100")),
        user: Some(b("200")),
    });
    match a {
        SupAction::CreateSubscription { request } => {
            assert_eq!(request.kind, SubscriptionType::StreamOnline);
            assert_eq!(request.targets, vec![b("100")]);
            assert_eq!(request.session_id, b(session));
        }
        _ => panic!("expected the online subscription request"),
    }
    let (sup, a) = sup.step(SupEvent::SubscriptionCreated { ok: true });
    match a {
        SupAction::CreateSubscription { request } => {
            assert_eq!(request.kind, SubscriptionType::StreamOffline);
            assert_eq!(request.targets, vec![b("100")]);
            assert_eq!(request.session_id, b(session));
        }
        _ => panic!("expected the offline subscription request"),
    }
    let (sup, a) = sup.step(SupEvent::SubscriptionCreated { ok: true });
    match a {
        SupAction::CreateSubscription { request } => {
            assert_eq!(request.kind, SubscriptionType::ChatMessage);
            assert_eq!(request.targets, vec![b("100"), b("200")]);
            assert_eq!(request.session_id, b(session));
        }
        _ => panic!("expected the chat subscription request"),
    }
    let (sup, a) = sup.step(SupEvent::SubscriptionCreated { ok: true });
    assert!(matches!(a, SupAction::Idle));
    assert!(matches!(sup.phase, Phase::Active { .. }));
    sup
}

#[test]
fn welcome_then_chat_notification_reaches_handler() {
    let sup = activated("abc123");
    assert_eq!(sup.subscriptions.len(), 3);
    for sub in &sup.subscriptions {
        assert_eq!(sub.session_id, b("abc123"));
    }
    let (_sup, a) = sup.step(chat_frame("+2 great play"));
    match a {
        SupAction::Deliver { event, timestamp } => {
            assert_eq!(timestamp, b("2023-01-01T00:00:05.123Z"));
            match event {
                DomainEvent::ChatMessage { text, chatter_id, broadcaster_id, .. } => {
                    assert_eq!(text, b("+2 great play"));
                    assert_eq!(chatter_id, b("200"));
                    assert_eq!(broadcaster_id, b("100"));
                }
                _ => panic!("expected a chat message"),
            }
        }
        _ => panic!("expected a delivery"),
    }
}

#[test]
fn reconnect_rebinds_all_subscriptions_to_new_session() {
    let sup = activated("abc123");
    // A notification already in flight is still delivered first.
    let (sup, a) = sup.step(chat_frame("-2 oof"));
    assert!(matches!(a, SupAction::Deliver { .. }));
    let (sup, a) = sup.step(SupEvent::HandlerFinished { ok: true });
    assert!(matches!(a, SupAction::Idle));
    // The reconnect drops the old set and re-registers against xyz789.
    let (sup, a) = sup.step(reconnect_frame("xyz789"));
    assert!(matches!(a, SupAction::CheckToken));
    assert_eq!(sup.subscriptions.len(), 0);
    let (sup, _) = sup.step(SupEvent::TokenStatus { expired: false });
    let (sup, _) = sup.step(SupEvent::IdsResolved {
        broadcaster: Some(b("100")),
        user: Some(b("200")),
    });
    let (sup, _) = sup.step(SupEvent::SubscriptionCreated { ok: true });
    let (sup, _) = sup.step(SupEvent::SubscriptionCreated { ok: true });
    let (sup, _) = sup.step(SupEvent::SubscriptionCreated { ok: true });
    assert!(matches!(sup.phase, Phase::Active { .. }));
    assert_eq!(sup.subscriptions.len(), 3);
    for sub in &sup.subscriptions {
        assert_eq!(sub.session_id, b("xyz789"));
    }
}

#[test]
fn expired_token_is_refreshed_before_registration() {
    let sup = Supervisor::new(cfg());
    let (sup, _) = sup.step(SupEvent::Connected);
    let (sup, _) = sup.step(welcome_frame("s1"));
    let (sup, a) = sup.step(SupEvent::TokenStatus { expired: true });
    assert!(matches!(a, SupAction::RefreshToken));
    let (_sup, a) = sup.step(SupEvent::TokenRefreshed { ok: true });
    assert!(matches!(a, SupAction::ResolveIdentities { .. }));
}

#[test]
fn failed_subscription_call_retries_the_connection() {
    let sup = Supervisor::new(cfg());
    let (sup, _) = sup.step(SupEvent::Connected);
    let (sup, _) = sup.step(welcome_frame("s1"));
    let (sup, _) = sup.step(SupEvent::TokenStatus { expired: false });
    let (sup, _) = sup.step(SupEvent::IdsResolved {
        broadcaster: Some(b("100")),
        user: Some(b("200")),
    });
    let (sup, a) = sup.step(SupEvent::SubscriptionCreated { ok: false });
    assert!(matches!(a, SupAction::OpenConnection));
    assert!(matches!(sup.phase, Phase::Connecting));
    assert_eq!(sup.subscriptions.len(), 0);
}

#[test]
fn failed_identity_lookup_retries_the_connection() {
    let sup = Supervisor::new(cfg());
    let (sup, _) = sup.step(SupEvent::Connected);
    let (sup, _) = sup.step(welcome_frame("s1"));
    let (sup, _) = sup.step(SupEvent::TokenStatus { expired: false });
    let (sup, a) = sup.step(SupEvent::IdentityLookupFailed);
    assert!(matches!(a, SupAction::OpenConnection));
    assert!(matches!(sup.phase, Phase::Connecting));
}

#[test]
fn missing_identity_is_fatal() {
    let sup = Supervisor::new(cfg());
    let (sup, _) = sup.step(SupEvent::Connected);
    let (sup, _) = sup.step(welcome_frame("s1"));
    let (sup, _) = sup.step(SupEvent::TokenStatus { expired: false });
    let (sup, a) = sup.step(SupEvent::IdsResolved { broadcaster: None, user: Some(b("200")) });
    assert!(matches!(a, SupAction::Stop { error: FatalError::IdentityNotFound }));
    assert!(matches!(sup.phase, Phase::Failed { error: FatalError::IdentityNotFound }));
}

#[test]
fn reset_reconnects_silently_toward_awaiting_welcome() {
    let sup = activated("abc123");
    let (sup, a) = sup.step(SupEvent::ResetDetected);
    assert!(matches!(a, SupAction::OpenConnection));
    assert!(matches!(sup.phase, Phase::Connecting));
    let (sup, a) = sup.step(SupEvent::Connected);
    assert!(matches!(a, SupAction::Idle));
    assert!(matches!(sup.phase, Phase::AwaitingWelcome));
}

#[test]
fn malformed_frame_while_active_goes_back_to_connecting() {
    let sup = activated("abc123");
    let (sup, a) = sup.step(SupEvent::TextFrame { body: b("not json at all") });
    assert!(matches!(a, SupAction::OpenConnection));
    assert!(matches!(sup.phase, Phase::Connecting));
}

#[test]
fn handler_failure_stops_the_run() {
    let sup = activated("abc123");
    let (sup, a) = sup.step(chat_frame("+2"));
    assert!(matches!(a, SupAction::Deliver { .. }));
    let (sup, a) = sup.step(SupEvent::HandlerFinished { ok: false });
    assert!(matches!(a, SupAction::Stop { error: FatalError::HandlerFailed }));
    assert!(matches!(sup.phase, Phase::Failed { .. }));
}

#[test]
fn unrecognized_transport_fault_stops_the_run() {
    let sup = activated("abc123");
    let (sup, a) = sup.step(SupEvent::TransportFailed);
    assert!(matches!(a, SupAction::Stop { error: FatalError::TransportFailed }));
    assert!(matches!(sup.phase, Phase::Failed { .. }));
}

#[test]
fn connect_failure_keeps_retrying() {
    let sup = Supervisor::new(cfg());
    let (sup, a) = sup.step(SupEvent::ConnectFailed);
    assert!(matches!(a, SupAction::OpenConnection));
    let (sup, a) = sup.step(SupEvent::ConnectFailed);
    assert!(matches!(a, SupAction::OpenConnection));
    assert!(matches!(sup.phase, Phase::Connecting));
}

#[test]
fn keepalive_and_non_text_frames_are_no_ops() {
    let sup = activated("abc123");
    let keepalive = SupEvent::TextFrame {
        body: b(
            "{\"metadata\":{\"message_type\":\"session_keepalive\",\
             \"message_timestamp\":\"t\"},\"payload\":{}}",
        ),
    };
    let (sup, a) = sup.step(keepalive);
    assert!(matches!(a, SupAction::Idle));
    assert!(matches!(sup.phase, Phase::Active { .. }));
    let (sup, a) = sup.step(SupEvent::NonTextFrame);
    assert!(matches!(a, SupAction::Idle));
    assert!(matches!(sup.phase, Phase::Active { .. }));
}

#[test]
fn stream_close_while_awaiting_welcome_retries() {
    let sup = Supervisor::new(cfg());
    let (sup, _) = sup.step(SupEvent::Connected);
    let (sup, a) = sup.step(SupEvent::StreamClosed);
    assert!(matches!(a, SupAction::OpenConnection));
    assert!(matches!(sup.phase, Phase::Connecting));
}
