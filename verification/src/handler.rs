//! The consumer handler's decisions. For each delivered notification it
//! decides which row, if any, the storage layer should record. Chat
//! messages are scored by their text: a leading or trailing `+2` scores
//! plus-two, a leading or trailing `-2` scores minus-two (plus wins when
//! both apply), anything else is ignored.

use vstd::prelude::*;
use crate::database::{
    EventKind, EventRow, MessageKind, MessageRow, prepare_event_row, prepare_message_row,
};
use crate::decode::copy_bytes;
use crate::ids::sp_parse_id;
use crate::messages::{DomainEvent, DomainEventV};
use crate::time::rfc3339_micros_of;

verus! {

/// The two-byte score marker `+2`.
pub open spec fn plus_two_marker() -> Seq<u8> {
    seq![43u8, 50u8]
}

/// The two-byte score marker `-2`.
pub open spec fn minus_two_marker() -> Seq<u8> {
    seq![45u8, 50u8]
}

pub open spec fn starts_with(s: Seq<u8>, p: Seq<u8>) -> bool {
    p.len() <= s.len() && s.take(p.len() as int) == p
}

pub open spec fn ends_with(s: Seq<u8>, p: Seq<u8>) -> bool {
    p.len() <= s.len() && s.skip(s.len() - p.len()) == p
}

/// How a chat text scores.
pub open spec fn sp_classify_chat(s: Seq<u8>) -> Option<MessageKind> {
    if starts_with(s, plus_two_marker()) || ends_with(s, plus_two_marker()) {
        Some(MessageKind::PlusTwo)
    } else if starts_with(s, minus_two_marker()) || ends_with(s, minus_two_marker()) {
        Some(MessageKind::MinusTwo)
    } else {
        None
    }
}

fn starts_or_ends(text: &Vec<u8>, c: u8) -> (r: bool)
    ensures
        r == (starts_with(text@, seq![c, 50u8]) || ends_with(text@, seq![c, 50u8])),
{
    let n = text.len();
    if n < 2 {
        return false;
    }
    let starts = text[0] == c && text[1] == 50;
    let ends = text[n - 2] == c && text[n - 1] == 50;
    proof {
        let p = seq![c, 50u8];
        let s = text@;
        assert(s.take(2)[0] == s[0]);
        assert(s.take(2)[1] == s[1]);
        if starts {
            assert(s.take(2) =~= p);
        }
        assert(s.skip(n - 2)[0] == s[n - 2]);
        assert(s.skip(n - 2)[1] == s[n - 1]);
        if ends {
            assert(s.skip(n - 2) =~= p);
        }
    }
    starts || ends
}

/// Scores a chat text: exactly what `sp_classify_chat` gives.
pub fn classify_chat_text(text: &Vec<u8>) -> (r: Option<MessageKind>)
    ensures
        r == sp_classify_chat(text@),
{
    if starts_or_ends(text, 43) {
        Some(MessageKind::PlusTwo)
    } else if starts_or_ends(text, 45) {
        Some(MessageKind::MinusTwo)
    } else {
        None
    }
}

/// What the handler asks the storage layer to do for one notification.
#[derive(PartialEq, Eq, Debug)]
pub enum HandlerDecision {
    RecordOnline { row: EventRow },
    RecordOffline { row: EventRow },
    RecordMessage { row: MessageRow, message_id: Vec<u8>, chatter_login: Vec<u8> },
    Ignore,
}

/// Mathematical model of a `HandlerDecision`.
pub enum HandlerDecisionV {
    RecordOnline { row: EventRow },
    RecordOffline { row: EventRow },
    RecordMessage { row: MessageRow, message_id: Seq<u8>, chatter_login: Seq<u8> },
    Ignore,
}

impl View for HandlerDecision {
    type V = HandlerDecisionV;

    open spec fn view(&self) -> HandlerDecisionV {
        match self {
            HandlerDecision::RecordOnline { row } => HandlerDecisionV::RecordOnline { row: *row },
            HandlerDecision::RecordOffline { row } => HandlerDecisionV::RecordOffline { row: *row },
            HandlerDecision::RecordMessage { row, message_id, chatter_login } => {
                HandlerDecisionV::RecordMessage {
                    row: *row,
                    message_id: message_id@,
                    chatter_login: chatter_login@,
                }
            },
            HandlerDecision::Ignore => HandlerDecisionV::Ignore,
        }
    }
}

/// Why the handler failed; any such failure ends the whole run.
#[derive(Clone, Copy, PartialEq, Eq, Structural, Debug)]
pub enum HandlerError {
    /// A timestamp or identifier in the notification could not be read.
    BadRow,
}

/// What the handler decides for one notification: an online event is
/// recorded at its own start time, an offline event and a scored chat
/// message at the envelope timestamp, and everything else is ignored.
pub open spec fn sp_handle(e: DomainEventV, ts: Seq<u8>) -> Result<HandlerDecisionV, HandlerError> {
    match e {
        DomainEventV::StreamOnline { broadcaster_id, started_at } => match (
            rfc3339_micros_of(started_at),
            sp_parse_id(broadcaster_id),
        ) {
            (Some(t), Some(b)) => Ok(
                HandlerDecisionV::RecordOnline {
                    row: EventRow {
                        at_micros: t,
                        broadcaster_id: b,
                        kind: EventKind::BroadcastOnline,
                    },
                },
            ),
            _ => Err(HandlerError::BadRow),
        },
        DomainEventV::StreamOffline { broadcaster_id } => match (
            rfc3339_micros_of(ts),
            sp_parse_id(broadcaster_id),
        ) {
            (Some(t), Some(b)) => Ok(
                HandlerDecisionV::RecordOffline {
                    row: EventRow {
                        at_micros: t,
                        broadcaster_id: b,
                        kind: EventKind::BroadcastOffline,
                    },
                },
            ),
            _ => Err(HandlerError::BadRow),
        },
        DomainEventV::ChatMessage { chatter_id, chatter_login, broadcaster_id, message_id, text } => {
            match sp_classify_chat(text) {
                None => Ok(HandlerDecisionV::Ignore),
                Some(kind) => match (
                    rfc3339_micros_of(ts),
                    sp_parse_id(chatter_id),
                    sp_parse_id(broadcaster_id),
                ) {
                    (Some(t), Some(u), Some(c)) => Ok(
                        HandlerDecisionV::RecordMessage {
                            row: MessageRow {
                                sent_at_micros: t,
                                user_id: u,
                                channel_id: c,
                                kind,
                            },
                            message_id,
                            chatter_login,
                        },
                    ),
                    _ => Err(HandlerError::BadRow),
                },
            }
        },
        DomainEventV::Other => Ok(HandlerDecisionV::Ignore),
    }
}

/// View of a handler result.
pub open spec fn hres_view(r: Result<HandlerDecision, HandlerError>) -> Result<
    HandlerDecisionV,
    HandlerError,
> {
    match r {
        Ok(d) => Ok(d@),
        Err(e) => Err(e),
    }
}

/// Decides one delivered notification: exactly what `sp_handle` gives.
pub fn handle_notification(event: &DomainEvent, timestamp: &Vec<u8>) -> (r: Result<
    HandlerDecision,
    HandlerError,
>)
    ensures
        hres_view(r) == sp_handle(event@, timestamp@),
{
    match event {
        DomainEvent::StreamOnline { broadcaster_id, started_at } => {
            match prepare_event_row(started_at, broadcaster_id, EventKind::BroadcastOnline) {
                Ok(row) => Ok(HandlerDecision::RecordOnline { row }),
                Err(_) => Err(HandlerError::BadRow),
            }
        },
        DomainEvent::StreamOffline { broadcaster_id } => {
            match prepare_event_row(timestamp, broadcaster_id, EventKind::BroadcastOffline) {
                Ok(row) => Ok(HandlerDecision::RecordOffline { row }),
                Err(_) => Err(HandlerError::BadRow),
            }
        },
        DomainEvent::ChatMessage { chatter_id, chatter_login, broadcaster_id, message_id, text } => {
            match classify_chat_text(text) {
                None => Ok(HandlerDecision::Ignore),
                Some(kind) => match prepare_message_row(
                    timestamp,
                    chatter_id,
                    broadcaster_id,
                    kind,
                ) {
                    Ok(row) => Ok(
                        HandlerDecision::RecordMessage {
                            row,
                            message_id: copy_bytes(message_id),
                            chatter_login: copy_bytes(chatter_login),
                        },
                    ),
                    Err(_) => Err(HandlerError::BadRow),
                },
            }
        },
        DomainEvent::Other => Ok(HandlerDecision::Ignore),
    }
}

} // verus!
