//! What the storage layer records, prepared as plain values. The actual
//! database client lives outside this crate; it receives finished rows and
//! only binds and executes them.

use vstd::prelude::*;
use crate::ids::{parse_id, sp_parse_id};
use crate::time::{rfc3339_micros_of, timestamp_to_time};

verus! {

/// How a chat message is scored before storage.
#[derive(Clone, Copy, PartialEq, Eq, Structural, Debug)]
pub enum MessageKind {
    PlusTwo,
    MinusTwo,
}

/// A broadcast lifecycle event recorded by the storage layer.
#[derive(Clone, Copy, PartialEq, Eq, Structural, Debug)]
pub enum EventKind {
    BroadcastOnline,
    BroadcastOffline,
}

/// Why a row could not be prepared.
#[derive(Clone, Copy, PartialEq, Eq, Structural, Debug)]
pub enum RowError {
    /// The timestamp text does not parse.
    BadTimestamp,
    /// An identifier is not one to eighteen decimal digits.
    BadId,
}

/// One row of the messages table.
#[derive(Clone, Copy, PartialEq, Eq, Structural, Debug)]
pub struct MessageRow {
    pub sent_at_micros: i64,
    pub user_id: i64,
    pub channel_id: i64,
    pub kind: MessageKind,
}

/// One row of the events table.
#[derive(Clone, Copy, PartialEq, Eq, Structural, Debug)]
pub struct EventRow {
    pub at_micros: i64,
    pub broadcaster_id: i64,
    pub kind: EventKind,
}

/// Prepares a chat-message row. Succeeds exactly when the timestamp parses
/// and both identifiers are valid; the timestamp is checked first.
pub fn prepare_message_row(
    timestamp: &Vec<u8>,
    user_id: &Vec<u8>,
    channel_id: &Vec<u8>,
    kind: MessageKind,
) -> (r: Result<MessageRow, RowError>)
    ensures
        match r {
            Ok(row) => rfc3339_micros_of(timestamp@) == Some(row.sent_at_micros) && sp_parse_id(
                user_id@,
            ) == Some(row.user_id) && sp_parse_id(channel_id@) == Some(row.channel_id) && row.kind
                == kind,
            Err(RowError::BadTimestamp) => rfc3339_micros_of(timestamp@) is None,
            Err(RowError::BadId) => rfc3339_micros_of(timestamp@) is Some && (sp_parse_id(
                user_id@,
            ) is None || sp_parse_id(channel_id@) is None),
        },
{
    let sent_at_micros = match timestamp_to_time(timestamp) {
        Ok(t) => t,
        Err(_) => {
            return Err(RowError::BadTimestamp);
        },
    };
    let user = match parse_id(user_id) {
        Some(u) => u,
        None => {
            return Err(RowError::BadId);
        },
    };
    let channel = match parse_id(channel_id) {
        Some(c) => c,
        None => {
            return Err(RowError::BadId);
        },
    };
    Ok(MessageRow { sent_at_micros, user_id: user, channel_id: channel, kind })
}

/// Prepares a broadcast-event row. Succeeds exactly when the timestamp
/// parses and the identifier is valid; the timestamp is checked first.
pub fn prepare_event_row(timestamp: &Vec<u8>, broadcaster_id: &Vec<u8>, kind: EventKind) -> (r:
    Result<EventRow, RowError>)
    ensures
        match r {
            Ok(row) => rfc3339_micros_of(timestamp@) == Some(row.at_micros) && sp_parse_id(
                broadcaster_id@,
            ) == Some(row.broadcaster_id) && row.kind == kind,
            Err(RowError::BadTimestamp) => rfc3339_micros_of(timestamp@) is None,
            Err(RowError::BadId) => rfc3339_micros_of(timestamp@) is Some && sp_parse_id(
                broadcaster_id@,
            ) is None,
        },
{
    let at_micros = match timestamp_to_time(timestamp) {
        Ok(t) => t,
        Err(_) => {
            return Err(RowError::BadTimestamp);
        },
    };
    let broadcaster = match parse_id(broadcaster_id) {
        Some(b) => b,
        None => {
            return Err(RowError::BadId);
        },
    };
    Ok(EventRow { at_micros, broadcaster_id: broadcaster, kind })
}

} // verus!
