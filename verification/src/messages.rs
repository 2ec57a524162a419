//! Typed protocol messages and domain events. A frame decodes into a
//! `ProtocolMessage`; a notification carries a `DomainEvent` plus the
//! server-assigned timestamp. All fields are plain byte strings as they
//! appeared on the wire.

use vstd::prelude::*;

verus! {

/// The kind of a standing subscription this collector registers.
#[derive(Clone, Copy, PartialEq, Eq, Structural, Debug)]
pub enum SubscriptionType {
    StreamOnline,
    StreamOffline,
    ChatMessage,
}

/// Why a frame failed to decode.
#[derive(Clone, Copy, PartialEq, Eq, Structural, Debug)]
pub enum DecodeError {
    /// The frame is not well-formed JSON.
    Malformed,
    /// The frame is JSON but the envelope lacks a required field, or a
    /// field has the wrong shape.
    Envelope,
    /// The envelope's discriminator names a message kind this protocol
    /// version does not define.
    UnknownMessageType,
}

/// The decoded payload of a notification, polymorphic over the event
/// subtype. A subtype this collector does not handle decodes as `Other`.
#[derive(PartialEq, Eq, Debug)]
pub enum DomainEvent {
    StreamOnline { broadcaster_id: Vec<u8>, started_at: Vec<u8> },
    StreamOffline { broadcaster_id: Vec<u8> },
    ChatMessage {
        chatter_id: Vec<u8>,
        chatter_login: Vec<u8>,
        broadcaster_id: Vec<u8>,
        message_id: Vec<u8>,
        text: Vec<u8>,
    },
    Other,
}

/// Mathematical model of a `DomainEvent`.
pub enum DomainEventV {
    StreamOnline { broadcaster_id: Seq<u8>, started_at: Seq<u8> },
    StreamOffline { broadcaster_id: Seq<u8> },
    ChatMessage {
        chatter_id: Seq<u8>,
        chatter_login: Seq<u8>,
        broadcaster_id: Seq<u8>,
        message_id: Seq<u8>,
        text: Seq<u8>,
    },
    Other,
}

impl View for DomainEvent {
    type V = DomainEventV;

    open spec fn view(&self) -> DomainEventV {
        match self {
            DomainEvent::StreamOnline { broadcaster_id, started_at } => {
                DomainEventV::StreamOnline {
                    broadcaster_id: broadcaster_id@,
                    started_at: started_at@,
                }
            },
            DomainEvent::StreamOffline { broadcaster_id } => {
                DomainEventV::StreamOffline { broadcaster_id: broadcaster_id@ }
            },
            DomainEvent::ChatMessage { chatter_id, chatter_login, broadcaster_id, message_id, text } => {
                DomainEventV::ChatMessage {
                    chatter_id: chatter_id@,
                    chatter_login: chatter_login@,
                    broadcaster_id: broadcaster_id@,
                    message_id: message_id@,
                    text: text@,
                }
            },
            DomainEvent::Other => DomainEventV::Other,
        }
    }
}

/// One inbound protocol message: the four kinds the envelope defines.
#[derive(PartialEq, Eq, Debug)]
pub enum ProtocolMessage {
    Welcome { session_id: Vec<u8> },
    Reconnect { session_id: Vec<u8> },
    Notification { event: DomainEvent, timestamp: Vec<u8> },
    Keepalive,
}

/// Mathematical model of a `ProtocolMessage`.
pub enum ProtocolMessageV {
    Welcome { session_id: Seq<u8> },
    Reconnect { session_id: Seq<u8> },
    Notification { event: DomainEventV, timestamp: Seq<u8> },
    Keepalive,
}

impl View for ProtocolMessage {
    type V = ProtocolMessageV;

    open spec fn view(&self) -> ProtocolMessageV {
        match self {
            ProtocolMessage::Welcome { session_id } => {
                ProtocolMessageV::Welcome { session_id: session_id@ }
            },
            ProtocolMessage::Reconnect { session_id } => {
                ProtocolMessageV::Reconnect { session_id: session_id@ }
            },
            ProtocolMessage::Notification { event, timestamp } => {
                ProtocolMessageV::Notification { event: event@, timestamp: timestamp@ }
            },
            ProtocolMessage::Keepalive => ProtocolMessageV::Keepalive,
        }
    }
}

} // verus!
