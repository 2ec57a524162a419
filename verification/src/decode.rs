//! Classification of a parsed frame into a `ProtocolMessage`. The envelope
//! carries a `metadata` object with a `message_type` discriminator and a
//! `payload` object whose shape depends on that discriminator. A
//! notification's payload names its subscription type and carries the event
//! fields; a subscription type this collector does not handle classifies as
//! `Other` and is delivered as such, for the handler to ignore.

use vstd::prelude::*;
use vstd::string::*;
use crate::json::{Json, JsonV, bytes_eq, mviews_of, obj_get, parse_json, sp_json, sp_obj_get};
use crate::messages::{DecodeError, DomainEvent, DomainEventV, ProtocolMessage, ProtocolMessageV};

verus! {

/// The bytes of a string literal, as they stand on the wire.
pub open spec fn lit_bytes(s: &str) -> Seq<u8> {
    s.spec_bytes()
}

/// Member named `k` of `o`, when it is a string.
pub open spec fn sp_get_str(o: Seq<(Seq<u8>, JsonV)>, k: Seq<u8>) -> Option<Seq<u8>> {
    match sp_obj_get(o, k) {
        Some(JsonV::Str(s)) => Some(s),
        _ => None,
    }
}

/// Member named `k` of `o`, when it is an object.
pub open spec fn sp_get_obj(o: Seq<(Seq<u8>, JsonV)>, k: Seq<u8>) -> Option<
    Seq<(Seq<u8>, JsonV)>,
> {
    match sp_obj_get(o, k) {
        Some(JsonV::Obj(m)) => Some(m),
        _ => None,
    }
}

/// The session identifier under `payload.session.id`.
pub open spec fn sp_session_id(top: Seq<(Seq<u8>, JsonV)>) -> Option<Seq<u8>> {
    match sp_get_obj(top, lit_bytes("payload")) {
        None => None,
        Some(pl) => match sp_get_obj(pl, lit_bytes("session")) {
            None => None,
            Some(ss) => sp_get_str(ss, lit_bytes("id")),
        },
    }
}

/// The event a notification carries, by its subscription type.
pub open spec fn sp_classify_event(st: Seq<u8>, ev: Seq<(Seq<u8>, JsonV)>) -> Result<
    DomainEventV,
    DecodeError,
> {
    if st == lit_bytes("stream.online") {
        match (
            sp_get_str(ev, lit_bytes("broadcaster_user_id")),
            sp_get_str(ev, lit_bytes("started_at")),
        ) {
            (Some(b), Some(t)) => Ok(DomainEventV::StreamOnline { broadcaster_id: b, started_at: t }),
            _ => Err(DecodeError::Envelope),
        }
    } else if st == lit_bytes("stream.offline") {
        match sp_get_str(ev, lit_bytes("broadcaster_user_id")) {
            Some(b) => Ok(DomainEventV::StreamOffline { broadcaster_id: b }),
            None => Err(DecodeError::Envelope),
        }
    } else if st == lit_bytes("channel.chat.message") {
        match (
            sp_get_str(ev, lit_bytes("chatter_user_id")),
            sp_get_str(ev, lit_bytes("chatter_user_login")),
            sp_get_str(ev, lit_bytes("broadcaster_user_id")),
            sp_get_str(ev, lit_bytes("message_id")),
        ) {
            (Some(ci), Some(cl), Some(bi), Some(mi)) => match sp_get_obj(
                ev,
                lit_bytes("message"),
            ) {
                None => Err(DecodeError::Envelope),
                Some(m) => match sp_get_str(m, lit_bytes("text")) {
                    Some(tx) => Ok(
                        DomainEventV::ChatMessage {
                            chatter_id: ci,
                            chatter_login: cl,
                            broadcaster_id: bi,
                            message_id: mi,
                            text: tx,
                        },
                    ),
                    None => Err(DecodeError::Envelope),
                },
            },
            _ => Err(DecodeError::Envelope),
        }
    } else {
        Ok(DomainEventV::Other)
    }
}

/// Classification of the envelope, given its metadata and discriminator.
pub open spec fn sp_classify_kind(
    top: Seq<(Seq<u8>, JsonV)>,
    md: Seq<(Seq<u8>, JsonV)>,
    mt: Seq<u8>,
) -> Result<ProtocolMessageV, DecodeError> {
    if mt == lit_bytes("session_welcome") {
        match sp_session_id(top) {
            Some(id) => Ok(ProtocolMessageV::Welcome { session_id: id }),
            None => Err(DecodeError::Envelope),
        }
    } else if mt == lit_bytes("session_reconnect") {
        match sp_session_id(top) {
            Some(id) => Ok(ProtocolMessageV::Reconnect { session_id: id }),
            None => Err(DecodeError::Envelope),
        }
    } else if mt == lit_bytes("session_keepalive") {
        Ok(ProtocolMessageV::Keepalive)
    } else if mt == lit_bytes("notification") {
        match sp_get_str(md, lit_bytes("message_timestamp")) {
            None => Err(DecodeError::Envelope),
            Some(ts) => match sp_get_obj(top, lit_bytes("payload")) {
                None => Err(DecodeError::Envelope),
                Some(pl) => match (
                    sp_get_obj(pl, lit_bytes("subscription")),
                    sp_get_obj(pl, lit_bytes("event")),
                ) {
                    (Some(sub), Some(ev)) => match sp_get_str(sub, lit_bytes("type")) {
                        None => Err(DecodeError::Envelope),
                        Some(st) => match sp_classify_event(st, ev) {
                            Ok(e) => Ok(
                                ProtocolMessageV::Notification { event: e, timestamp: ts },
                            ),
                            Err(er) => Err(er),
                        },
                    },
                    _ => Err(DecodeError::Envelope),
                },
            },
        }
    } else {
        Err(DecodeError::UnknownMessageType)
    }
}

/// Classification of a parsed frame.
pub open spec fn sp_classify(j: JsonV) -> Result<ProtocolMessageV, DecodeError> {
    match j {
        JsonV::Obj(top) => match sp_get_obj(top, lit_bytes("metadata")) {
            None => Err(DecodeError::Envelope),
            Some(md) => match sp_get_str(md, lit_bytes("message_type")) {
                None => Err(DecodeError::Envelope),
                Some(mt) => sp_classify_kind(top, md, mt),
            },
        },
        _ => Err(DecodeError::Envelope),
    }
}

/// What `decode` returns on a whole frame.
pub open spec fn sp_decode(s: Seq<u8>) -> Result<ProtocolMessageV, DecodeError> {
    match sp_json(s) {
        None => Err(DecodeError::Malformed),
        Some(j) => sp_classify(j),
    }
}

/// View of a decode result.
pub open spec fn res_view(r: Result<ProtocolMessage, DecodeError>) -> Result<
    ProtocolMessageV,
    DecodeError,
> {
    match r {
        Ok(m) => Ok(m@),
        Err(e) => Err(e),
    }
}

pub fn copy_bytes(v: &Vec<u8>) -> (r: Vec<u8>)
    ensures
        r@ == v@,
{
    let mut r: Vec<u8> = Vec::new();
    let mut i: usize = 0;
    while i < v.len()
        invariant
            0 <= i <= v@.len(),
            r@ =~= v@.take(i as int),
        decreases v@.len() - i,
    {
        r.push(v[i]);
        proof {
            assert(r@ =~= v@.take(i + 1));
        }
        i = i + 1;
    }
    proof {
        assert(v@.take(v@.len() as int) =~= v@);
    }
    r
}

fn get_str<'a>(o: &'a Vec<(Vec<u8>, Json)>, k: &[u8]) -> (r: Option<&'a Vec<u8>>)
    ensures
        match r {
            None => sp_get_str(mviews_of(o@), k@) is None,
            Some(s) => sp_get_str(mviews_of(o@), k@) == Some(s@),
        },
{
    match obj_get(o, k) {
        None => None,
        Some(j) => match j {
            Json::Str(s) => Some(s),
            _ => None,
        },
    }
}

fn get_obj<'a>(o: &'a Vec<(Vec<u8>, Json)>, k: &[u8]) -> (r: Option<&'a Vec<(Vec<u8>, Json)>>)
    ensures
        match r {
            None => sp_get_obj(mviews_of(o@), k@) is None,
            Some(m) => sp_get_obj(mviews_of(o@), k@) == Some(mviews_of(m@)),
        },
{
    match obj_get(o, k) {
        None => None,
        Some(j) => match j {
            Json::Obj(m) => Some(m),
            _ => None,
        },
    }
}

fn session_id_of<'a>(top: &'a Vec<(Vec<u8>, Json)>) -> (r: Option<&'a Vec<u8>>)
    ensures
        match r {
            None => sp_session_id(mviews_of(top@)) is None,
            Some(s) => sp_session_id(mviews_of(top@)) == Some(s@),
        },
{
    match get_obj(top, "payload".as_bytes()) {
        None => None,
        Some(pl) => match get_obj(pl, "session".as_bytes()) {
            None => None,
            Some(ss) => get_str(ss, "id".as_bytes()),
        },
    }
}

fn classify_event(st: &Vec<u8>, ev: &Vec<(Vec<u8>, Json)>) -> (r: Result<DomainEvent, DecodeError>)
    ensures
        match r {
            Ok(e) => sp_classify_event(st@, mviews_of(ev@)) == Ok::<DomainEventV, DecodeError>(e@),
            Err(er) => sp_classify_event(st@, mviews_of(ev@)) == Err::<DomainEventV, DecodeError>(
                er,
            ),
        },
{
    if bytes_eq(st.as_slice(), "stream.online".as_bytes()) {
        match (
            get_str(ev, "broadcaster_user_id".as_bytes()),
            get_str(ev, "started_at".as_bytes()),
        ) {
            (Some(b), Some(t)) => Ok(
                DomainEvent::StreamOnline { broadcaster_id: copy_bytes(b), started_at: copy_bytes(t) },
            ),
            _ => Err(DecodeError::Envelope),
        }
    } else if bytes_eq(st.as_slice(), "stream.offline".as_bytes()) {
        match get_str(ev, "broadcaster_user_id".as_bytes()) {
            Some(b) => Ok(DomainEvent::StreamOffline { broadcaster_id: copy_bytes(b) }),
            None => Err(DecodeError::Envelope),
        }
    } else if bytes_eq(st.as_slice(), "channel.chat.message".as_bytes()) {
        match (
            get_str(ev, "chatter_user_id".as_bytes()),
            get_str(ev, "chatter_user_login".as_bytes()),
            get_str(ev, "broadcaster_user_id".as_bytes()),
            get_str(ev, "message_id".as_bytes()),
        ) {
            (Some(ci), Some(cl), Some(bi), Some(mi)) => match get_obj(ev, "message".as_bytes()) {
                None => Err(DecodeError::Envelope),
                Some(m) => match get_str(m, "text".as_bytes()) {
                    Some(tx) => Ok(
                        DomainEvent::ChatMessage {
                            chatter_id: copy_bytes(ci),
                            chatter_login: copy_bytes(cl),
                            broadcaster_id: copy_bytes(bi),
                            message_id: copy_bytes(mi),
                            text: copy_bytes(tx),
                        },
                    ),
                    None => Err(DecodeError::Envelope),
                },
            },
            _ => Err(DecodeError::Envelope),
        }
    } else {
        Ok(DomainEvent::Other)
    }
}

fn classify(j: &Json) -> (r: Result<ProtocolMessage, DecodeError>)
    ensures
        res_view(r) == sp_classify(j@),
{
    match j {
        Json::Obj(top) => {
            match get_obj(top, "metadata".as_bytes()) {
                None => Err(DecodeError::Envelope),
                Some(md) => match get_str(md, "message_type".as_bytes()) {
                    None => Err(DecodeError::Envelope),
                    Some(mt) => {
                        if bytes_eq(mt.as_slice(), "session_welcome".as_bytes()) {
                            match session_id_of(top) {
                                Some(id) => Ok(
                                    ProtocolMessage::Welcome { session_id: copy_bytes(id) },
                                ),
                                None => Err(DecodeError::Envelope),
                            }
                        } else if bytes_eq(mt.as_slice(), "session_reconnect".as_bytes()) {
                            match session_id_of(top) {
                                Some(id) => Ok(
                                    ProtocolMessage::Reconnect { session_id: copy_bytes(id) },
                                ),
                                None => Err(DecodeError::Envelope),
                            }
                        } else if bytes_eq(mt.as_slice(), "session_keepalive".as_bytes()) {
                            Ok(ProtocolMessage::Keepalive)
                        } else if bytes_eq(mt.as_slice(), "notification".as_bytes()) {
                            match get_str(md, "message_timestamp".as_bytes()) {
                                None => Err(DecodeError::Envelope),
                                Some(ts) => match get_obj(top, "payload".as_bytes()) {
                                    None => Err(DecodeError::Envelope),
                                    Some(pl) => match (
                                        get_obj(pl, "subscription".as_bytes()),
                                        get_obj(pl, "event".as_bytes()),
                                    ) {
                                        (Some(sub), Some(ev)) => match get_str(
                                            sub,
                                            "type".as_bytes(),
                                        ) {
                                            None => Err(DecodeError::Envelope),
                                            Some(st) => match classify_event(st, ev) {
                                                Ok(e) => Ok(
                                                    ProtocolMessage::Notification {
                                                        event: e,
                                                        timestamp: copy_bytes(ts),
                                                    },
                                                ),
                                                Err(er) => Err(er),
                                            },
                                        },
                                        _ => Err(DecodeError::Envelope),
                                    },
                                },
                            }
                        } else {
                            Err(DecodeError::UnknownMessageType)
                        }
                    },
                },
            }
        },
        _ => Err(DecodeError::Envelope),
    }
}

/// Decodes one text frame into a protocol message; returns exactly what
/// `sp_decode` gives on the frame's bytes.
pub fn decode(frame: &Vec<u8>) -> (r: Result<ProtocolMessage, DecodeError>)
    ensures
        res_view(r) == sp_decode(frame@),
{
    match parse_json(frame) {
        None => Err(DecodeError::Malformed),
        Some(j) => classify(&j),
    }
}

} // verus!
