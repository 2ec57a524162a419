//! The connection supervisor: one state machine that owns the whole
//! connection lifecycle. The driver outside this crate performs I/O only: it
//! hands each completed piece of outside work to `step` as a `SupEvent` and
//! performs the single `SupAction` it gets back. Every decision — what a
//! frame means, when to re-register subscriptions, when to reconnect and
//! when to stop — is taken here.
//!
//! Session handling: a welcome or reconnect message replaces the current
//! session wholesale and always re-registers the fixed set of subscriptions
//! (stream online, stream offline, chat message), in that order, each bound
//! to the new session id; the first failure abandons the attempt and
//! reconnects, so no connection runs with partial subscriptions. Before
//! registration the token is checked and, if expired, refreshed. A login
//! that resolves to no identity is fatal to the whole run; a failed
//! subscription-API call (the identity lookup included) or a malformed
//! frame is fatal only to the current connection attempt; the
//! one recognized abrupt-reset error reconnects silently; a handler failure
//! or an unrecognized transport fault stops the run.

use vstd::prelude::*;
use crate::decode::{copy_bytes, decode, sp_decode};
use crate::messages::{DomainEvent, DomainEventV, ProtocolMessage, ProtocolMessageV, SubscriptionType};

verus! {

/// The configured logins whose identities the subscriptions target.
pub struct Config {
    pub broadcaster_login: Vec<u8>,
    pub user_login: Vec<u8>,
}

pub struct ConfigV {
    pub broadcaster_login: Seq<u8>,
    pub user_login: Seq<u8>,
}

impl View for Config {
    type V = ConfigV;

    open spec fn view(&self) -> ConfigV {
        ConfigV {
            broadcaster_login: self.broadcaster_login@,
            user_login: self.user_login@,
        }
    }
}

/// A standing registration: which events to push, for which targets, bound
/// to which session.
pub struct Subscription {
    pub kind: SubscriptionType,
    pub targets: Vec<Vec<u8>>,
    pub session_id: Vec<u8>,
}

pub struct SubscriptionV {
    pub kind: SubscriptionType,
    pub targets: Seq<Seq<u8>>,
    pub session_id: Seq<u8>,
}

impl View for Subscription {
    type V = SubscriptionV;

    open spec fn view(&self) -> SubscriptionV {
        SubscriptionV {
            kind: self.kind,
            targets: Seq::new(self.targets@.len(), |i: int| self.targets@[i]@),
            session_id: self.session_id@,
        }
    }
}

/// Where a registration pass stands. The resolved identities ride along
/// once the lookup has succeeded.
pub enum RegPhase {
    CheckingToken,
    RefreshingToken,
    ResolvingIds,
    CreatingOnline { broadcaster: Vec<u8>, user: Vec<u8> },
    CreatingOffline { broadcaster: Vec<u8>, user: Vec<u8> },
    CreatingChat { broadcaster: Vec<u8>, user: Vec<u8> },
}

pub enum RegPhaseV {
    CheckingToken,
    RefreshingToken,
    ResolvingIds,
    CreatingOnline { broadcaster: Seq<u8>, user: Seq<u8> },
    CreatingOffline { broadcaster: Seq<u8>, user: Seq<u8> },
    CreatingChat { broadcaster: Seq<u8>, user: Seq<u8> },
}

impl View for RegPhase {
    type V = RegPhaseV;

    open spec fn view(&self) -> RegPhaseV {
        match self {
            RegPhase::CheckingToken => RegPhaseV::CheckingToken,
            RegPhase::RefreshingToken => RegPhaseV::RefreshingToken,
            RegPhase::ResolvingIds => RegPhaseV::ResolvingIds,
            RegPhase::CreatingOnline { broadcaster, user } => RegPhaseV::CreatingOnline {
                broadcaster: broadcaster@,
                user: user@,
            },
            RegPhase::CreatingOffline { broadcaster, user } => RegPhaseV::CreatingOffline {
                broadcaster: broadcaster@,
                user: user@,
            },
            RegPhase::CreatingChat { broadcaster, user } => RegPhaseV::CreatingChat {
                broadcaster: broadcaster@,
                user: user@,
            },
        }
    }
}

/// Why a run stops for good.
#[derive(Clone, Copy, PartialEq, Eq, Structural, Debug)]
pub enum FatalError {
    /// A configured login resolved to no identity; the run cannot proceed.
    IdentityNotFound,
    /// The consumer handler reported a failure.
    HandlerFailed,
    /// The transport reported a fault other than the recognized reset.
    TransportFailed,
}

/// The supervisor's phase.
pub enum Phase {
    /// No live connection; a connect attempt is owed or under way.
    Connecting,
    /// Connected; the first message must establish a session.
    AwaitingWelcome,
    /// A session is set and subscriptions are being registered for it.
    Registering { session_id: Vec<u8>, reg: RegPhase },
    /// Fully set up: frames are decoded and notifications delivered.
    Active { session_id: Vec<u8> },
    /// Terminal failure.
    Failed { error: FatalError },
}

pub enum PhaseV {
    Connecting,
    AwaitingWelcome,
    Registering { session_id: Seq<u8>, reg: RegPhaseV },
    Active { session_id: Seq<u8> },
    Failed { error: FatalError },
}

impl View for Phase {
    type V = PhaseV;

    open spec fn view(&self) -> PhaseV {
        match self {
            Phase::Connecting => PhaseV::Connecting,
            Phase::AwaitingWelcome => PhaseV::AwaitingWelcome,
            Phase::Registering { session_id, reg } => PhaseV::Registering {
                session_id: session_id@,
                reg: reg@,
            },
            Phase::Active { session_id } => PhaseV::Active { session_id: session_id@ },
            Phase::Failed { error } => PhaseV::Failed { error: *error },
        }
    }
}

/// One completed piece of outside work, handed to `step`.
pub enum SupEvent {
    /// A connect attempt succeeded.
    Connected,
    /// A connect attempt failed.
    ConnectFailed,
    /// A text frame arrived.
    TextFrame { body: Vec<u8> },
    /// A non-text frame arrived; the protocol carries nothing in those.
    NonTextFrame,
    /// The peer closed the stream in an orderly way.
    StreamClosed,
    /// The recognized reset-without-closing-handshake fault.
    ResetDetected,
    /// Any other transport fault.
    TransportFailed,
    /// Whether the held token is expired.
    TokenStatus { expired: bool },
    /// Whether a token refresh succeeded.
    TokenRefreshed { ok: bool },
    /// What the configured logins resolved to, from a lookup that
    /// completed: `None` means the service knows no such login.
    IdsResolved { broadcaster: Option<Vec<u8>>, user: Option<Vec<u8>> },
    /// The identity lookup call itself failed; like any other failed call
    /// against the subscription API, this abandons the current attempt.
    IdentityLookupFailed,
    /// Whether the requested subscription was created.
    SubscriptionCreated { ok: bool },
    /// Whether the consumer handler accepted the delivered notification.
    HandlerFinished { ok: bool },
}

pub enum SupEventV {
    Connected,
    ConnectFailed,
    TextFrame { body: Seq<u8> },
    NonTextFrame,
    StreamClosed,
    ResetDetected,
    TransportFailed,
    TokenStatus { expired: bool },
    TokenRefreshed { ok: bool },
    IdsResolved { broadcaster: Option<Seq<u8>>, user: Option<Seq<u8>> },
    IdentityLookupFailed,
    SubscriptionCreated { ok: bool },
    HandlerFinished { ok: bool },
}

impl View for SupEvent {
    type V = SupEventV;

    open spec fn view(&self) -> SupEventV {
        match self {
            SupEvent::Connected => SupEventV::Connected,
            SupEvent::ConnectFailed => SupEventV::ConnectFailed,
            SupEvent::TextFrame { body } => SupEventV::TextFrame { body: body@ },
            SupEvent::NonTextFrame => SupEventV::NonTextFrame,
            SupEvent::StreamClosed => SupEventV::StreamClosed,
            SupEvent::ResetDetected => SupEventV::ResetDetected,
            SupEvent::TransportFailed => SupEventV::TransportFailed,
            SupEvent::TokenStatus { expired } => SupEventV::TokenStatus { expired: *expired },
            SupEvent::TokenRefreshed { ok } => SupEventV::TokenRefreshed { ok: *ok },
            SupEvent::IdsResolved { broadcaster, user } => SupEventV::IdsResolved {
                broadcaster: match broadcaster {
                    Some(b) => Some(b@),
                    None => None,
                },
                user: match user {
                    Some(u) => Some(u@),
                    None => None,
                },
            },
            SupEvent::IdentityLookupFailed => SupEventV::IdentityLookupFailed,
            SupEvent::SubscriptionCreated { ok } => SupEventV::SubscriptionCreated { ok: *ok },
            SupEvent::HandlerFinished { ok } => SupEventV::HandlerFinished { ok: *ok },
        }
    }
}

/// The single piece of outside work `step` asks the driver to perform.
pub enum SupAction {
    /// Open a fresh transport connection (the old one, if any, is dead).
    OpenConnection,
    /// Ask the token service whether the held token is expired.
    CheckToken,
    /// Ask the token service to refresh the held token.
    RefreshToken,
    /// Resolve the two configured logins to identities.
    ResolveIdentities { broadcaster_login: Vec<u8>, user_login: Vec<u8> },
    /// Create this subscription against the subscription API.
    CreateSubscription { request: Subscription },
    /// Hand this notification to the consumer handler.
    Deliver { event: DomainEvent, timestamp: Vec<u8> },
    /// Nothing owed; read the next frame.
    Idle,
    /// The run is over; stop with this error.
    Stop { error: FatalError },
}

pub enum SupActionV {
    OpenConnection,
    CheckToken,
    RefreshToken,
    ResolveIdentities { broadcaster_login: Seq<u8>, user_login: Seq<u8> },
    CreateSubscription { request: SubscriptionV },
    Deliver { event: DomainEventV, timestamp: Seq<u8> },
    Idle,
    Stop { error: FatalError },
}

impl View for SupAction {
    type V = SupActionV;

    open spec fn view(&self) -> SupActionV {
        match self {
            SupAction::OpenConnection => SupActionV::OpenConnection,
            SupAction::CheckToken => SupActionV::CheckToken,
            SupAction::RefreshToken => SupActionV::RefreshToken,
            SupAction::ResolveIdentities { broadcaster_login, user_login } => {
                SupActionV::ResolveIdentities {
                    broadcaster_login: broadcaster_login@,
                    user_login: user_login@,
                }
            },
            SupAction::CreateSubscription { request } => SupActionV::CreateSubscription {
                request: request@,
            },
            SupAction::Deliver { event, timestamp } => SupActionV::Deliver {
                event: event@,
                timestamp: timestamp@,
            },
            SupAction::Idle => SupActionV::Idle,
            SupAction::Stop { error } => SupActionV::Stop { error: *error },
        }
    }
}

/// The supervisor: configuration, phase, and the subscriptions created for
/// the current session.
pub struct Supervisor {
    pub config: Config,
    pub phase: Phase,
    pub subscriptions: Vec<Subscription>,
}

/// Views of the created subscriptions, elementwise.
pub open spec fn subs_views(ss: Seq<Subscription>) -> Seq<SubscriptionV> {
    Seq::new(ss.len(), |i: int| ss[i]@)
}

pub struct SupervisorV {
    pub config: ConfigV,
    pub phase: PhaseV,
    pub subscriptions: Seq<SubscriptionV>,
}

impl View for Supervisor {
    type V = SupervisorV;

    open spec fn view(&self) -> SupervisorV {
        SupervisorV {
            config: self.config@,
            phase: self.phase@,
            subscriptions: subs_views(self.subscriptions@),
        }
    }
}

/// The online subscription for broadcaster `b`, bound to session `sid`.
pub open spec fn online_request(b: Seq<u8>, sid: Seq<u8>) -> SubscriptionV {
    SubscriptionV { kind: SubscriptionType::StreamOnline, targets: seq![b], session_id: sid }
}

/// The offline subscription for broadcaster `b`, bound to session `sid`.
pub open spec fn offline_request(b: Seq<u8>, sid: Seq<u8>) -> SubscriptionV {
    SubscriptionV { kind: SubscriptionType::StreamOffline, targets: seq![b], session_id: sid }
}

/// The chat subscription for broadcaster `b` as read by user `u`, bound to
/// session `sid`.
pub open spec fn chat_request(b: Seq<u8>, u: Seq<u8>, sid: Seq<u8>) -> SubscriptionV {
    SubscriptionV { kind: SubscriptionType::ChatMessage, targets: seq![b, u], session_id: sid }
}

/// Disconnected with nothing owed but a fresh connect.
pub open spec fn retry_state(c: ConfigV) -> SupervisorV {
    SupervisorV { config: c, phase: PhaseV::Connecting, subscriptions: seq![] }
}

/// Terminal failure.
pub open spec fn failed_state(c: ConfigV, error: FatalError) -> SupervisorV {
    SupervisorV { config: c, phase: PhaseV::Failed { error }, subscriptions: seq![] }
}

/// A new session was announced: the old subscriptions are stale and
/// dropped, and a registration pass begins with the token check.
pub open spec fn reg_state(c: ConfigV, sid: Seq<u8>) -> SupervisorV {
    SupervisorV {
        config: c,
        phase: PhaseV::Registering { session_id: sid, reg: RegPhaseV::CheckingToken },
        subscriptions: seq![],
    }
}

/// The whole protocol: what one event does to the supervisor, and which
/// single action the driver owes in return.
pub open spec fn sup_next(s: SupervisorV, e: SupEventV) -> (SupervisorV, SupActionV) {
    match s.phase {
        PhaseV::Connecting => match e {
            SupEventV::Connected => (
                SupervisorV { config: s.config, phase: PhaseV::AwaitingWelcome, subscriptions: s.subscriptions },
                SupActionV::Idle,
            ),
            SupEventV::ConnectFailed => (retry_state(s.config), SupActionV::OpenConnection),
            SupEventV::TransportFailed => (
                failed_state(s.config, FatalError::TransportFailed),
                SupActionV::Stop { error: FatalError::TransportFailed },
            ),
            _ => (s, SupActionV::Idle),
        },
        PhaseV::AwaitingWelcome => match e {
            SupEventV::TextFrame { body } => match sp_decode(body) {
                Ok(ProtocolMessageV::Welcome { session_id }) => (
                    reg_state(s.config, session_id),
                    SupActionV::CheckToken,
                ),
                Ok(ProtocolMessageV::Reconnect { session_id }) => (
                    reg_state(s.config, session_id),
                    SupActionV::CheckToken,
                ),
                Ok(_) => (retry_state(s.config), SupActionV::OpenConnection),
                Err(_) => (retry_state(s.config), SupActionV::OpenConnection),
            },
            SupEventV::NonTextFrame => (s, SupActionV::Idle),
            SupEventV::StreamClosed => (retry_state(s.config), SupActionV::OpenConnection),
            SupEventV::ResetDetected => (retry_state(s.config), SupActionV::OpenConnection),
            SupEventV::TransportFailed => (
                failed_state(s.config, FatalError::TransportFailed),
                SupActionV::Stop { error: FatalError::TransportFailed },
            ),
            _ => (s, SupActionV::Idle),
        },
        PhaseV::Registering { session_id, reg } => match e {
            SupEventV::TokenStatus { expired } => match reg {
                RegPhaseV::CheckingToken => if expired {
                    (
                        SupervisorV {
                            config: s.config,
                            phase: PhaseV::Registering {
                                session_id,
                                reg: RegPhaseV::RefreshingToken,
                            },
                            subscriptions: s.subscriptions,
                        },
                        SupActionV::RefreshToken,
                    )
                } else {
                    (
                        SupervisorV {
                            config: s.config,
                            phase: PhaseV::Registering { session_id, reg: RegPhaseV::ResolvingIds },
                            subscriptions: s.subscriptions,
                        },
                        SupActionV::ResolveIdentities {
                            broadcaster_login: s.config.broadcaster_login,
                            user_login: s.config.user_login,
                        },
                    )
                },
                _ => (s, SupActionV::Idle),
            },
            SupEventV::TokenRefreshed { ok } => match reg {
                RegPhaseV::RefreshingToken => if ok {
                    (
                        SupervisorV {
                            config: s.config,
                            phase: PhaseV::Registering { session_id, reg: RegPhaseV::ResolvingIds },
                            subscriptions: s.subscriptions,
                        },
                        SupActionV::ResolveIdentities {
                            broadcaster_login: s.config.broadcaster_login,
                            user_login: s.config.user_login,
                        },
                    )
                } else {
                    (retry_state(s.config), SupActionV::OpenConnection)
                },
                _ => (s, SupActionV::Idle),
            },
            SupEventV::IdsResolved { broadcaster, user } => match reg {
                RegPhaseV::ResolvingIds => match (broadcaster, user) {
                    (Some(b), Some(u)) => (
                        SupervisorV {
                            config: s.config,
                            phase: PhaseV::Registering {
                                session_id,
                                reg: RegPhaseV::CreatingOnline { broadcaster: b, user: u },
                            },
                            subscriptions: s.subscriptions,
                        },
                        SupActionV::CreateSubscription { request: online_request(b, session_id) },
                    ),
                    _ => (
                        failed_state(s.config, FatalError::IdentityNotFound),
                        SupActionV::Stop { error: FatalError::IdentityNotFound },
                    ),
                },
                _ => (s, SupActionV::Idle),
            },
            SupEventV::IdentityLookupFailed => match reg {
                RegPhaseV::ResolvingIds => (retry_state(s.config), SupActionV::OpenConnection),
                _ => (s, SupActionV::Idle),
            },
            SupEventV::SubscriptionCreated { ok } => if !ok {
                (retry_state(s.config), SupActionV::OpenConnection)
            } else {
                match reg {
                    RegPhaseV::CreatingOnline { broadcaster, user } => (
                        SupervisorV {
                            config: s.config,
                            phase: PhaseV::Registering {
                                session_id,
                                reg: RegPhaseV::CreatingOffline { broadcaster, user },
                            },
                            subscriptions: s.subscriptions.push(
                                online_request(broadcaster, session_id),
                            ),
                        },
                        SupActionV::CreateSubscription {
                            request: offline_request(broadcaster, session_id),
                        },
                    ),
                    RegPhaseV::CreatingOffline { broadcaster, user } => (
                        SupervisorV {
                            config: s.config,
                            phase: PhaseV::Registering {
                                session_id,
                                reg: RegPhaseV::CreatingChat { broadcaster, user },
                            },
                            subscriptions: s.subscriptions.push(
                                offline_request(broadcaster, session_id),
                            ),
                        },
                        SupActionV::CreateSubscription {
                            request: chat_request(broadcaster, user, session_id),
                        },
                    ),
                    RegPhaseV::CreatingChat { broadcaster, user } => (
                        SupervisorV {
                            config: s.config,
                            phase: PhaseV::Active { session_id },
                            subscriptions: s.subscriptions.push(
                                chat_request(broadcaster, user, session_id),
                            ),
                        },
                        SupActionV::Idle,
                    ),
                    _ => (s, SupActionV::Idle),
                }
            },
            SupEventV::StreamClosed => (retry_state(s.config), SupActionV::OpenConnection),
            SupEventV::ResetDetected => (retry_state(s.config), SupActionV::OpenConnection),
            SupEventV::TransportFailed => (
                failed_state(s.config, FatalError::TransportFailed),
                SupActionV::Stop { error: FatalError::TransportFailed },
            ),
            _ => (s, SupActionV::Idle),
        },
        PhaseV::Active { session_id } => match e {
            SupEventV::TextFrame { body } => match sp_decode(body) {
                Ok(ProtocolMessageV::Notification { event, timestamp }) => (
                    s,
                    SupActionV::Deliver { event, timestamp },
                ),
                Ok(ProtocolMessageV::Welcome { session_id: sid2 }) => (
                    reg_state(s.config, sid2),
                    SupActionV::CheckToken,
                ),
                Ok(ProtocolMessageV::Reconnect { session_id: sid2 }) => (
                    reg_state(s.config, sid2),
                    SupActionV::CheckToken,
                ),
                Ok(ProtocolMessageV::Keepalive) => (s, SupActionV::Idle),
                Err(_) => (retry_state(s.config), SupActionV::OpenConnection),
            },
            SupEventV::NonTextFrame => (s, SupActionV::Idle),
            SupEventV::StreamClosed => (retry_state(s.config), SupActionV::OpenConnection),
            SupEventV::ResetDetected => (retry_state(s.config), SupActionV::OpenConnection),
            SupEventV::TransportFailed => (
                failed_state(s.config, FatalError::TransportFailed),
                SupActionV::Stop { error: FatalError::TransportFailed },
            ),
            SupEventV::HandlerFinished { ok } => if ok {
                (s, SupActionV::Idle)
            } else {
                (
                    failed_state(s.config, FatalError::HandlerFailed),
                    SupActionV::Stop { error: FatalError::HandlerFailed },
                )
            },
            _ => (s, SupActionV::Idle),
        },
        PhaseV::Failed { error } => (s, SupActionV::Stop { error }),
    }
}

fn online_req(b: &Vec<u8>, sid: &Vec<u8>) -> (r: Subscription)
    ensures
        r@ == online_request(b@, sid@),
{
    let mut targets: Vec<Vec<u8>> = Vec::new();
    targets.push(copy_bytes(b));
    let r = Subscription {
        kind: SubscriptionType::StreamOnline,
        targets,
        session_id: copy_bytes(sid),
    };
    proof {
        assert(r@.targets =~= seq![b@]);
    }
    r
}

fn offline_req(b: &Vec<u8>, sid: &Vec<u8>) -> (r: Subscription)
    ensures
        r@ == offline_request(b@, sid@),
{
    let mut targets: Vec<Vec<u8>> = Vec::new();
    targets.push(copy_bytes(b));
    let r = Subscription {
        kind: SubscriptionType::StreamOffline,
        targets,
        session_id: copy_bytes(sid),
    };
    proof {
        assert(r@.targets =~= seq![b@]);
    }
    r
}

fn chat_req(b: &Vec<u8>, u: &Vec<u8>, sid: &Vec<u8>) -> (r: Subscription)
    ensures
        r@ == chat_request(b@, u@, sid@),
{
    let mut targets: Vec<Vec<u8>> = Vec::new();
    targets.push(copy_bytes(b));
    targets.push(copy_bytes(u));
    let r = Subscription {
        kind: SubscriptionType::ChatMessage,
        targets,
        session_id: copy_bytes(sid),
    };
    proof {
        assert(r@.targets =~= seq![b@, u@]);
    }
    r
}

fn go_connecting(config: Config) -> (r: (Supervisor, SupAction))
    ensures
        r.0@ == retry_state(config@),
        r.1@ == SupActionV::OpenConnection,
{
    let s = Supervisor { config, phase: Phase::Connecting, subscriptions: Vec::new() };
    proof {
        assert(s@.subscriptions =~= Seq::<SubscriptionV>::empty());
    }
    (s, SupAction::OpenConnection)
}

fn go_failed(config: Config, error: FatalError) -> (r: (Supervisor, SupAction))
    ensures
        r.0@ == failed_state(config@, error),
        r.1@ == (SupActionV::Stop { error }),
{
    let s = Supervisor { config, phase: Phase::Failed { error }, subscriptions: Vec::new() };
    proof {
        assert(s@.subscriptions =~= Seq::<SubscriptionV>::empty());
    }
    (s, SupAction::Stop { error })
}

fn go_registering(config: Config, session_id: Vec<u8>) -> (r: (Supervisor, SupAction))
    ensures
        r.0@ == reg_state(config@, session_id@),
        r.1@ == SupActionV::CheckToken,
{
    let ghost sid = session_id@;
    let s = Supervisor {
        config,
        phase: Phase::Registering { session_id, reg: RegPhase::CheckingToken },
        subscriptions: Vec::new(),
    };
    proof {
        assert(s@.subscriptions =~= Seq::<SubscriptionV>::empty());
    }
    (s, SupAction::CheckToken)
}

impl Supervisor {
    /// A fresh supervisor: disconnected, no session, no subscriptions. The
    /// driver owes it one connect attempt.
    pub fn new(config: Config) -> (r: Supervisor)
        ensures
            r@ == retry_state(config@),
    {
        let s = Supervisor { config, phase: Phase::Connecting, subscriptions: Vec::new() };
        proof {
            assert(s@.subscriptions =~= Seq::<SubscriptionV>::empty());
        }
        s
    }

    /// Consumes one event and returns the successor supervisor together
    /// with the one action the driver must perform: exactly what `sup_next`
    /// prescribes.
    pub fn step(self, ev: SupEvent) -> (r: (Supervisor, SupAction))
        ensures
            r.0@ == sup_next(self@, ev@).0,
            r.1@ == sup_next(self@, ev@).1,
    {
        let Supervisor { config, phase, subscriptions } = self;
        match phase {
            Phase::Connecting => match ev {
                SupEvent::Connected => (
                    Supervisor { config, phase: Phase::AwaitingWelcome, subscriptions },
                    SupAction::Idle,
                ),
                SupEvent::ConnectFailed => go_connecting(config),
                SupEvent::TransportFailed => go_failed(config, FatalError::TransportFailed),
                _ => (
                    Supervisor { config, phase: Phase::Connecting, subscriptions },
                    SupAction::Idle,
                ),
            },
            Phase::AwaitingWelcome => match ev {
                SupEvent::TextFrame { body } => match decode(&body) {
                    Ok(m) => match m {
                        ProtocolMessage::Welcome { session_id } => go_registering(
                            config,
                            session_id,
                        ),
                        ProtocolMessage::Reconnect { session_id } => go_registering(
                            config,
                            session_id,
                        ),
                        _ => go_connecting(config),
                    },
                    Err(_) => go_connecting(config),
                },
                SupEvent::NonTextFrame => (
                    Supervisor { config, phase: Phase::AwaitingWelcome, subscriptions },
                    SupAction::Idle,
                ),
                SupEvent::StreamClosed => go_connecting(config),
                SupEvent::ResetDetected => go_connecting(config),
                SupEvent::TransportFailed => go_failed(config, FatalError::TransportFailed),
                _ => (
                    Supervisor { config, phase: Phase::AwaitingWelcome, subscriptions },
                    SupAction::Idle,
                ),
            },
            Phase::Registering { session_id, reg } => match ev {
                SupEvent::TokenStatus { expired } => match reg {
                    RegPhase::CheckingToken => if expired {
                        (
                            Supervisor {
                                config,
                                phase: Phase::Registering {
                                    session_id,
                                    reg: RegPhase::RefreshingToken,
                                },
                                subscriptions,
                            },
                            SupAction::RefreshToken,
                        )
                    } else {
                        let broadcaster_login = copy_bytes(&config.broadcaster_login);
                        let user_login = copy_bytes(&config.user_login);
                        (
                            Supervisor {
                                config,
                                phase: Phase::Registering {
                                    session_id,
                                    reg: RegPhase::ResolvingIds,
                                },
                                subscriptions,
                            },
                            SupAction::ResolveIdentities { broadcaster_login, user_login },
                        )
                    },
                    other => (
                        Supervisor {
                            config,
                            phase: Phase::Registering { session_id, reg: other },
                            subscriptions,
                        },
                        SupAction::Idle,
                    ),
                },
                SupEvent::TokenRefreshed { ok } => match reg {
                    RegPhase::RefreshingToken => if ok {
                        let broadcaster_login = copy_bytes(&config.broadcaster_login);
                        let user_login = copy_bytes(&config.user_login);
                        (
                            Supervisor {
                                config,
                                phase: Phase::Registering {
                                    session_id,
                                    reg: RegPhase::ResolvingIds,
                                },
                                subscriptions,
                            },
                            SupAction::ResolveIdentities { broadcaster_login, user_login },
                        )
                    } else {
                        go_connecting(config)
                    },
                    other => (
                        Supervisor {
                            config,
                            phase: Phase::Registering { session_id, reg: other },
                            subscriptions,
                        },
                        SupAction::Idle,
                    ),
                },
                SupEvent::IdsResolved { broadcaster, user } => match reg {
                    RegPhase::ResolvingIds => match (broadcaster, user) {
                        (Some(b), Some(u)) => {
                            let request = online_req(&b, &session_id);
                            (
                                Supervisor {
                                    config,
                                    phase: Phase::Registering {
                                        session_id,
                                        reg: RegPhase::CreatingOnline { broadcaster: b, user: u },
                                    },
                                    subscriptions,
                                },
                                SupAction::CreateSubscription { request },
                            )
                        },
                        _ => go_failed(config, FatalError::IdentityNotFound),
                    },
                    other => (
                        Supervisor {
                            config,
                            phase: Phase::Registering { session_id, reg: other },
                            subscriptions,
                        },
                        SupAction::Idle,
                    ),
                },
                SupEvent::IdentityLookupFailed => match reg {
                    RegPhase::ResolvingIds => go_connecting(config),
                    other => (
                        Supervisor {
                            config,
                            phase: Phase::Registering { session_id, reg: other },
                            subscriptions,
                        },
                        SupAction::Idle,
                    ),
                },
                SupEvent::SubscriptionCreated { ok } => if !ok {
                    go_connecting(config)
                } else {
                    match reg {
                        RegPhase::CreatingOnline { broadcaster, user } => {
                            let ghost old_subs = subscriptions@;
                            let created = online_req(&broadcaster, &session_id);
                            let request = offline_req(&broadcaster, &session_id);
                            let ghost cg = created;
                            let mut subscriptions = subscriptions;
                            subscriptions.push(created);
                            proof {
                                assert(subs_views(subscriptions@) =~= subs_views(old_subs).push(
                                    cg@,
                                ));
                            }
                            (
                                Supervisor {
                                    config,
                                    phase: Phase::Registering {
                                        session_id,
                                        reg: RegPhase::CreatingOffline { broadcaster, user },
                                    },
                                    subscriptions,
                                },
                                SupAction::CreateSubscription { request },
                            )
                        },
                        RegPhase::CreatingOffline { broadcaster, user } => {
                            let ghost old_subs = subscriptions@;
                            let created = offline_req(&broadcaster, &session_id);
                            let request = chat_req(&broadcaster, &user, &session_id);
                            let ghost cg = created;
                            let mut subscriptions = subscriptions;
                            subscriptions.push(created);
                            proof {
                                assert(subs_views(subscriptions@) =~= subs_views(old_subs).push(
                                    cg@,
                                ));
                            }
                            (
                                Supervisor {
                                    config,
                                    phase: Phase::Registering {
                                        session_id,
                                        reg: RegPhase::CreatingChat { broadcaster, user },
                                    },
                                    subscriptions,
                                },
                                SupAction::CreateSubscription { request },
                            )
                        },
                        RegPhase::CreatingChat { broadcaster, user } => {
                            let ghost old_subs = subscriptions@;
                            let created = chat_req(&broadcaster, &user, &session_id);
                            let ghost cg = created;
                            let mut subscriptions = subscriptions;
                            subscriptions.push(created);
                            proof {
                                assert(subs_views(subscriptions@) =~= subs_views(old_subs).push(
                                    cg@,
                                ));
                            }
                            (
                                Supervisor {
                                    config,
                                    phase: Phase::Active { session_id },
                                    subscriptions,
                                },
                                SupAction::Idle,
                            )
                        },
                        other => (
                            Supervisor {
                                config,
                                phase: Phase::Registering { session_id, reg: other },
                                subscriptions,
                            },
                            SupAction::Idle,
                        ),
                    }
                },
                SupEvent::StreamClosed => go_connecting(config),
                SupEvent::ResetDetected => go_connecting(config),
                SupEvent::TransportFailed => go_failed(config, FatalError::TransportFailed),
                _ => (
                    Supervisor {
                        config,
                        phase: Phase::Registering { session_id, reg },
                        subscriptions,
                    },
                    SupAction::Idle,
                ),
            },
            Phase::Active { session_id } => match ev {
                SupEvent::TextFrame { body } => match decode(&body) {
                    Ok(m) => match m {
                        ProtocolMessage::Notification { event, timestamp } => (
                            Supervisor { config, phase: Phase::Active { session_id }, subscriptions },
                            SupAction::Deliver { event, timestamp },
                        ),
                        ProtocolMessage::Welcome { session_id: sid2 } => go_registering(
                            config,
                            sid2,
                        ),
                        ProtocolMessage::Reconnect { session_id: sid2 } => go_registering(
                            config,
                            sid2,
                        ),
                        ProtocolMessage::Keepalive => (
                            Supervisor { config, phase: Phase::Active { session_id }, subscriptions },
                            SupAction::Idle,
                        ),
                    },
                    Err(_) => go_connecting(config),
                },
                SupEvent::NonTextFrame => (
                    Supervisor { config, phase: Phase::Active { session_id }, subscriptions },
                    SupAction::Idle,
                ),
                SupEvent::StreamClosed => go_connecting(config),
                SupEvent::ResetDetected => go_connecting(config),
                SupEvent::TransportFailed => go_failed(config, FatalError::TransportFailed),
                SupEvent::HandlerFinished { ok } => if ok {
                    (
                        Supervisor { config, phase: Phase::Active { session_id }, subscriptions },
                        SupAction::Idle,
                    )
                } else {
                    go_failed(config, FatalError::HandlerFailed)
                },
                _ => (
                    Supervisor { config, phase: Phase::Active { session_id }, subscriptions },
                    SupAction::Idle,
                ),
            },
            Phase::Failed { error } => (
                Supervisor { config, phase: Phase::Failed { error }, subscriptions },
                SupAction::Stop { error },
            ),
        }
    }
}

/// The supervisor state after a sequence of events, starting from `s0`.
pub open spec fn run_state(s0: SupervisorV, es: Seq<SupEventV>) -> SupervisorV
    decreases es.len(),
{
    if es.len() == 0 {
        s0
    } else {
        sup_next(run_state(s0, es.drop_last()), es.last()).0
    }
}

/// The actions a run emits: one per event, in event order.
pub open spec fn run_actions(s0: SupervisorV, es: Seq<SupEventV>) -> Seq<SupActionV>
    decreases es.len(),
{
    if es.len() == 0 {
        seq![]
    } else {
        run_actions(s0, es.drop_last()).push(
            sup_next(run_state(s0, es.drop_last()), es.last()).1,
        )
    }
}

/// A run emits exactly one action per event.
pub proof fn lemma_run_len(s0: SupervisorV, es: Seq<SupEventV>)
    ensures
        run_actions(s0, es).len() == es.len(),
    decreases es.len(),
{
    if es.len() > 0 {
        lemma_run_len(s0, es.drop_last());
    }
}

/// The k-th action of a run is what the k-th event does to the state
/// reached just before it, and that step yields the next state.
pub proof fn lemma_run_index(s0: SupervisorV, es: Seq<SupEventV>, k: int)
    requires
        0 <= k < es.len(),
    ensures
        run_actions(s0, es)[k] == sup_next(run_state(s0, es.take(k)), es[k]).1,
        run_state(s0, es.take(k + 1)) == sup_next(run_state(s0, es.take(k)), es[k]).0,
    decreases es.len(),
{
    lemma_run_len(s0, es);
    lemma_run_len(s0, es.drop_last());
    if k == es.len() - 1 {
        assert(es.take(k) =~= es.drop_last());
        assert(es.take(k + 1) =~= es);
    } else {
        lemma_run_index(s0, es.drop_last(), k);
        assert(es.drop_last().take(k) =~= es.take(k));
        assert(es.drop_last().take(k + 1) =~= es.take(k + 1));
        assert(es.drop_last()[k] == es[k]);
        assert(run_actions(s0, es)[k] == run_actions(s0, es.drop_last())[k]);
    }
}

/// The notification a step delivers, if any: one is delivered exactly when
/// the machine stands active and the event is a text frame that decodes to
/// a notification.
pub open spec fn delivery_of(s: SupervisorV, e: SupEventV) -> Option<(DomainEventV, Seq<u8>)> {
    match e {
        SupEventV::TextFrame { body } => if s.phase is Active {
            match sp_decode(body) {
                Ok(ProtocolMessageV::Notification { event, timestamp }) => Some(
                    (event, timestamp),
                ),
                _ => None,
            }
        } else {
            None
        },
        _ => None,
    }
}

/// One step of P1: a notification is handed to the handler if and only if
/// it arrived as a text frame while the machine stood active; no other
/// state delivers, and nothing else is ever delivered.
pub proof fn lemma_delivery_characterization(s: SupervisorV, e: SupEventV)
    ensures
        match delivery_of(s, e) {
            Some((ev, ts)) => sup_next(s, e).1 == (SupActionV::Deliver {
                event: ev,
                timestamp: ts,
            }),
            None => !(sup_next(s, e).1 is Deliver),
        },
{
}

/// P1 over whole runs: the k-th action delivers a notification if and only
/// if the k-th event carried it while the machine stood active — that is,
/// strictly after the most recent welcome or reconnect handling completed
/// (`lemma_active_since`) and before any later connection loss.
pub proof fn lemma_delivery_over_run(s0: SupervisorV, es: Seq<SupEventV>, k: int)
    requires
        0 <= k < es.len(),
    ensures
        run_actions(s0, es).len() == es.len(),
        match delivery_of(run_state(s0, es.take(k)), es[k]) {
            Some((ev, ts)) => run_actions(s0, es)[k] == (SupActionV::Deliver {
                event: ev,
                timestamp: ts,
            }),
            None => !(run_actions(s0, es)[k] is Deliver),
        },
{
    lemma_run_len(s0, es);
    lemma_run_index(s0, es, k);
    lemma_delivery_characterization(run_state(s0, es.take(k)), es[k]);
}

/// The step that completes a registration pass: the machine stands in the
/// last creation stage and the subscription API reports success.
pub open spec fn completes_registration(s: SupervisorV, e: SupEventV) -> bool {
    &&& s.phase matches PhaseV::Registering { reg: RegPhaseV::CreatingChat { .. }, .. }
    &&& e == (SupEventV::SubscriptionCreated { ok: true })
}

/// A machine that was not active and becomes active in one step did so by
/// completing a registration pass.
pub proof fn lemma_activation_step(s: SupervisorV, e: SupEventV)
    requires
        !(s.phase is Active),
        sup_next(s, e).0.phase is Active,
    ensures
        completes_registration(s, e),
{
}

/// Whenever a run stands active, some earlier step completed a
/// registration pass, and every state since has stayed active: nothing is
/// delivered on a stale or half-registered connection.
pub proof fn lemma_active_since(s0: SupervisorV, es: Seq<SupEventV>)
    requires
        !(s0.phase is Active),
        run_state(s0, es).phase is Active,
    ensures
        exists|j: int|
            0 <= j < es.len() && completes_registration(
                run_state(s0, #[trigger] es.take(j)),
                es[j],
            ) && (forall|m: int|
                j < m <= es.len() ==> (#[trigger] run_state(s0, es.take(m))).phase is Active),
    decreases es.len(),
{
    let prev = run_state(s0, es.drop_last());
    let e = es.last();
    if prev.phase is Active {
        lemma_active_since(s0, es.drop_last());
        let j = choose|j: int|
            0 <= j < es.drop_last().len() && completes_registration(
                run_state(s0, #[trigger] es.drop_last().take(j)),
                es.drop_last()[j],
            ) && (forall|m: int|
                j < m <= es.drop_last().len() ==> (#[trigger] run_state(
                    s0,
                    es.drop_last().take(m),
                )).phase is Active);
        assert(es.drop_last().take(j) =~= es.take(j));
        assert(es.drop_last()[j] == es[j]);
        assert forall|m: int|
            j < m <= es.len() implies (#[trigger] run_state(s0, es.take(m))).phase is Active by {
            if m < es.len() {
                assert(es.take(m) =~= es.drop_last().take(m));
                assert(run_state(s0, es.drop_last().take(m)).phase is Active);
            } else {
                assert(es.take(m) =~= es);
            }
        }
        assert(0 <= j < es.len() && completes_registration(run_state(s0, es.take(j)), es[j]) && (
        forall|m: int|
            j < m <= es.len() ==> (#[trigger] run_state(s0, es.take(m))).phase is Active));
    } else {
        lemma_activation_step(prev, e);
        let j = es.len() - 1;
        assert(es.take(j) =~= es.drop_last());
        assert forall|m: int|
            j < m <= es.len() implies (#[trigger] run_state(s0, es.take(m))).phase is Active by {
            assert(m == es.len());
            assert(es.take(m) =~= es);
        }
        assert(0 <= j < es.len() && completes_registration(run_state(s0, es.take(j)), es[j]) && (
        forall|m: int|
            j < m <= es.len() ==> (#[trigger] run_state(s0, es.take(m))).phase is Active));
    }
}

/// Which events keep an active connection active: everything except a
/// session-replacing or malformed frame, a connection loss, a transport
/// fault, or a handler failure.
pub open spec fn keeps_active(e: SupEventV) -> bool {
    match e {
        SupEventV::TextFrame { body } => match sp_decode(body) {
            Ok(ProtocolMessageV::Notification { .. }) => true,
            Ok(ProtocolMessageV::Keepalive) => true,
            _ => false,
        },
        SupEventV::NonTextFrame => true,
        SupEventV::HandlerFinished { ok } => ok,
        SupEventV::StreamClosed => false,
        SupEventV::ResetDetected => false,
        SupEventV::TransportFailed => false,
        SupEventV::Connected => true,
        SupEventV::ConnectFailed => true,
        SupEventV::TokenStatus { .. } => true,
        SupEventV::TokenRefreshed { .. } => true,
        SupEventV::IdsResolved { .. } => true,
        SupEventV::IdentityLookupFailed => true,
        SupEventV::SubscriptionCreated { .. } => true,
    }
}

/// An active machine stays active on exactly the `keeps_active` events,
/// and such an event changes nothing: same session, same subscriptions.
pub proof fn lemma_active_preserved(s: SupervisorV, e: SupEventV)
    requires
        s.phase is Active,
    ensures
        (sup_next(s, e).0.phase is Active) == keeps_active(e),
        keeps_active(e) ==> sup_next(s, e).0 == s,
{
}

/// The converse half of P1: once a registration pass has completed, the
/// machine stands active — and so delivers notifications — at every later
/// point, as long as every event in between kept the connection alive.
pub proof fn lemma_active_until_disruption(s0: SupervisorV, es: Seq<SupEventV>, j: int, k: int)
    requires
        0 <= j < k <= es.len(),
        completes_registration(run_state(s0, es.take(j)), es[j]),
        forall|m: int| j < m < k ==> keeps_active(#[trigger] es[m]),
    ensures
        run_state(s0, es.take(k)).phase is Active,
    decreases k,
{
    if k == j + 1 {
        lemma_run_index(s0, es, j);
    } else {
        lemma_active_until_disruption(s0, es, j, k - 1);
        lemma_run_index(s0, es, k - 1);
        lemma_active_preserved(run_state(s0, es.take(k - 1)), es[k - 1]);
    }
}

/// The session a phase is bound to, if any.
pub open spec fn phase_session(p: PhaseV) -> Option<Seq<u8>> {
    match p {
        PhaseV::Registering { session_id, .. } => Some(session_id),
        PhaseV::Active { session_id } => Some(session_id),
        _ => None,
    }
}

/// Every created subscription is bound to the current session.
pub open spec fn subs_bound(s: SupervisorV) -> bool {
    forall|i: int|
        0 <= i < s.subscriptions.len() ==> Some(
            (#[trigger] s.subscriptions[i]).session_id,
        ) == phase_session(s.phase)
}

/// One step of P2: re-registration is idempotent in the sense that no
/// subscription ever references a superseded session — a welcome or
/// reconnect drops the old set before registering, and every creation
/// binds the session under registration.
pub proof fn lemma_step_keeps_binding(s: SupervisorV, e: SupEventV)
    requires
        subs_bound(s),
    ensures
        subs_bound(sup_next(s, e).0),
{
}

/// P2 over whole runs: starting with nothing registered, all subscriptions
/// are bound to the latest session at every point.
pub proof fn lemma_run_keeps_binding(s0: SupervisorV, es: Seq<SupEventV>)
    requires
        subs_bound(s0),
    ensures
        subs_bound(run_state(s0, es)),
    decreases es.len(),
{
    if es.len() > 0 {
        lemma_run_keeps_binding(s0, es.drop_last());
        lemma_step_keeps_binding(run_state(s0, es.drop_last()), es.last());
    }
}

/// P3 and P7: the recognized abrupt reset while active asks for exactly
/// one new connect, surfaces no error, and sends the machine back through
/// Connecting toward a fresh welcome.
pub proof fn lemma_reset_recovery(s: SupervisorV, e: SupEventV)
    requires
        s.phase is Active,
        e is ResetDetected,
    ensures
        sup_next(s, e).1 == SupActionV::OpenConnection,
        sup_next(s, e).0.phase is Connecting,
{
}

/// Extending a run never revises what was already emitted: deliveries made
/// for frames received before a reset are untouched by it (the no-loss
/// half of P3).
pub proof fn lemma_trace_prefix(s0: SupervisorV, es: Seq<SupEventV>, k: int)
    requires
        0 <= k <= es.len(),
    ensures
        run_actions(s0, es).take(k) =~= run_actions(s0, es.take(k)),
{
    lemma_run_len(s0, es);
    lemma_run_len(s0, es.take(k));
    assert forall|i: int| 0 <= i < k implies run_actions(s0, es).take(k)[i] == run_actions(
        s0,
        es.take(k),
    )[i] by {
        lemma_run_index(s0, es, i);
        lemma_run_index(s0, es.take(k), i);
        assert(es.take(k).take(i) =~= es.take(i));
        assert(es.take(k)[i] == es[i]);
    }
}

/// P4: two notifications arriving in order are delivered in that order —
/// each delivery occupies its arrival position in the trace, so the
/// earlier arrival stands earlier among the emitted actions.
pub proof fn lemma_order_preservation(s0: SupervisorV, es: Seq<SupEventV>, k1: int, k2: int)
    requires
        0 <= k1 < k2 < es.len(),
        delivery_of(run_state(s0, es.take(k1)), es[k1]) is Some,
        delivery_of(run_state(s0, es.take(k2)), es[k2]) is Some,
    ensures
        run_actions(s0, es)[k1] is Deliver,
        run_actions(s0, es)[k2] is Deliver,
{
    lemma_delivery_over_run(s0, es, k1);
    lemma_delivery_over_run(s0, es, k2);
}

} // verus!
