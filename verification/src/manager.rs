//! The connection manager: the state machine that brings the session up,
//! keeps it up, and takes it down for sleep.
//!
//! The manager decides; the caller acts. Each step takes the event that the
//! caller reports and gives back the actions to perform, in order. An action
//! that can fail is answered with the event that says how it went.

use crate::locator::{ServerLocator, ipv4_from_text, ipv4_parse};
use crate::state::{DeviceFlags, SignaledGlobalStateInner};
use vstd::prelude::*;

verus! {

/// How long a connection attempt may take, in seconds.
pub const CONNECT_TIMEOUT_SECS: u64 = 15;

/// How long to wait after a name could not be resolved, in milliseconds.
pub const RESOLVE_RETRY_MS: u64 = 1000;

/// How long to wait after a handshake or an upgrade failed, in milliseconds.
pub const HANDSHAKE_RETRY_MS: u64 = 500;

/// How long to wait before the restart that follows a session lost during
/// an update, in milliseconds.
pub const UPDATE_RESTART_DELAY_MS: u64 = 5000;

/// Where the session stands.
#[derive(Debug, Clone, Copy, PartialEq, Eq)]
pub enum ConnState {
    /// Nothing has been tried yet.
    Idle,
    /// No connection; the next attempt follows the backoff.
    Disconnected,
    /// The server's name is being resolved.
    Resolving,
    /// The stream is being opened.
    TcpConnecting,
    /// The transport security is being set up.
    SecurityHandshake,
    /// The upgrade request is on its way, or its answer is awaited.
    ProtocolUpgrade,
    /// The session is open and frames flow.
    Open,
    /// The device sleeps: nothing is resolved, connected, read or written.
    Suspended,
    /// The device is about to restart.
    Restarting,
}

/// What the manager needs to know of the server.
#[derive(Debug, Clone, Copy, PartialEq, Eq)]
pub struct Endpoint {
    /// The address, where the host name is a numeric address already.
    pub literal: Option<[u8; 4]>,
    pub port: u16,
    /// Whether the stream is to be secured.
    pub secure: bool,
    /// How long to wait after a failed connection or a lost session.
    pub retry_ms: u64,
}

/// How reading the answer to the upgrade request went.
#[derive(Debug, Clone, Copy, PartialEq, Eq)]
pub enum UpgradeRead {
    /// The read failed or gave no bytes, or the receiver could not read
    /// the response.
    Failed,
    /// No status code has been seen yet.
    Partial,
    /// The status code of the answer.
    Code(u16),
}

/// What the caller reports.
#[derive(Debug, Clone, Copy, PartialEq, Eq)]
pub enum ConnEvent {
    /// The manager's task has started.
    Started,
    /// The sleep level changed to the given value.
    SleepChanged(bool),
    /// The wait that an action asked for is over.
    BackoffElapsed,
    /// The name was resolved to an address, or was not.
    Resolved(Option<[u8; 4]>),
    /// The stream was opened, or was not.
    ConnectDone(bool),
    /// The transport security was set up, or was not.
    HandshakeDone(bool),
    /// The upgrade request was written, or was not.
    UpgradeSent(bool),
    /// A read of the answer to the upgrade request ended.
    UpgradeAnswered(UpgradeRead),
    /// The open session failed: a read or a write failed, the peer closed,
    /// or the flash refused an image.
    SessionEnded,
}

/// What the caller is to do.
#[derive(Debug, Clone, Copy, PartialEq, Eq)]
pub enum ConnAction {
    /// Switch the connection light.
    SetLed(bool),
    /// Resolve the server's name and report `Resolved`.
    Resolve,
    /// Open a stream to the address and report `ConnectDone`.
    Connect { address: [u8; 4], port: u16, timeout_secs: u64 },
    /// Secure the stream under the server's name and report `HandshakeDone`.
    Handshake,
    /// Write the upgrade request and report `UpgradeSent`.
    SendUpgrade,
    /// Read more of the answer and report `UpgradeAnswered`.
    ReadUpgrade,
    /// Wake the tasks that wait for the first connection.
    SignalConnected,
    /// Put a probe frame on the outbound queue.
    KeepAlive,
    /// Serve the open session until it fails, then report `SessionEnded`.
    Serve,
    /// Drop the stream and whatever is under way on it.
    Close,
    /// Wait this many milliseconds, then report `BackoffElapsed`.
    Wait(u64),
    /// Restart the device.
    Restart,
}

/// The first step of an attempt: a numeric address is connected to at once,
/// a name is resolved first.
pub open spec fn attempt(endpoint: Endpoint) -> (ConnState, Seq<ConnAction>) {
    match endpoint.literal {
        Some(address) => (
            ConnState::TcpConnecting,
            seq![
                ConnAction::Connect {
                    address,
                    port: endpoint.port,
                    timeout_secs: CONNECT_TIMEOUT_SECS,
                },
            ],
        ),
        None => (ConnState::Resolving, seq![ConnAction::Resolve]),
    }
}

/// The first step of an attempt that follows a time without a connection
/// light to switch off.
pub open spec fn fresh_attempt(endpoint: Endpoint) -> (ConnState, Seq<ConnAction>) {
    (attempt(endpoint).0, seq![ConnAction::SetLed(false)] + attempt(endpoint).1)
}

/// The end of an attempt or of a session: the stream is dropped, the light
/// goes out, and after the backoff a new attempt begins.
pub open spec fn failure(backoff_ms: u64) -> (ConnState, Seq<ConnAction>) {
    (
        ConnState::Disconnected,
        seq![ConnAction::Close, ConnAction::SetLed(false), ConnAction::Wait(backoff_ms)],
    )
}

/// The state and the actions that follow an event. `updating` says whether
/// a firmware update is under way.
pub open spec fn next(state: ConnState, event: ConnEvent, endpoint: Endpoint, updating: bool) -> (
    ConnState,
    Seq<ConnAction>,
) {
    let stay = (state, Seq::<ConnAction>::empty());
    match state {
        ConnState::Restarting => stay,
        ConnState::Suspended => match event {
            ConnEvent::SleepChanged(false) => fresh_attempt(endpoint),
            _ => stay,
        },
        _ => match event {
            ConnEvent::SleepChanged(true) => (
                ConnState::Suspended,
                seq![ConnAction::Close, ConnAction::SetLed(false)],
            ),
            ConnEvent::SleepChanged(false) => stay,
            _ => match state {
                ConnState::Idle => match event {
                    ConnEvent::Started => fresh_attempt(endpoint),
                    _ => stay,
                },
                ConnState::Disconnected => match event {
                    ConnEvent::BackoffElapsed => attempt(endpoint),
                    _ => stay,
                },
                ConnState::Resolving => match event {
                    ConnEvent::Resolved(Some(address)) => (
                        ConnState::TcpConnecting,
                        seq![
                            ConnAction::Connect {
                                address,
                                port: endpoint.port,
                                timeout_secs: CONNECT_TIMEOUT_SECS,
                            },
                        ],
                    ),
                    ConnEvent::Resolved(None) => failure(RESOLVE_RETRY_MS),
                    _ => stay,
                },
                ConnState::TcpConnecting => match event {
                    ConnEvent::ConnectDone(true) => if endpoint.secure {
                        (ConnState::SecurityHandshake, seq![ConnAction::Handshake])
                    } else {
                        (ConnState::ProtocolUpgrade, seq![ConnAction::SendUpgrade])
                    },
                    ConnEvent::ConnectDone(false) => failure(endpoint.retry_ms),
                    _ => stay,
                },
                ConnState::SecurityHandshake => match event {
                    ConnEvent::HandshakeDone(true) => (
                        ConnState::ProtocolUpgrade,
                        seq![ConnAction::SendUpgrade],
                    ),
                    ConnEvent::HandshakeDone(false) => failure(HANDSHAKE_RETRY_MS),
                    _ => stay,
                },
                ConnState::ProtocolUpgrade => match event {
                    ConnEvent::UpgradeSent(true) => (
                        ConnState::ProtocolUpgrade,
                        seq![ConnAction::ReadUpgrade],
                    ),
                    ConnEvent::UpgradeSent(false) => failure(HANDSHAKE_RETRY_MS),
                    ConnEvent::UpgradeAnswered(UpgradeRead::Partial) => (
                        ConnState::ProtocolUpgrade,
                        seq![ConnAction::ReadUpgrade],
                    ),
                    ConnEvent::UpgradeAnswered(UpgradeRead::Failed) => failure(
                        HANDSHAKE_RETRY_MS,
                    ),
                    ConnEvent::UpgradeAnswered(UpgradeRead::Code(_)) => (
                        ConnState::Open,
                        seq![
                            ConnAction::SetLed(true),
                            ConnAction::SignalConnected,
                            ConnAction::KeepAlive,
                            ConnAction::Serve,
                        ],
                    ),
                    _ => stay,
                },
                ConnState::Open => match event {
                    ConnEvent::SessionEnded => if updating {
                        (
                            ConnState::Restarting,
                            seq![
                                ConnAction::Close,
                                ConnAction::SetLed(false),
                                ConnAction::Wait(UPDATE_RESTART_DELAY_MS),
                                ConnAction::Restart,
                            ],
                        )
                    } else {
                        failure(endpoint.retry_ms)
                    },
                    _ => stay,
                },
                _ => stay,
            },
        },
    }
}

/// What the shared state says of the connection in each state of the
/// manager: nothing before the first attempt, connected while the session
/// is open, and not connected at any other time.
pub open spec fn connected_flag(state: ConnState) -> Option<bool> {
    match state {
        ConnState::Idle => None,
        ConnState::Open => Some(true),
        _ => Some(false),
    }
}

impl Endpoint {
    /// What the manager needs of a locator.
    pub fn new(locator: &ServerLocator, retry_ms: u64) -> (endpoint: Endpoint)
        ensures
            endpoint.port == locator.port,
            endpoint.secure == locator.secure,
            endpoint.retry_ms == retry_ms,
            ipv4_parse(locator.hostname@) == (match endpoint.literal {
                Some(address) => Some(address@),
                None => None,
            }),
    {
        Endpoint {
            literal: ipv4_from_text(locator.hostname.as_str()),
            port: locator.port,
            secure: locator.secure,
            retry_ms,
        }
    }
}

/// The owner of the connection's state.
#[derive(Debug, Clone, Copy, PartialEq, Eq)]
pub struct ConnectionManager {
    pub state: ConnState,
}

fn attempt_now(endpoint: &Endpoint) -> (step: (ConnState, Vec<ConnAction>))
    ensures
        (step.0, step.1@) == attempt(*endpoint),
{
    match endpoint.literal {
        Some(address) => (
            ConnState::TcpConnecting,
            vec![
                ConnAction::Connect {
                    address,
                    port: endpoint.port,
                    timeout_secs: CONNECT_TIMEOUT_SECS,
                },
            ],
        ),
        None => (ConnState::Resolving, vec![ConnAction::Resolve]),
    }
}

fn fresh_attempt_now(endpoint: &Endpoint) -> (step: (ConnState, Vec<ConnAction>))
    ensures
        (step.0, step.1@) == fresh_attempt(*endpoint),
{
    let (state, first) = attempt_now(endpoint);
    let mut actions: Vec<ConnAction> = vec![ConnAction::SetLed(false)];
    let mut i: usize = 0;
    while i < first.len()
        invariant
            i <= first.len(),
            actions@ == seq![ConnAction::SetLed(false)] + first@.take(i as int),
        decreases first.len() - i,
    {
        actions.push(first[i]);
        i += 1;
    }
    (state, actions)
}

fn failure_now(backoff_ms: u64) -> (step: (ConnState, Vec<ConnAction>))
    ensures
        (step.0, step.1@) == failure(backoff_ms),
{
    (
        ConnState::Disconnected,
        vec![ConnAction::Close, ConnAction::SetLed(false), ConnAction::Wait(backoff_ms)],
    )
}

impl ConnectionManager {
    /// A manager that has not tried anything yet.
    pub fn new() -> (manager: Self)
        ensures
            manager.state == ConnState::Idle,
    {
        ConnectionManager { state: ConnState::Idle }
    }

    /// Takes an event and says what to do. The shared state follows the
    /// manager's state; the second result says whether it changed, so that
    /// the caller can wake the tasks that wait for a change.
    pub fn step(
        &mut self,
        event: ConnEvent,
        endpoint: &Endpoint,
        shared: &mut SignaledGlobalStateInner,
        flags: &DeviceFlags,
    ) -> (outcome: (Vec<ConnAction>, bool))
        ensures
            (final(self).state, outcome.0@) == next(old(self).state, event, *endpoint, flags.ota),
            *final(shared) == (SignaledGlobalStateInner {
                server_connected: connected_flag(final(self).state),
                ..*old(shared)
            }),
            outcome.1 == (*final(shared) != *old(shared)),
    {
        let stay: Vec<ConnAction> = Vec::new();
        let (state, actions) = match self.state {
            ConnState::Restarting => (self.state, stay),
            ConnState::Suspended => match event {
                ConnEvent::SleepChanged(false) => fresh_attempt_now(endpoint),
                _ => (self.state, stay),
            },
            _ => match event {
                ConnEvent::SleepChanged(true) => (
                    ConnState::Suspended,
                    vec![ConnAction::Close, ConnAction::SetLed(false)],
                ),
                ConnEvent::SleepChanged(false) => (self.state, stay),
                _ => match self.state {
                    ConnState::Idle => match event {
                        ConnEvent::Started => fresh_attempt_now(endpoint),
                        _ => (self.state, stay),
                    },
                    ConnState::Disconnected => match event {
                        ConnEvent::BackoffElapsed => attempt_now(endpoint),
                        _ => (self.state, stay),
                    },
                    ConnState::Resolving => match event {
                        ConnEvent::Resolved(Some(address)) => (
                            ConnState::TcpConnecting,
                            vec![
                                ConnAction::Connect {
                                    address,
                                    port: endpoint.port,
                                    timeout_secs: CONNECT_TIMEOUT_SECS,
                                },
                            ],
                        ),
                        ConnEvent::Resolved(None) => failure_now(RESOLVE_RETRY_MS),
                        _ => (self.state, stay),
                    },
                    ConnState::TcpConnecting => match event {
                        ConnEvent::ConnectDone(true) => if endpoint.secure {
                            (ConnState::SecurityHandshake, vec![ConnAction::Handshake])
                        } else {
                            (ConnState::ProtocolUpgrade, vec![ConnAction::SendUpgrade])
                        },
                        ConnEvent::ConnectDone(false) => failure_now(endpoint.retry_ms),
                        _ => (self.state, stay),
                    },
                    ConnState::SecurityHandshake => match event {
                        ConnEvent::HandshakeDone(true) => (
                            ConnState::ProtocolUpgrade,
                            vec![ConnAction::SendUpgrade],
                        ),
                        ConnEvent::HandshakeDone(false) => failure_now(HANDSHAKE_RETRY_MS),
                        _ => (self.state, stay),
                    },
                    ConnState::ProtocolUpgrade => match event {
                        ConnEvent::UpgradeSent(true) => (
                            ConnState::ProtocolUpgrade,
                            vec![ConnAction::ReadUpgrade],
                        ),
                        ConnEvent::UpgradeSent(false) => failure_now(HANDSHAKE_RETRY_MS),
                        ConnEvent::UpgradeAnswered(UpgradeRead::Partial) => (
                            ConnState::ProtocolUpgrade,
                            vec![ConnAction::ReadUpgrade],
                        ),
                        ConnEvent::UpgradeAnswered(UpgradeRead::Failed) => failure_now(
                            HANDSHAKE_RETRY_MS,
                        ),
                        ConnEvent::UpgradeAnswered(UpgradeRead::Code(_)) => (
                            ConnState::Open,
                            vec![
                                ConnAction::SetLed(true),
                                ConnAction::SignalConnected,
                                ConnAction::KeepAlive,
                                ConnAction::Serve,
                            ],
                        ),
                        _ => (self.state, stay),
                    },
                    ConnState::Open => match event {
                        ConnEvent::SessionEnded => if flags.ota {
                            (
                                ConnState::Restarting,
                                vec![
                                    ConnAction::Close,
                                    ConnAction::SetLed(false),
                                    ConnAction::Wait(UPDATE_RESTART_DELAY_MS),
                                    ConnAction::Restart,
                                ],
                            )
                        } else {
                            failure_now(endpoint.retry_ms)
                        },
                        _ => (self.state, stay),
                    },
                    _ => (self.state, stay),
                },
            },
        };
        let connected = match state {
            ConnState::Idle => None,
            ConnState::Open => Some(true),
            _ => Some(false),
        };
        let changed = match (shared.server_connected, connected) {
            (None, None) => false,
            (Some(before), Some(after)) => before != after,
            _ => true,
        };
        self.state = state;
        shared.server_connected = connected;
        (actions, changed)
    }
}

/// The state after a row of events.
pub open spec fn run(state: ConnState, events: Seq<ConnEvent>, endpoint: Endpoint, updating: bool) -> ConnState
    decreases events.len(),
{
    if events.len() == 0 {
        state
    } else {
        next(run(state, events.drop_last(), endpoint, updating), events.last(), endpoint, updating).0
    }
}

/// The events of an attempt in which everything goes well: the name
/// resolves to `address` where it has to be resolved, the stream opens, the
/// handshake succeeds where there is one, the upgrade request is written
/// and the answer carries `code`.
pub open spec fn bring_up(endpoint: Endpoint, address: [u8; 4], code: u16) -> Seq<ConnEvent> {
    let resolve = if endpoint.literal is None {
        seq![ConnEvent::Resolved(Some(address))]
    } else {
        Seq::empty()
    };
    let handshake = if endpoint.secure {
        seq![ConnEvent::HandshakeDone(true)]
    } else {
        Seq::empty()
    };
    resolve + seq![ConnEvent::ConnectDone(true)] + handshake + seq![
        ConnEvent::UpgradeSent(true),
        ConnEvent::UpgradeAnswered(UpgradeRead::Code(code)),
    ]
}

/// Every state on the way through a row of events, but the last, says that
/// the server is not connected.
pub open spec fn disconnected_until_last(
    state: ConnState,
    events: Seq<ConnEvent>,
    endpoint: Endpoint,
    updating: bool,
) -> bool {
    forall|n: int|
        1 <= n < events.len() ==> connected_flag(
            #[trigger] run(state, events.take(n), endpoint, updating),
        ) == Some(false)
}

/// Running one event more is one step more.
pub proof fn lemma_run_push(
    state: ConnState,
    events: Seq<ConnEvent>,
    event: ConnEvent,
    endpoint: Endpoint,
    updating: bool,
)
    ensures
        run(state, events.push(event), endpoint, updating) == next(
            run(state, events, endpoint, updating),
            event,
            endpoint,
            updating,
        ).0,
{
    assert(events.push(event).drop_last() =~= events);
}

/// When sleep is asserted the manager drops the stream and suspends,
/// whatever it was doing, unless the device is about to restart; the shared
/// state then says that the server is not connected.
pub proof fn lemma_sleep_suspends(state: ConnState, endpoint: Endpoint, updating: bool)
    requires
        state != ConnState::Restarting,
    ensures
        next(state, ConnEvent::SleepChanged(true), endpoint, updating).0 == ConnState::Suspended,
        state != ConnState::Suspended ==> next(
            state,
            ConnEvent::SleepChanged(true),
            endpoint,
            updating,
        ).1 == seq![ConnAction::Close, ConnAction::SetLed(false)],
        connected_flag(ConnState::Suspended) == Some(false),
{
}

/// While the manager is suspended nothing happens: every event but the
/// clearing of sleep leaves it suspended and asks for no action.
pub proof fn lemma_suspended_is_quiet(event: ConnEvent, endpoint: Endpoint, updating: bool)
    requires
        event != ConnEvent::SleepChanged(false),
    ensures
        next(ConnState::Suspended, event, endpoint, updating) == (
            ConnState::Suspended,
            Seq::<ConnAction>::empty(),
        ),
{
}

/// When sleep is cleared a fresh attempt begins at once, without a backoff,
/// and if everything goes well it ends in an open session; until then the
/// shared state says that the server is not connected.
pub proof fn lemma_wake_reconnects(endpoint: Endpoint, address: [u8; 4], code: u16, updating: bool)
    ensures
        next(ConnState::Suspended, ConnEvent::SleepChanged(false), endpoint, updating)
            == fresh_attempt(endpoint),
        run(
            ConnState::Suspended,
            seq![ConnEvent::SleepChanged(false)] + bring_up(endpoint, address, code),
            endpoint,
            updating,
        ) == ConnState::Open,
        disconnected_until_last(
            ConnState::Suspended,
            seq![ConnEvent::SleepChanged(false)] + bring_up(endpoint, address, code),
            endpoint,
            updating,
        ),
{
    lemma_attempt_opens(
        ConnState::Suspended,
        ConnEvent::SleepChanged(false),
        endpoint,
        address,
        code,
        updating,
    );
}

/// From power-up the shared state says nothing of the connection; from the
/// start of the manager on it says that the server is not connected; and
/// with the event that opens the session it says that it is.
pub proof fn lemma_first_connection(endpoint: Endpoint, address: [u8; 4], code: u16, updating: bool)
    ensures
        connected_flag(ConnState::Idle) is None,
        run(
            ConnState::Idle,
            seq![ConnEvent::Started] + bring_up(endpoint, address, code),
            endpoint,
            updating,
        ) == ConnState::Open,
        disconnected_until_last(
            ConnState::Idle,
            seq![ConnEvent::Started] + bring_up(endpoint, address, code),
            endpoint,
            updating,
        ),
        connected_flag(ConnState::Open) == Some(true),
{
    lemma_attempt_opens(ConnState::Idle, ConnEvent::Started, endpoint, address, code, updating);
}

/// The shared state says that the server is connected exactly while the
/// session is open.
pub proof fn lemma_connected_means_open(state: ConnState)
    ensures
        connected_flag(state) == Some(true) <==> state == ConnState::Open,
{
}

/// An attempt that `first` sets off from `state`, and in which everything
/// goes well, ends in an open session and passes only through states that
/// say that the server is not connected.
proof fn lemma_attempt_opens(
    state: ConnState,
    first: ConnEvent,
    endpoint: Endpoint,
    address: [u8; 4],
    code: u16,
    updating: bool,
)
    requires
        next(state, first, endpoint, updating) == fresh_attempt(endpoint),
    ensures
        run(state, seq![first] + bring_up(endpoint, address, code), endpoint, updating)
            == ConnState::Open,
        disconnected_until_last(
            state,
            seq![first] + bring_up(endpoint, address, code),
            endpoint,
            updating,
        ),
{
    let events = seq![first] + bring_up(endpoint, address, code);
    let e0 = Seq::<ConnEvent>::empty();
    let e1 = e0.push(first);
    lemma_run_push(state, e0, first, endpoint, updating);
    let e2 = if endpoint.literal is None {
        e1.push(ConnEvent::Resolved(Some(address)))
    } else {
        e1
    };
    if endpoint.literal is None {
        lemma_run_push(state, e1, ConnEvent::Resolved(Some(address)), endpoint, updating);
    }
    let e3 = e2.push(ConnEvent::ConnectDone(true));
    lemma_run_push(state, e2, ConnEvent::ConnectDone(true), endpoint, updating);
    let e4 = if endpoint.secure {
        e3.push(ConnEvent::HandshakeDone(true))
    } else {
        e3
    };
    if endpoint.secure {
        lemma_run_push(state, e3, ConnEvent::HandshakeDone(true), endpoint, updating);
    }
    let e5 = e4.push(ConnEvent::UpgradeSent(true));
    lemma_run_push(state, e4, ConnEvent::UpgradeSent(true), endpoint, updating);
    let e6 = e5.push(ConnEvent::UpgradeAnswered(UpgradeRead::Code(code)));
    lemma_run_push(
        state,
        e5,
        ConnEvent::UpgradeAnswered(UpgradeRead::Code(code)),
        endpoint,
        updating,
    );
    assert(e6 =~= events);
    assert forall|n: int| 1 <= n < events.len() implies connected_flag(
        #[trigger] run(state, events.take(n), endpoint, updating),
    ) == Some(false) by {
        let prefix = events.take(n);
        if prefix.len() == e1.len() {
            assert(prefix =~= e1);
        } else if prefix.len() == e2.len() {
            assert(prefix =~= e2);
        } else if prefix.len() == e3.len() {
            assert(prefix =~= e3);
        } else if prefix.len() == e4.len() {
            assert(prefix =~= e4);
        } else {
            assert(prefix =~= e5);
        }
    }
}

} // verus!
