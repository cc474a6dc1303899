use staffat_firmware::locator::ServerLocator;
use staffat_firmware::manager::{
    ConnAction, ConnEvent, ConnState, ConnectionManager, Endpoint, UpgradeRead,
};
use staffat_firmware::state::{DeviceFlags, SignaledGlobalStateInner};

const ADDRESS: [u8; 4] = [192, 168, 1, 10];

fn by_name(secure: bool) -> Endpoint {
    Endpoint { literal: None, port: 8080, secure, retry_ms: 1500 }
}

fn by_address() -> Endpoint {
    Endpoint { literal: Some(ADDRESS), port: 80, secure: false, retry_ms: 1500 }
}

struct Rig {
    manager: ConnectionManager,
    shared: SignaledGlobalStateInner,
    flags: DeviceFlags,
    endpoint: Endpoint,
}

impl Rig {
    fn new(endpoint: Endpoint) -> Rig {
        Rig {
            manager: ConnectionManager::new(),
            shared: SignaledGlobalStateInner::new(),
            flags: DeviceFlags::new(),
            endpoint,
        }
    }

    fn step(&mut self, event: ConnEvent) -> Vec<ConnAction> {
        self.manager.step(event, &self.endpoint, &mut self.shared, &self.flags).0
    }

    fn open(endpoint: Endpoint) -> Rig {
        let mut rig = Rig::new(endpoint);
        rig.step(ConnEvent::Started);
        if endpoint.literal.is_none() {
            rig.step(ConnEvent::Resolved(Some(ADDRESS)));
        }
        rig.step(ConnEvent::ConnectDone(true));
        if endpoint.secure {
            rig.step(ConnEvent::HandshakeDone(true));
        }
        rig.step(ConnEvent::UpgradeSent(true));
        rig.step(ConnEvent::UpgradeAnswered(UpgradeRead::Code(101)));
        assert_eq!(rig.manager.state, ConnState::Open);
        rig
    }
}

fn connect(port: u16) -> ConnAction {
    ConnAction::Connect { address: ADDRESS, port, timeout_secs: 15 }
}

#[test]
fn a_secure_session_comes_up_step_by_step() {
    let mut rig = Rig::new(by_name(true));
    assert_eq!(rig.manager.state, ConnState::Idle);
    assert_eq!(rig.shared.server_connected, None);
    assert_eq!(rig.step(ConnEvent::Started), vec![ConnAction::SetLed(false), ConnAction::Resolve]);
    assert_eq!(rig.manager.state, ConnState::Resolving);
    assert_eq!(rig.shared.server_connected, Some(false));
    assert_eq!(rig.step(ConnEvent::Resolved(Some(ADDRESS))), vec![connect(8080)]);
    assert_eq!(rig.manager.state, ConnState::TcpConnecting);
    assert_eq!(rig.step(ConnEvent::ConnectDone(true)), vec![ConnAction::Handshake]);
    assert_eq!(rig.manager.state, ConnState::SecurityHandshake);
    assert_eq!(rig.step(ConnEvent::HandshakeDone(true)), vec![ConnAction::SendUpgrade]);
    assert_eq!(rig.manager.state, ConnState::ProtocolUpgrade);
    assert_eq!(rig.step(ConnEvent::UpgradeSent(true)), vec![ConnAction::ReadUpgrade]);
    assert_eq!(
        rig.step(ConnEvent::UpgradeAnswered(UpgradeRead::Partial)),
        vec![ConnAction::ReadUpgrade]
    );
    assert_eq!(rig.shared.server_connected, Some(false));
    assert_eq!(
        rig.step(ConnEvent::UpgradeAnswered(UpgradeRead::Code(101))),
        vec![
            ConnAction::SetLed(true),
            ConnAction::SignalConnected,
            ConnAction::KeepAlive,
            ConnAction::Serve,
        ]
    );
    assert_eq!(rig.manager.state, ConnState::Open);
    assert_eq!(rig.shared.server_connected, Some(true));
    assert_eq!(rig.shared.device_registered, None);
}

#[test]
fn a_numeric_address_is_not_resolved_and_a_plain_stream_not_secured() {
    let mut rig = Rig::new(by_address());
    assert_eq!(rig.step(ConnEvent::Started), vec![ConnAction::SetLed(false), connect(80)]);
    assert_eq!(rig.manager.state, ConnState::TcpConnecting);
    assert_eq!(rig.step(ConnEvent::ConnectDone(true)), vec![ConnAction::SendUpgrade]);
    assert_eq!(rig.manager.state, ConnState::ProtocolUpgrade);
}

#[test]
fn the_shared_state_changes_only_when_the_connection_does() {
    let mut manager = ConnectionManager::new();
    let mut shared = SignaledGlobalStateInner::new();
    let flags = DeviceFlags::new();
    let endpoint = by_address();
    let events = [
        (ConnEvent::BackoffElapsed, false),
        (ConnEvent::Started, true),
        (ConnEvent::ConnectDone(true), false),
        (ConnEvent::UpgradeSent(true), false),
        (ConnEvent::UpgradeAnswered(UpgradeRead::Code(200)), true),
        (ConnEvent::Started, false),
        (ConnEvent::SessionEnded, true),
        (ConnEvent::BackoffElapsed, false),
    ];
    for (event, expected) in events {
        let (_, changed) = manager.step(event, &endpoint, &mut shared, &flags);
        assert_eq!(changed, expected, "{event:?}");
    }
}

#[test]
fn each_failure_has_its_backoff() {
    let failed = |ms: u64| vec![ConnAction::Close, ConnAction::SetLed(false), ConnAction::Wait(ms)];
    let mut rig = Rig::new(by_name(true));
    rig.step(ConnEvent::Started);
    assert_eq!(rig.step(ConnEvent::Resolved(None)), failed(1000));
    assert_eq!(rig.manager.state, ConnState::Disconnected);
    assert_eq!(rig.step(ConnEvent::BackoffElapsed), vec![ConnAction::Resolve]);
    rig.step(ConnEvent::Resolved(Some(ADDRESS)));
    assert_eq!(rig.step(ConnEvent::ConnectDone(false)), failed(1500));
    rig.step(ConnEvent::BackoffElapsed);
    rig.step(ConnEvent::Resolved(Some(ADDRESS)));
    rig.step(ConnEvent::ConnectDone(true));
    assert_eq!(rig.step(ConnEvent::HandshakeDone(false)), failed(500));
    rig.step(ConnEvent::BackoffElapsed);
    rig.step(ConnEvent::Resolved(Some(ADDRESS)));
    rig.step(ConnEvent::ConnectDone(true));
    rig.step(ConnEvent::HandshakeDone(true));
    assert_eq!(rig.step(ConnEvent::UpgradeSent(false)), failed(500));
    rig.step(ConnEvent::BackoffElapsed);
    rig.step(ConnEvent::Resolved(Some(ADDRESS)));
    rig.step(ConnEvent::ConnectDone(true));
    rig.step(ConnEvent::HandshakeDone(true));
    rig.step(ConnEvent::UpgradeSent(true));
    assert_eq!(rig.step(ConnEvent::UpgradeAnswered(UpgradeRead::Failed)), failed(500));
    assert_eq!(rig.shared.server_connected, Some(false));
    let mut open = Rig::open(by_name(false));
    assert_eq!(open.step(ConnEvent::SessionEnded), failed(1500));
    assert_eq!(open.manager.state, ConnState::Disconnected);
    assert_eq!(open.shared.server_connected, Some(false));
}

#[test]
fn a_session_lost_during_an_update_ends_in_a_restart() {
    let mut rig = Rig::open(by_address());
    rig.flags.ota = true;
    assert_eq!(
        rig.step(ConnEvent::SessionEnded),
        vec![
            ConnAction::Close,
            ConnAction::SetLed(false),
            ConnAction::Wait(5000),
            ConnAction::Restart,
        ]
    );
    assert_eq!(rig.manager.state, ConnState::Restarting);
    for event in [ConnEvent::BackoffElapsed, ConnEvent::SleepChanged(true), ConnEvent::Started] {
        assert_eq!(rig.step(event), Vec::new());
        assert_eq!(rig.manager.state, ConnState::Restarting);
    }
}

#[test]
fn sleep_takes_the_session_down_and_waking_brings_it_up_again() {
    let mut rig = Rig::open(by_name(false));
    assert_eq!(
        rig.step(ConnEvent::SleepChanged(true)),
        vec![ConnAction::Close, ConnAction::SetLed(false)]
    );
    assert_eq!(rig.manager.state, ConnState::Suspended);
    assert_eq!(rig.shared.server_connected, Some(false));
    for event in [
        ConnEvent::SleepChanged(true),
        ConnEvent::BackoffElapsed,
        ConnEvent::Started,
        ConnEvent::Resolved(Some(ADDRESS)),
        ConnEvent::ConnectDone(true),
        ConnEvent::HandshakeDone(true),
        ConnEvent::UpgradeSent(true),
        ConnEvent::UpgradeAnswered(UpgradeRead::Code(101)),
        ConnEvent::SessionEnded,
    ] {
        assert_eq!(rig.step(event), Vec::new(), "{event:?}");
        assert_eq!(rig.manager.state, ConnState::Suspended);
    }
    assert_eq!(
        rig.step(ConnEvent::SleepChanged(false)),
        vec![ConnAction::SetLed(false), ConnAction::Resolve]
    );
    rig.step(ConnEvent::Resolved(Some(ADDRESS)));
    rig.step(ConnEvent::ConnectDone(true));
    rig.step(ConnEvent::UpgradeSent(true));
    rig.step(ConnEvent::UpgradeAnswered(UpgradeRead::Code(101)));
    assert_eq!(rig.manager.state, ConnState::Open);
    assert_eq!(rig.shared.server_connected, Some(true));
}

#[test]
fn sleep_interrupts_every_stage_of_an_attempt() {
    for stage in 0..5 {
        let mut rig = Rig::new(by_name(true));
        let events = [
            ConnEvent::Started,
            ConnEvent::Resolved(Some(ADDRESS)),
            ConnEvent::ConnectDone(true),
            ConnEvent::HandshakeDone(true),
        ];
        for event in events.iter().take(stage) {
            rig.step(*event);
        }
        rig.step(ConnEvent::SleepChanged(true));
        assert_eq!(rig.manager.state, ConnState::Suspended, "stage {stage}");
        assert_eq!(rig.shared.server_connected, Some(false));
    }
}

#[test]
fn events_that_do_not_belong_to_the_state_are_passed_over() {
    let mut rig = Rig::open(by_address());
    for event in [
        ConnEvent::SleepChanged(false),
        ConnEvent::Started,
        ConnEvent::BackoffElapsed,
        ConnEvent::ConnectDone(false),
        ConnEvent::UpgradeAnswered(UpgradeRead::Failed),
    ] {
        assert_eq!(rig.step(event), Vec::new(), "{event:?}");
        assert_eq!(rig.manager.state, ConnState::Open);
    }
    let mut idle = Rig::new(by_address());
    assert_eq!(idle.step(ConnEvent::ConnectDone(true)), Vec::new());
    assert_eq!(idle.manager.state, ConnState::Idle);
    assert_eq!(idle.shared.server_connected, None);
}

#[test]
fn the_endpoint_knows_a_numeric_host() {
    let numeric = ServerLocator {
        host: String::from("10.0.0.7:9000"),
        hostname: String::from("10.0.0.7"),
        port: 9000,
        path: String::from("/ws"),
        secure: true,
    };
    assert_eq!(
        Endpoint::new(&numeric, 250),
        Endpoint { literal: Some([10, 0, 0, 7]), port: 9000, secure: true, retry_ms: 250 }
    );
    let named = ServerLocator { hostname: String::from("timer.local"), ..numeric.clone() };
    assert_eq!(Endpoint::new(&named, 250).literal, None);
    let almost = ServerLocator { hostname: String::from("10.0.0.256"), ..numeric };
    assert_eq!(Endpoint::new(&almost, 250).literal, None);
}
