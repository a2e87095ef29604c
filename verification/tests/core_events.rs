//! The core, driven through whole tasks with a small stand-in for the program around it.
use std::collections::HashMap;
use std::sync::Arc;

use kdeconnect_core::connection::PAIRING_TIMEOUT_SECS;
use kdeconnect_core::device::{Certificate, Device, DeviceId, PairState};
use kdeconnect_core::event::{
    AppEvent, ConnMetadata, ConnectionEvent, CoreEvent, Payload, TransportEvent,
};
use kdeconnect_core::kdeconnect::{KdeConnectCore, Wake};
use kdeconnect_core::plugin_interface::PluginRegistry;
use kdeconnect_core::plugin_set::PluginSet;
use kdeconnect_core::protocol::{
    MprisRequest, PacketBody, PacketType, Pair, Ping, ProtocolPacket,
};
use kdeconnect_core::task::{Action, Job, Reply, SharedFile, Step, Takes, Task};
use tokio::sync::{mpsc, watch};

/// Everything around the core: the device records, the clocks, and a log of what it asked for.
struct World {
    core: KdeConnectCore<u8>,
    event_rx: mpsc::UnboundedReceiver<CoreEvent>,
    in_rx: mpsc::UnboundedReceiver<AppEvent>,
    conn_rx: mpsc::UnboundedReceiver<ConnectionEvent>,
    mpris_conn_rx: mpsc::UnboundedReceiver<ConnectionEvent>,
    devices: HashMap<String, Device>,
    stored_disabled: HashMap<String, Vec<String>>,
    discovered: Option<Device>,
    new_request: bool,
    shares: Option<Vec<SharedFile>>,
    unreadable: Vec<String>,
    monotonic: u64,
    unix: u64,
    log: Vec<String>,
    jobs: Vec<Job>,
}

/// The far ends of a connection.
struct Link {
    packets: mpsc::UnboundedReceiver<ProtocolPacket>,
    shutdown: watch::Receiver<bool>,
}

fn id(text: &str) -> DeviceId {
    DeviceId(text.to_string())
}

fn device(text: &str, pair_state: PairState) -> Device {
    Device {
        device_id: id(text),
        name: format!("{text} phone"),
        device_type: "phone".to_string(),
        address: "10.0.0.2".to_string(),
        incoming_capabilities: Arc::new(Vec::new()),
        outgoing_capabilities: Arc::new(Vec::new()),
        pair_state,
        protocol_version: 8,
        pairing_timestamp: 0,
        remote_certificate: None,
    }
}

fn certificate(bytes: &[u8]) -> Option<Certificate> {
    Certificate::from_der(bytes.to_vec())
}

fn packet(packet_type: PacketType) -> ProtocolPacket {
    ProtocolPacket::new(packet_type, PacketBody::Empty)
}

fn pair_packet(pair: bool) -> ProtocolPacket {
    ProtocolPacket::new(
        PacketType::Pair,
        PacketBody::Pair(Pair {
            pair,
            timestamp: None,
        }),
    )
}

fn describe(packet: &ProtocolPacket) -> String {
    format!("{:?} {:?}", packet.packet_type, packet.body)
}

const PAIR_NO: &str = "Pair Pair(Pair { pair: false, timestamp: None })";
const PAIR_YES: &str = "Pair Pair(Pair { pair: true, timestamp: None })";

impl World {
    fn new() -> World {
        let (core, inboxes) = KdeConnectCore::new(PluginRegistry::new());
        World {
            core,
            event_rx: inboxes.event_rx.into_receiver(),
            in_rx: inboxes.in_rx.into_receiver(),
            conn_rx: inboxes.conn_rx.into_receiver(),
            mpris_conn_rx: inboxes.mpris_conn_rx.into_receiver(),
            devices: HashMap::new(),
            stored_disabled: HashMap::new(),
            discovered: None,
            new_request: true,
            shares: None,
            unreadable: Vec::new(),
            monotonic: 5_000_000_000,
            unix: 1_700_000_000,
            log: Vec::new(),
            jobs: Vec::new(),
        }
    }

    fn with(text: &str, pair_state: PairState) -> World {
        let mut world = World::new();
        world.know(device(text, pair_state));
        world
    }

    fn know(&mut self, device: Device) {
        self.devices.insert(device.device_id.0.clone(), device);
    }

    fn state(&self, text: &str) -> Option<PairState> {
        self.devices.get(text).map(|d| d.pair_state)
    }

    fn note(&mut self, line: String) {
        self.log.push(line);
    }

    fn perform(&mut self, action: Action) -> Reply {
        match action {
            Action::Lookup(id) => {
                return Reply::Device(self.devices.get(&id.0).map(|d| d.duplicate()))
            }
            Action::UpdatePairState(id, state) => {
                self.note(format!("state {} {:?}", id.0, state));
                if let Some(device) = self.devices.get_mut(&id.0) {
                    device.pair_state = state;
                }
            }
            Action::SetPaired(id) => {
                self.note(format!("paired {}", id.0));
                if let Some(device) = self.devices.get_mut(&id.0) {
                    device.pair_state = PairState::Paired;
                }
            }
            Action::AddOrUpdateDevice(id, device) => {
                self.note(format!("record {}", id.0));
                self.devices.insert(id.0, device);
            }
            Action::SetProtocolVersion(id, version) => {
                self.note(format!("version {} {version}", id.0));
            }
            Action::SetPairingTimestamp(id, timestamp) => {
                self.note(format!("timestamp {} {timestamp}", id.0));
            }
            Action::Discover(discovery) => {
                self.note(format!(
                    "discover {} {} {} {}",
                    discovery.id.0, discovery.name, discovery.device_type, discovery.addr
                ));
                return Reply::Discovered(self.discovered.take());
            }
            Action::SavePairState(device, state) => {
                self.note(format!("save {} {:?}", device.device_id.0, state));
                return Reply::Saved(device);
            }
            Action::SendIdentity => self.note("identity".to_string()),
            Action::CleanUp(id) => self.note(format!("clean up {}", id.0)),
            Action::StopSystemVolume(id) => self.note(format!("stop volume {}", id.0)),
            Action::StartSystemVolume(id) => self.note(format!("start volume {}", id.0)),
            Action::SendBatteryState(id) => self.note(format!("battery {}", id.0)),
            Action::SendCommandList(id) => self.note(format!("commands {}", id.0)),
            Action::HandlePairRequest {
                device_id,
                name,
                address,
                packet,
            } => {
                self.note(format!(
                    "request {} {name} {address} {}",
                    device_id.0,
                    describe(&packet)
                ));
                return Reply::NewRequest(self.new_request);
            }
            Action::Dispatch(device, packet) => {
                self.note(format!(
                    "dispatch {} {}",
                    device.device_id.0,
                    describe(&packet)
                ));
            }
            Action::PluginSend(device, packet) => {
                self.note(format!("send {} {}", device.device_id.0, describe(&packet)));
            }
            Action::PrepareShare(files) => {
                self.note(format!("share {files:?}"));
                return Reply::Shares(self.shares.take());
            }
            Action::OpenFile(path) => {
                let opened = if self.unreadable.contains(&path) {
                    None
                } else {
                    Some(Payload {
                        stream: 7,
                        size: path.len() as u64,
                    })
                };
                self.note(format!("open {path}"));
                return Reply::Opened(opened);
            }
            Action::SendPayload {
                sender,
                packet,
                payload,
            } => {
                self.note(format!("payload {} {}", describe(&packet), payload.size));
                sender.send(packet).unwrap();
            }
            Action::DiscardPayload(payload) => {
                self.note(format!("discard {}", payload.stream));
            }
            Action::LoadDisabled(id) => {
                self.note(format!("load disabled {}", id.0));
                let names = self.stored_disabled.get(&id.0).cloned().unwrap_or_default();
                return Reply::Disabled(PluginSet::from_names(names));
            }
            Action::SaveDisabled(id, set) => {
                self.note(format!("save disabled {} {:?}", id.0, set.names()));
                self.stored_disabled.insert(id.0, set.names().clone());
            }
            Action::ReadMonotonicClock => return Reply::Time(self.monotonic),
            Action::ReadUnixClock => return Reply::Time(self.unix),
            Action::Sleep(ms) => self.note(format!("sleep {ms}")),
            Action::Spawn(job) => self.jobs.push(job),
        }
        Reply::Done
    }

    /// Carries a task out to its end.
    fn run(&mut self, mut task: Task) {
        let mut reply = Reply::Done;
        loop {
            let step = self.core.step(&mut task, reply);
            reply = Reply::Done;
            match step {
                Step::Act(action) => reply = self.perform(action),
                Step::Finished => return,
                Step::WrongReply(reply) => panic!("wrong reply: {reply:?}"),
                _ => {}
            }
        }
    }

    fn ask(&mut self, event: CoreEvent) {
        let task = self.core.core_events(event);
        self.run(task);
    }

    fn network(&mut self, event: TransportEvent) {
        let task = self.core.transport_events(event);
        self.run(task);
    }

    fn user(&mut self, event: AppEvent) {
        let task = self.core.kde_events(event);
        self.run(task);
    }

    fn job(&mut self) {
        let job = self.jobs.remove(0);
        let task = self.core.job(job);
        self.run(task);
    }

    /// Connects a device, and forgets what came of it.
    fn connect(&mut self, text: &str, conn_id: u64) -> Link {
        self.discovered = Some(match self.devices.get(text) {
            Some(known) => known.duplicate(),
            None => device(text, PairState::NotPaired),
        });
        let (event, mut link) = arrival(text, conn_id, 8, None);
        self.network(event);
        self.take_log();
        self.told();
        link.received();
        link
    }

    /// What the user was told since the last call. The bridge must have been told the same.
    fn told(&mut self) -> Vec<String> {
        let mut user = Vec::new();
        while let Ok(event) = self.conn_rx.try_recv() {
            user.push(name_of(&event));
        }
        let mut bridge = Vec::new();
        while let Ok(event) = self.mpris_conn_rx.try_recv() {
            bridge.push(name_of(&event));
        }
        assert_eq!(user, bridge);
        user
    }

    /// What was asked of the core itself since the last call.
    fn posted(&mut self) -> Vec<CoreEvent> {
        let mut events = Vec::new();
        while let Ok(event) = self.event_rx.try_recv() {
            events.push(event);
        }
        events
    }

    fn take_log(&mut self) -> Vec<String> {
        std::mem::take(&mut self.log)
    }
}

fn name_of(event: &ConnectionEvent) -> String {
    match event {
        ConnectionEvent::Connected((id, device)) => {
            format!("connected {} {:?}", id.0, device.pair_state)
        }
        ConnectionEvent::Disconnected(id) => format!("disconnected {}", id.0),
        ConnectionEvent::DevicePaired((id, _)) => format!("paired {}", id.0),
        ConnectionEvent::PairStateChanged((id, state)) => format!("state {} {state:?}", id.0),
        ConnectionEvent::PairingRequested((id, name)) => format!("request {} {name}", id.0),
        ConnectionEvent::PairingTimedOut(id) => format!("timed out {}", id.0),
    }
}

fn arrival(
    text: &str,
    conn_id: u64,
    protocol_version: u32,
    peer_certificate: Option<Certificate>,
) -> (TransportEvent, Link) {
    let (write_tx, packets) = mpsc::unbounded_channel();
    let (shutdown_tx, shutdown) = watch::channel(false);
    let event = TransportEvent::NewConnection {
        addr: "10.0.0.2".to_string(),
        id: id(text),
        name: format!("{text} phone"),
        write_tx,
        conn_id,
        meta: Some(ConnMetadata {
            device_type: "tablet".to_string(),
            incoming_capabilities: Arc::new(Vec::new()),
            outgoing_capabilities: Arc::new(Vec::new()),
            protocol_version,
            pairing_timestamp: 0,
            peer_certificate,
            shutdown_tx,
        }),
    };
    (event, Link { packets, shutdown })
}

fn incoming(text: &str, conn_id: u64, packet: ProtocolPacket) -> TransportEvent {
    TransportEvent::IncomingPacket {
        addr: "10.0.0.2".to_string(),
        id: id(text),
        via: Some(conn_id),
        packet: Ok(packet),
    }
}

impl Link {
    fn received(&mut self) -> Vec<String> {
        let mut packets = Vec::new();
        while let Ok(packet) = self.packets.try_recv() {
            packets.push(describe(&packet));
        }
        packets
    }

    fn closed(&self) -> bool {
        *self.shutdown.borrow()
    }
}

#[test]
fn packets_are_dispatched_for_known_devices_only() {
    let mut world = World::with("a", PairState::Paired);
    let event = |text: &str| CoreEvent::PacketReceived {
        device: id(text),
        packet: packet(PacketType::Battery),
    };
    world.ask(event("a"));
    world.ask(event("b"));
    assert_eq!(world.take_log(), ["dispatch a Battery Empty"]);
}

#[test]
fn discoveries_and_errors_lead_to_nothing() {
    let world = World::new();
    let found = CoreEvent::DeviceDiscovered(device("a", PairState::NotPaired));
    assert!(world.core.core_events(found).takes().is_none());
    let error = CoreEvent::Error("oops".to_string());
    assert!(world.core.core_events(error).takes().is_none());
}

#[test]
fn a_newly_paired_device_is_greeted_and_announced() {
    let mut world = World::with("a", PairState::Paired);
    let mut link = world.connect("a", 1);
    let paired = || CoreEvent::DevicePaired((id("a"), device("a", PairState::Paired)));
    world.ask(paired());
    assert_eq!(
        link.received(),
        [
            "ContactsRequestAllUidsTimestamps Empty".to_string(),
            "SmsRequestConversations Empty".to_string(),
            format!(
                "MprisRequest {:?}",
                PacketBody::MprisRequest(MprisRequest::player_list())
            ),
        ]
    );
    assert_eq!(world.told(), ["paired a"]);

    world.user(AppEvent::SetPluginEnabled {
        device_id: id("a"),
        plugin_id: "sms".to_string(),
        enabled: false,
    });
    assert!(link.closed());
    let mut link = world.connect("a", 2);
    world.ask(paired());
    let received = link.received();
    assert_eq!(received.len(), 2);
    assert_eq!(received[0], "ContactsRequestAllUidsTimestamps Empty");
    assert!(received[1].starts_with("MprisRequest"));
}

#[test]
fn a_cancelled_pairing_stops_the_volume_and_is_announced() {
    let mut world = World::new();
    world.ask(CoreEvent::DevicePairCancelled(id("a")));
    assert_eq!(world.take_log(), ["stop volume a"]);
    assert_eq!(world.told(), ["state a NotPaired"]);
}

#[test]
fn pair_state_changes_are_announced() {
    let mut world = World::new();
    for state in [
        PairState::NotPaired,
        PairState::Requesting,
        PairState::Requested,
        PairState::Paired,
    ] {
        world.ask(CoreEvent::DevicePairStateChanged((id("a"), state)));
        let expected: &[&str] = if state == PairState::NotPaired {
            &["stop volume a"]
        } else {
            &[]
        };
        assert_eq!(world.take_log(), expected);
        assert_eq!(world.told(), [format!("state a {state:?}")]);
    }
}

#[test]
fn settled_pair_states_end_the_watch_over_a_request() {
    for (state, ends) in [
        (PairState::NotPaired, true),
        (PairState::Requesting, false),
        (PairState::Requested, false),
        (PairState::Paired, true),
    ] {
        let mut world = World::with("a", PairState::NotPaired);
        world.user(AppEvent::Pair(id("a")));
        world.ask(CoreEvent::DevicePairStateChanged((id("a"), state)));
        world.take_log();
        world.told();
        world.job();
        assert_eq!(world.told().is_empty(), ends);
    }
}

#[test]
fn packets_are_sent_to_paired_and_connected_devices() {
    let mut world = World::with("a", PairState::Paired);
    let send = |packet_type: PacketType| CoreEvent::SendPacket {
        device: id("a"),
        packet: packet(packet_type),
    };
    world.ask(send(PacketType::Battery));
    let mut link = world.connect("a", 1);
    world.ask(send(PacketType::Battery));
    assert_eq!(link.received(), ["Battery Empty"]);
    world.devices.get_mut("a").unwrap().pair_state = PairState::Requested;
    world.ask(send(PacketType::Battery));
    world.ask(send(PacketType::Pair));
    world.ask(send(PacketType::Identity));
    assert_eq!(link.received(), ["Pair Empty", "Identity Empty"]);
}

#[test]
fn a_connection_that_takes_no_packets_is_removed() {
    for (state, broadcasts) in [(PairState::Paired, true), (PairState::NotPaired, false)] {
        let mut world = World::with("a", state);
        let link = world.connect("a", 1);
        drop(link.packets);
        world.ask(CoreEvent::SendPacket {
            device: id("a"),
            packet: packet(PacketType::Pair),
        });
        assert!(*link.shutdown.borrow());
        let expected: &[&str] = if broadcasts {
            &["stop volume a", "identity"]
        } else {
            &["stop volume a"]
        };
        assert_eq!(world.take_log(), expected);
        assert_eq!(world.told(), ["disconnected a"]);
        let devices = vec![device("a", PairState::Paired)];
        assert!(world.core.has_disconnected_paired(&devices));
    }
}

#[test]
fn payloads_go_to_paired_and_connected_devices_only() {
    let mut world = World::with("a", PairState::Paired);
    let send = || CoreEvent::SendPaylod {
        device: id("a"),
        packet: packet(PacketType::Mpris),
        payload: Payload {
            stream: 1,
            size: 99,
        },
    };
    world.ask(send());
    assert_eq!(world.take_log(), ["discard 1"]);
    let mut link = world.connect("a", 1);
    world.ask(send());
    assert_eq!(world.take_log(), ["payload Mpris Empty 99"]);
    assert_eq!(link.received(), ["Mpris Empty"]);
    world.devices.get_mut("a").unwrap().pair_state = PairState::NotPaired;
    world.ask(send());
    assert_eq!(world.take_log(), ["discard 1"]);
    assert!(link.received().is_empty());
}

#[test]
fn a_stranger_is_let_in_without_greetings() {
    let mut world = World::new();
    world.discovered = Some(device("a", PairState::NotPaired));
    let (event, mut link) = arrival("a", 1, 7, certificate(&[1, 2]));
    world.network(event);
    assert_eq!(
        world.take_log(),
        [
            "discover a a phone tablet 10.0.0.2",
            "record a",
            "version a 7",
            "load disabled a"
        ]
    );
    assert!(link.received().is_empty());
    assert_eq!(world.told(), ["connected a NotPaired"]);
    let recorded = world.devices["a"].remote_certificate.as_ref().unwrap();
    assert_eq!(recorded.der(), &vec![1, 2]);
}

#[test]
fn a_paired_device_is_greeted_in_order() {
    let mut world = World::with("a", PairState::Paired);
    world.discovered = Some(device("a", PairState::Paired));
    let (event, mut link) = arrival("a", 1, 8, None);
    world.network(event);
    assert_eq!(
        world.take_log(),
        [
            "discover a a phone tablet 10.0.0.2",
            "record a",
            "version a 8",
            "load disabled a",
            "battery a",
            "commands a",
            "start volume a"
        ]
    );
    assert_eq!(
        link.received(),
        [
            "ContactsRequestAllUidsTimestamps Empty",
            "NotificationRequest Request",
            "SmsRequestConversations Empty",
            "BatteryRequest Request",
            "ConnectivityReportRequest Empty",
            "MousePadKeyboardState KeyboardState"
        ]
    );
    assert_eq!(world.told(), ["connected a Paired"]);
}

#[test]
fn a_peer_of_which_nothing_is_known_counts_as_a_phone() {
    let mut world = World::new();
    world.discovered = Some(device("a", PairState::NotPaired));
    let (write_tx, _packets) = mpsc::unbounded_channel();
    world.network(TransportEvent::NewConnection {
        addr: "10.0.0.9".to_string(),
        id: id("a"),
        name: "A".to_string(),
        write_tx,
        conn_id: 3,
        meta: None,
    });
    assert_eq!(
        world.take_log(),
        [
            "discover a A phone 10.0.0.9",
            "record a",
            "version a 0",
            "load disabled a"
        ]
    );
    assert!(world.devices["a"].remote_certificate.is_none());
}

#[test]
fn the_pairing_timestamp_of_a_peer_is_recorded() {
    let mut world = World::new();
    world.discovered = Some(device("a", PairState::NotPaired));
    let (event, _link) = arrival("a", 1, 8, None);
    let event = match event {
        TransportEvent::NewConnection {
            addr,
            id,
            name,
            write_tx,
            conn_id,
            meta,
        } => {
            let mut meta = meta.unwrap();
            meta.pairing_timestamp = 42;
            TransportEvent::NewConnection {
                addr,
                id,
                name,
                write_tx,
                conn_id,
                meta: Some(meta),
            }
        }
        _ => unreachable!(),
    };
    world.network(event);
    assert!(world.take_log().contains(&"timestamp a 42".to_string()));
}

#[test]
fn a_peer_without_a_record_is_not_let_in() {
    let mut world = World::new();
    let (event, link) = arrival("a", 1, 8, None);
    world.network(event);
    assert!(world.told().is_empty());
    assert!(link.packets.is_closed());
}

#[test]
fn an_older_protocol_is_refused_to_paired_devices() {
    let mut world = World::with("a", PairState::Paired);
    world.discovered = Some(device("a", PairState::Paired));
    let (event, _link) = arrival("a", 1, 7, None);
    world.network(event);
    assert_eq!(world.take_log(), ["discover a a phone tablet 10.0.0.2"]);
    assert!(world.told().is_empty());
}

#[test]
fn another_certificate_unpairs() {
    for presented in [certificate(&[9]), None] {
        let mut world = World::with("a", PairState::Paired);
        let mut known = device("a", PairState::Paired);
        known.remote_certificate = certificate(&[1]);
        world.discovered = Some(known);
        let (event, _link) = arrival("a", 1, 8, presented);
        world.network(event);
        assert_eq!(
            world.take_log(),
            [
                "discover a a phone tablet 10.0.0.2",
                "record a",
                "state a NotPaired",
                "clean up a"
            ]
        );
        assert!(world.devices["a"].remote_certificate.is_none());
        assert!(world.told().is_empty());
    }
}

#[test]
fn the_same_certificate_is_let_in() {
    let mut world = World::with("a", PairState::Paired);
    let mut known = device("a", PairState::Paired);
    known.remote_certificate = certificate(&[1, 2, 3]);
    world.discovered = Some(known);
    let (event, _link) = arrival("a", 1, 8, certificate(&[1, 2, 3]));
    world.network(event);
    assert_eq!(world.told(), ["connected a Paired"]);
    assert!(!world.take_log().contains(&"save a Paired".to_string()));
}

#[test]
fn a_first_certificate_is_saved_with_the_pairing() {
    let mut world = World::with("a", PairState::Paired);
    world.discovered = Some(device("a", PairState::Paired));
    let (event, _link) = arrival("a", 1, 8, certificate(&[5]));
    world.network(event);
    let log = world.take_log();
    assert_eq!(log[1], "save a Paired");
    assert_eq!(log[2], "record a");
    let recorded = world.devices["a"].remote_certificate.as_ref().unwrap();
    assert_eq!(recorded.der(), &vec![5]);
    assert_eq!(world.told(), ["connected a Paired"]);
}

#[test]
fn a_new_connection_closes_the_one_before() {
    let mut world = World::with("a", PairState::NotPaired);
    let first = world.connect("a", 1);
    assert!(!first.closed());
    let second = world.connect("a", 2);
    assert!(first.closed());
    assert!(!second.closed());
}

#[test]
fn packets_over_a_replaced_connection_are_ignored() {
    let mut world = World::with("a", PairState::Paired);
    let _first = world.connect("a", 1);
    let _second = world.connect("a", 2);
    world.network(incoming("a", 1, packet(PacketType::Battery)));
    assert!(world.posted().is_empty());
    world.network(incoming("a", 2, packet(PacketType::Battery)));
    assert_eq!(world.posted().len(), 1);
}

#[test]
fn packets_off_the_record_count_as_from_connection_zero() {
    let mut world = World::with("a", PairState::Paired);
    let event = || TransportEvent::IncomingPacket {
        addr: "10.0.0.2".to_string(),
        id: id("a"),
        via: None,
        packet: Ok(packet(PacketType::Battery)),
    };
    let _link = world.connect("a", 1);
    world.network(event());
    assert!(world.posted().is_empty());
    let _link = world.connect("a", 0);
    world.network(event());
    assert_eq!(world.posted().len(), 1);
}

#[test]
fn bytes_that_are_no_packet_are_reported() {
    let mut world = World::with("a", PairState::Paired);
    let _link = world.connect("a", 1);
    world.network(TransportEvent::IncomingPacket {
        addr: "10.0.0.2".to_string(),
        id: id("a"),
        via: Some(1),
        packet: Err("expected value".to_string()),
    });
    match &world.posted()[..] {
        [CoreEvent::Error(report)] => {
            assert_eq!(report, "Invalid packet from 10.0.0.2: expected value");
        }
        other => panic!("{other:?}"),
    }
}

#[test]
fn packets_of_paired_devices_go_on_to_the_plugins() {
    let mut world = World::with("a", PairState::Paired);
    let _link = world.connect("a", 1);
    world.network(incoming("a", 1, packet(PacketType::Clipboard)));
    match &world.posted()[..] {
        [CoreEvent::PacketReceived { device, packet }] => {
            assert_eq!(device.0, "a");
            assert_eq!(describe(packet), "Clipboard Empty");
        }
        other => panic!("{other:?}"),
    }
    assert!(world.take_log().is_empty());
}

#[test]
fn identity_packets_are_ignored() {
    let mut world = World::with("a", PairState::NotPaired);
    let _link = world.connect("a", 1);
    world.network(incoming("a", 1, packet(PacketType::Identity)));
    assert!(world.posted().is_empty());
    assert!(world.take_log().is_empty());
}

#[test]
fn pair_packets_that_say_nothing_are_ignored() {
    let mut world = World::with("a", PairState::Paired);
    let _link = world.connect("a", 1);
    let odd = ProtocolPacket::new(
        PacketType::Pair,
        PacketBody::Json(serde_json::Value::String("?".to_string())),
    );
    world.network(incoming("a", 1, odd));
    assert!(world.take_log().is_empty());
    assert!(world.told().is_empty());
}

#[test]
fn strangers_are_told_once_and_dropped() {
    let mut world = World::with("a", PairState::Requested);
    let mut link = world.connect("a", 1);
    world.network(incoming("a", 1, packet(PacketType::Battery)));
    assert!(world.posted().is_empty());
    assert_eq!(
        world.take_log(),
        ["state a NotPaired", "stop volume a"]
    );
    assert_eq!(link.received(), [PAIR_NO]);
    assert!(!link.closed());
    world.job();
    assert_eq!(world.take_log(), ["sleep 250"]);
    assert!(link.closed());

    // The next packet comes too soon for another notice.
    world.monotonic += 1_999_999_999;
    let mut link = world.connect("a", 2);
    world.network(incoming("a", 2, packet(PacketType::Battery)));
    assert!(link.received().is_empty());
    assert!(link.closed());
    assert_eq!(world.take_log(), ["stop volume a", "stop volume a"]);
    assert!(world.jobs.is_empty());

    // Another stranger is told all the same.
    world.know(device("b", PairState::NotPaired));
    let mut other = world.connect("b", 1);
    world.network(incoming("b", 1, packet(PacketType::Battery)));
    assert_eq!(other.received(), [PAIR_NO]);

    // And this one again once the interval has passed.
    world.monotonic += 1;
    let mut link = world.connect("a", 3);
    world.network(incoming("a", 3, packet(PacketType::Battery)));
    assert_eq!(link.received(), [PAIR_NO]);
}

#[test]
fn a_stranger_that_cannot_be_told_is_dropped_at_once() {
    let mut world = World::with("a", PairState::NotPaired);
    let link = world.connect("a", 1);
    drop(link.packets);
    world.network(incoming("a", 1, packet(PacketType::Battery)));
    assert!(*link.shutdown.borrow());
    assert!(world.jobs.is_empty());
    assert_eq!(world.told(), ["disconnected a"]);
}

#[test]
fn a_refusal_ends_a_pairing() {
    let mut world = World::with("a", PairState::Paired);
    let link = world.connect("a", 1);
    world.network(incoming("a", 1, pair_packet(false)));
    assert_eq!(
        world.take_log(),
        ["state a NotPaired", "clean up a", "stop volume a"]
    );
    assert!(link.closed());
    assert!(world.told().is_empty());

    for state in [PairState::Requesting, PairState::Requested] {
        let mut world = World::with("a", state);
        let link = world.connect("a", 1);
        world.network(incoming("a", 1, pair_packet(false)));
        assert_eq!(world.take_log(), ["state a NotPaired"]);
        assert_eq!(world.told(), ["timed out a"]);
        assert!(!link.closed());
    }

    let mut world = World::with("a", PairState::NotPaired);
    let link = world.connect("a", 1);
    world.network(incoming("a", 1, pair_packet(false)));
    assert!(world.take_log().is_empty());
    assert!(world.told().is_empty());
    assert!(!link.closed());
}

#[test]
fn a_pairing_request_is_shown_and_times_out() {
    let mut world = World::with("a", PairState::NotPaired);
    let _link = world.connect("a", 1);
    world.network(incoming("a", 1, pair_packet(true)));
    assert_eq!(
        world.take_log(),
        [format!("request a a phone 10.0.0.2 {PAIR_YES}")]
    );
    assert_eq!(world.told(), ["request a a phone"]);

    world.devices.get_mut("a").unwrap().pair_state = PairState::Requested;
    world.job();
    assert_eq!(
        world.take_log(),
        [
            format!("sleep {}", PAIRING_TIMEOUT_SECS * 1000),
            "state a NotPaired".to_string()
        ]
    );
    assert_eq!(world.told(), ["timed out a"]);
    match &world.posted()[..] {
        [CoreEvent::SendPacket { device, packet }] => {
            assert_eq!(device.0, "a");
            assert_eq!(describe(packet), PAIR_NO);
        }
        other => panic!("{other:?}"),
    }
}

#[test]
fn a_pairing_request_that_was_answered_does_not_time_out() {
    let mut world = World::with("a", PairState::NotPaired);
    let _link = world.connect("a", 1);
    world.network(incoming("a", 1, pair_packet(true)));
    world.told();
    world.devices.get_mut("a").unwrap().pair_state = PairState::Paired;
    world.job();
    assert!(world.told().is_empty());
    assert!(world.posted().is_empty());
}

#[test]
fn a_known_pairing_request_is_not_shown_again() {
    let mut world = World::with("a", PairState::Requested);
    world.new_request = false;
    let _link = world.connect("a", 1);
    world.network(incoming("a", 1, pair_packet(true)));
    assert!(world.told().is_empty());
    assert!(world.jobs.is_empty());
}

#[test]
fn a_lost_connection_is_announced_and_called_for() {
    let mut world = World::with("a", PairState::Paired);
    let link = world.connect("a", 4);
    world.network(TransportEvent::Disconnected {
        id: id("a"),
        conn_id: 3,
    });
    assert!(world.take_log().is_empty());
    assert!(!link.closed());
    world.network(TransportEvent::Disconnected {
        id: id("a"),
        conn_id: 4,
    });
    assert_eq!(world.take_log(), ["stop volume a", "identity"]);
    assert_eq!(world.told(), ["disconnected a"]);
    assert!(link.closed());
}

#[test]
fn a_lost_connection_ends_a_pairing_under_way() {
    let mut world = World::with("a", PairState::Requesting);
    let _link = world.connect("a", 4);
    world.network(TransportEvent::Disconnected {
        id: id("a"),
        conn_id: 4,
    });
    assert_eq!(world.take_log(), ["state a NotPaired", "stop volume a"]);
    assert_eq!(world.told(), ["timed out a", "disconnected a"]);
}

#[test]
fn a_packet_that_could_not_be_sent_ends_the_connection() {
    for (packet_type, told) in [
        (PacketType::Battery, vec!["disconnected a"]),
        (PacketType::Pair, vec!["timed out a", "disconnected a"]),
    ] {
        let mut world = World::with("a", PairState::Requested);
        let link = world.connect("a", 4);
        world.network(TransportEvent::PacketSendFailed {
            id: id("a"),
            packet_type: PacketType::Pair,
            conn_id: 5,
        });
        assert!(world.told().is_empty());
        world.network(TransportEvent::PacketSendFailed {
            id: id("a"),
            packet_type,
            conn_id: 4,
        });
        assert_eq!(world.told(), told);
        assert!(link.closed());
    }
}

#[test]
fn a_certificate_that_is_not_trusted_unpairs() {
    let mut world = World::with("a", PairState::Paired);
    world.devices.get_mut("a").unwrap().remote_certificate = certificate(&[1]);
    world.network(TransportEvent::PairTrustFailed { id: id("a") });
    assert_eq!(
        world.take_log(),
        ["record a", "state a NotPaired", "clean up a"]
    );
    assert!(world.devices["a"].remote_certificate.is_none());
    world.network(TransportEvent::PairTrustFailed { id: id("b") });
    assert_eq!(world.take_log(), ["state b NotPaired", "clean up b"]);
}

#[test]
fn the_user_can_have_this_side_announced() {
    let mut world = World::new();
    world.user(AppEvent::Broadcasting);
    assert_eq!(world.take_log(), ["identity"]);
}

#[test]
fn pairing_with_an_unknown_device_calls_for_it() {
    let mut world = World::new();
    world.user(AppEvent::Pair(id("a")));
    assert_eq!(world.take_log(), ["identity"]);
    assert_eq!(world.told(), ["timed out a"]);
}

#[test]
fn pairing_with_a_paired_device_changes_nothing() {
    let mut world = World::with("a", PairState::Paired);
    world.user(AppEvent::Pair(id("a")));
    assert!(world.take_log().is_empty());
    assert_eq!(world.told(), ["state a Paired"]);
}

#[test]
fn pairing_with_a_device_that_asked_accepts_it() {
    let mut world = World::with("a", PairState::Requested);
    let mut link = world.connect("a", 1);
    world.user(AppEvent::Pair(id("a")));
    assert_eq!(link.received(), [PAIR_YES]);
    assert_eq!(world.take_log(), ["paired a"]);

    let mut world = World::with("a", PairState::Requested);
    world.user(AppEvent::Pair(id("a")));
    assert_eq!(world.take_log(), ["state a NotPaired"]);
    assert_eq!(world.told(), ["timed out a"]);
}

#[test]
fn a_pairing_request_goes_out_with_the_time() {
    let mut world = World::with("a", PairState::NotPaired);
    let mut link = world.connect("a", 1);
    world.user(AppEvent::Pair(id("a")));
    assert_eq!(
        link.received(),
        ["Pair Pair(Pair { pair: true, timestamp: Some(1700000000) })"]
    );
    assert_eq!(
        world.take_log(),
        ["timestamp a 1700000000", "state a Requesting"]
    );
    assert!(matches!(
        world.jobs[..],
        [Job::PairWatch {
            attempt: 1,
            queued: true,
            ..
        }]
    ));
}

#[test]
fn a_pairing_request_that_could_not_be_sent_is_repeated() {
    let mut world = World::with("a", PairState::NotPaired);
    world.user(AppEvent::Pair(id("a")));
    assert_eq!(
        world.take_log(),
        ["timestamp a 1700000000", "identity", "state a Requesting"]
    );
    let mut link = world.connect("a", 1);
    world.job();
    assert_eq!(
        link.received(),
        ["Pair Pair(Pair { pair: true, timestamp: Some(1700000000) })"]
    );
    assert_eq!(
        world.take_log(),
        ["sleep 500", "sleep 30000", "state a NotPaired"]
    );
    assert_eq!(world.told(), ["timed out a"]);
}

#[test]
fn a_pairing_request_is_tried_thirty_times() {
    let mut world = World::with("a", PairState::NotPaired);
    world.user(AppEvent::Pair(id("a")));
    world.take_log();
    world.job();
    let log = world.take_log();
    assert_eq!(log.iter().filter(|line| *line == "sleep 500").count(), 30);
    assert_eq!(log.len(), 31);
    assert_eq!(log[30], "state a NotPaired");
    assert_eq!(world.told(), ["timed out a"]);
    match &world.posted()[..] {
        [CoreEvent::SendPacket { packet, .. }] => assert_eq!(describe(packet), PAIR_NO),
        other => panic!("{other:?}"),
    }
}

#[test]
fn an_unanswered_request_is_given_up_after_half_a_minute() {
    let mut world = World::with("a", PairState::NotPaired);
    let mut link = world.connect("a", 1);
    world.user(AppEvent::Pair(id("a")));
    world.take_log();
    world.job();
    assert_eq!(world.take_log(), ["sleep 30000", "state a NotPaired"]);
    assert_eq!(link.received().len(), 1);
    assert_eq!(world.told(), ["timed out a"]);
    match &world.posted()[..] {
        [CoreEvent::SendPacket { device, packet }] => {
            assert_eq!(device.0, "a");
            assert_eq!(describe(packet), PAIR_NO);
        }
        other => panic!("{other:?}"),
    }
    // The attempt is over, so the next one is the first again.
    world.user(AppEvent::Pair(id("a")));
    assert!(matches!(world.jobs[..], [Job::PairWatch { attempt: 1, .. }]));
}

#[test]
fn an_answered_request_is_not_repeated() {
    let mut world = World::with("a", PairState::NotPaired);
    let mut link = world.connect("a", 1);
    world.user(AppEvent::Pair(id("a")));
    world.take_log();
    world.devices.get_mut("a").unwrap().pair_state = PairState::Paired;
    world.job();
    assert_eq!(world.take_log(), ["sleep 30000"]);
    assert_eq!(link.received().len(), 1);
    assert!(world.told().is_empty());
    assert!(world.posted().is_empty());
    // The attempt is over, so the next one is the first again.
    world.devices.get_mut("a").unwrap().pair_state = PairState::NotPaired;
    world.user(AppEvent::Pair(id("a")));
    assert!(matches!(world.jobs[..], [Job::PairWatch { attempt: 1, .. }]));
}

#[test]
fn a_new_request_supersedes_the_one_before() {
    let mut world = World::with("a", PairState::NotPaired);
    let _link = world.connect("a", 1);
    world.user(AppEvent::Pair(id("a")));
    world.user(AppEvent::Pair(id("a")));
    world.take_log();
    assert!(matches!(
        world.jobs[..],
        [
            Job::PairWatch { attempt: 1, .. },
            Job::PairWatch { attempt: 2, .. }
        ]
    ));
    world.job();
    assert_eq!(world.take_log(), ["sleep 30000"]);
    world.job();
    assert_eq!(world.take_log(), ["sleep 30000", "state a NotPaired"]);
    assert_eq!(world.told(), ["timed out a"]);
}

#[test]
fn pings_carry_their_message() {
    let mut world = World::with("a", PairState::Paired);
    let mut link = world.connect("a", 1);
    world.user(AppEvent::Ping((id("a"), "hello".to_string())));
    let body = PacketBody::Ping(Ping {
        message: Some("hello".to_string()),
    });
    assert_eq!(link.received(), [format!("Ping {body:?}")]);
}

#[test]
fn the_user_can_send_a_packet() {
    let mut world = World::with("a", PairState::Paired);
    let mut link = world.connect("a", 1);
    world.user(AppEvent::SendPacket(id("a"), packet(PacketType::Lock)));
    assert_eq!(link.received(), ["Lock Empty"]);
}

#[test]
fn files_are_shared_one_by_one() {
    let mut world = World::with("a", PairState::Paired);
    let mut link = world.connect("a", 1);
    let files = || vec!["x".to_string(), "gone".to_string(), "yy".to_string()];
    world.shares = Some(
        files()
            .into_iter()
            .map(|path| SharedFile {
                body: PacketBody::Json(serde_json::Value::String(path.clone())),
                path,
            })
            .collect(),
    );
    world.unreadable = vec!["gone".to_string()];
    world.user(AppEvent::SendFiles((id("a"), files())));
    assert_eq!(
        world.take_log(),
        [
            "share [\"x\", \"gone\", \"yy\"]",
            "open x",
            "payload ShareRequest Json(String(\"x\")) 1",
            "open gone",
            "open yy",
            "payload ShareRequest Json(String(\"yy\")) 2"
        ]
    );
    assert_eq!(link.received().len(), 2);

    world.user(AppEvent::SendFiles((id("a"), files())));
    assert_eq!(world.take_log().len(), 1);
    world.devices.get_mut("a").unwrap().pair_state = PairState::NotPaired;
    world.user(AppEvent::SendFiles((id("a"), files())));
    assert!(world.take_log().is_empty());
    world.devices.get_mut("a").unwrap().pair_state = PairState::Paired;
    world.user(AppEvent::Disconnect(id("a")));
    world.take_log();
    world.user(AppEvent::SendFiles((id("a"), files())));
    assert!(world.take_log().is_empty());
}

#[test]
fn media_requests_go_through_the_plugin() {
    let mut world = World::with("a", PairState::Paired);
    world.user(AppEvent::MprisAction((
        id("a"),
        "vlc".to_string(),
        "Play".to_string(),
    )));
    let action = MprisRequest::player_action("vlc".to_string(), "Play".to_string());
    assert_eq!(action.player.as_deref(), Some("vlc"));
    assert_eq!(action.action.as_deref(), Some("Play"));
    assert!(action.seek.is_none());
    let body = PacketBody::MprisRequest(action);
    assert_eq!(world.take_log(), [format!("send a MprisRequest {body:?}")]);

    let request = || MprisRequest::player_list();
    world.user(AppEvent::SendMprisRequest((id("a"), request())));
    let body = PacketBody::MprisRequest(request());
    assert_eq!(world.take_log(), [format!("send a MprisRequest {body:?}")]);
    world.user(AppEvent::SendMprisRequest((id("b"), request())));
    assert!(world.take_log().is_empty());
}

#[test]
fn unpairing_tells_the_device_and_cleans_up() {
    let mut world = World::with("a", PairState::Paired);
    let mut link = world.connect("a", 1);
    world.user(AppEvent::Unpair(id("a")));
    assert_eq!(world.take_log(), ["state a NotPaired"]);
    assert_eq!(link.received(), [PAIR_NO]);
    world.job();
    assert_eq!(
        world.take_log(),
        ["sleep 250", "clean up a", "stop volume a"]
    );
    assert!(link.closed());

    let mut world = World::with("a", PairState::Paired);
    world.user(AppEvent::Unpair(id("a")));
    world.take_log();
    world.job();
    assert_eq!(world.take_log(), ["clean up a"]);
}

#[test]
fn only_a_request_can_be_accepted() {
    for state in [
        None,
        Some(PairState::NotPaired),
        Some(PairState::Requesting),
        Some(PairState::Paired),
    ] {
        let mut world = World::new();
        if let Some(state) = state {
            world.know(device("a", state));
        }
        world.user(AppEvent::AcceptPairing(id("a")));
        assert!(world.take_log().is_empty());
        assert_eq!(world.told(), ["timed out a"]);
        world.user(AppEvent::RejectPairing(id("a")));
        assert!(world.take_log().is_empty());
        assert_eq!(world.told(), ["timed out a"]);
    }
}

#[test]
fn an_accepted_request_makes_the_device_paired() {
    let mut world = World::with("a", PairState::Requested);
    let mut link = world.connect("a", 1);
    world.user(AppEvent::AcceptPairing(id("a")));
    assert_eq!(link.received(), [PAIR_YES]);
    assert_eq!(world.take_log(), ["paired a"]);
    assert_eq!(world.state("a"), Some(PairState::Paired));
}

#[test]
fn an_acceptance_that_cannot_be_sent_does_not_pair() {
    let mut world = World::with("a", PairState::Requested);
    world.user(AppEvent::AcceptPairing(id("a")));
    assert_eq!(world.state("a"), Some(PairState::NotPaired));
    assert_eq!(world.told(), ["timed out a"]);
}

fn pair_by_the_clock(ask: fn(DeviceId) -> AppEvent) {
    let now = 1_700_000_000u64;
    for (phone_ts, version, accepted) in [
        (now, 8, true),
        (now - 1800, 8, true),
        (now + 1800, 8, true),
        (now - 1801, 8, false),
        (now + 1801, 8, false),
        (now - 1801, 7, true),
        (0, 8, true),
        (1, 9, false),
    ] {
        let mut world = World::new();
        let mut asking = device("a", PairState::Requested);
        asking.protocol_version = version;
        asking.pairing_timestamp = phone_ts;
        world.know(asking);
        let mut link = world.connect("a", 1);
        if version < 8 {
            world.devices.get_mut("a").unwrap().protocol_version = version;
        }
        world.user(ask(id("a")));
        if accepted {
            assert_eq!(link.received(), [PAIR_YES]);
            assert_eq!(world.state("a"), Some(PairState::Paired));
        } else {
            assert_eq!(link.received(), [PAIR_NO]);
            assert_eq!(world.take_log(), ["state a NotPaired"]);
            assert_eq!(world.told(), ["timed out a"]);
        }
    }
}

#[test]
fn clocks_may_be_half_an_hour_apart() {
    pair_by_the_clock(AppEvent::AcceptPairing);
}

#[test]
fn clocks_may_be_half_an_hour_apart_when_the_user_asks_too() {
    pair_by_the_clock(AppEvent::Pair);
}

#[test]
fn a_rejected_request_is_answered() {
    let mut world = World::with("a", PairState::Requested);
    let mut link = world.connect("a", 1);
    world.user(AppEvent::RejectPairing(id("a")));
    assert_eq!(link.received(), [PAIR_NO]);
    assert_eq!(world.take_log(), ["state a NotPaired"]);
    assert!(world.told().is_empty());
}

#[test]
fn the_user_can_disconnect() {
    let mut world = World::with("a", PairState::Paired);
    world.user(AppEvent::Disconnect(id("a")));
    assert!(world.told().is_empty());
    let link = world.connect("a", 1);
    world.user(AppEvent::Disconnect(id("a")));
    assert!(link.closed());
    assert_eq!(world.take_log(), ["stop volume a"]);
    assert_eq!(world.told(), ["disconnected a"]);
}

#[test]
fn plugins_can_be_switched_off_and_on() {
    let mut world = World::with("a", PairState::Paired);
    world
        .stored_disabled
        .insert("a".to_string(), vec!["ping".to_string()]);
    let link = world.connect("a", 1);
    let switch = |enabled: bool| AppEvent::SetPluginEnabled {
        device_id: id("a"),
        plugin_id: "sms".to_string(),
        enabled,
    };
    world.user(switch(false));
    assert_eq!(
        world.take_log(),
        [
            "load disabled a",
            "save disabled a [\"ping\", \"sms\"]",
            "stop volume a"
        ]
    );
    assert!(link.closed());
    assert!(world.told().is_empty());
    let registry = world.core.plugin_registry();
    assert!(!registry.is_plugin_enabled(&id("a"), "sms"));
    assert!(!registry.is_plugin_enabled(&id("a"), "ping"));
    assert!(registry.is_plugin_enabled(&id("a"), "battery"));
    assert!(registry.is_plugin_enabled(&id("b"), "sms"));
    world.user(switch(true));
    assert_eq!(
        world.take_log(),
        ["load disabled a", "save disabled a [\"ping\"]"]
    );
    let registry = world.core.plugin_registry();
    assert!(registry.is_plugin_enabled(&id("a"), "sms"));
    assert!(!registry.is_plugin_enabled(&id("a"), "ping"));
}

#[test]
fn devices_do_not_disturb_each_other() {
    let mut world = World::with("a", PairState::Paired);
    world.know(device("b", PairState::Paired));
    let first = world.connect("a", 1);
    let mut second = world.connect("b", 1);
    world.user(AppEvent::Pair(id("a")));
    world.network(incoming("a", 1, pair_packet(false)));
    world.user(AppEvent::Unpair(id("a")));
    assert!(first.closed());
    assert!(!second.closed());
    assert!(second.received().is_empty());
    assert_eq!(world.state("b"), Some(PairState::Paired));
    assert!(!world.core.has_disconnected_paired(&vec![device("b", PairState::Paired)]));
    assert!(world.core.has_disconnected_paired(&vec![
        device("b", PairState::Paired),
        device("a", PairState::Paired)
    ]));
    assert!(!world.core.has_disconnected_paired(&vec![device("a", PairState::NotPaired)]));
}

#[test]
fn an_answer_of_the_wrong_kind_changes_nothing() {
    let mut world = World::with("a", PairState::NotPaired);
    let mut task = world.core.kde_events(AppEvent::Pair(id("a")));
    assert!(matches!(
        world.core.step(&mut task, Reply::Done),
        Step::Act(Action::Lookup(_))
    ));
    assert_eq!(task.takes(), Some(Takes::Device));
    assert!(matches!(
        world.core.step(&mut task, Reply::Time(3)),
        Step::WrongReply(Reply::Time(3))
    ));
    assert_eq!(task.takes(), Some(Takes::Device));
    assert!(matches!(
        world.core.step(&mut task, Reply::Device(None)),
        Step::Idle
    ));
}

#[test]
fn a_finished_task_stays_finished() {
    let mut world = World::new();
    let mut task = world.core.kde_events(AppEvent::Broadcasting);
    assert!(matches!(
        world.core.step(&mut task, Reply::Done),
        Step::Act(Action::SendIdentity)
    ));
    assert!(matches!(
        world.core.step(&mut task, Reply::Done),
        Step::Finished
    ));
    assert!(matches!(
        world.core.step(&mut task, Reply::Done),
        Step::Finished
    ));
}

#[test]
fn the_end_of_a_source_ends_the_event_loop() {
    let world = World::new();
    assert!(world.core.run_event_loop(Wake::Core(None)).is_none());
    assert!(world.core.run_event_loop(Wake::Transport(None)).is_none());
    assert!(world.core.run_event_loop(Wake::App(None)).is_none());
    let task = world
        .core
        .run_event_loop(Wake::App(Some(AppEvent::Broadcasting)))
        .unwrap();
    assert_eq!(task.takes(), Some(Takes::Anything));
    let task = world
        .core
        .run_event_loop(Wake::Core(Some(CoreEvent::Error("x".to_string()))))
        .unwrap();
    assert!(task.takes().is_none());
    let stale = TransportEvent::Disconnected {
        id: id("a"),
        conn_id: 1,
    };
    let task = world
        .core
        .run_event_loop(Wake::Transport(Some(stale)))
        .unwrap();
    assert!(task.takes().is_none());
}

#[test]
fn the_user_reaches_the_core_through_its_channel() {
    let mut world = World::new();
    world
        .core
        .take_events()
        .send(AppEvent::Broadcasting)
        .unwrap();
    assert!(matches!(
        world.in_rx.try_recv(),
        Ok(AppEvent::Broadcasting)
    ));
    world
        .core
        .event_sender()
        .send(CoreEvent::Error("x".to_string()))
        .unwrap();
    assert_eq!(world.posted().len(), 1);
    let event = || ConnectionEvent::Disconnected(id("a"));
    world.core.conn_sender().send(event()).unwrap();
    world.core.mpris_conn_sender().send(event()).unwrap();
    assert_eq!(world.told(), ["disconnected a"]);
}

#[test]
fn a_settled_pair_state_lets_a_stranger_be_told_again() {
    let mut world = World::with("a", PairState::NotPaired);
    let mut link = world.connect("a", 1);
    world.network(incoming("a", 1, packet(PacketType::Battery)));
    assert_eq!(link.received(), [PAIR_NO]);
    world.ask(CoreEvent::DevicePairStateChanged((
        id("a"),
        PairState::NotPaired,
    )));
    let mut link = world.connect("a", 2);
    world.network(incoming("a", 2, packet(PacketType::Battery)));
    assert_eq!(link.received(), [PAIR_NO]);
}

#[test]
fn a_forgotten_attempt_number_is_given_out_again() {
    let mut world = World::with("a", PairState::NotPaired);
    let _link = world.connect("a", 1);
    world.user(AppEvent::Pair(id("a")));
    world.network(incoming("a", 1, pair_packet(false)));
    world.user(AppEvent::Pair(id("a")));
    assert!(matches!(
        world.jobs[..],
        [
            Job::PairWatch { attempt: 1, .. },
            Job::PairWatch { attempt: 1, .. }
        ]
    ));
}

#[test]
fn stored_settings_are_in_force_once_connected() {
    for state in [PairState::NotPaired, PairState::Paired] {
        let mut world = World::with("a", state);
        world.stored_disabled.insert(
            "a".to_string(),
            vec!["sms".to_string(), "battery".to_string()],
        );
        world.discovered = Some(device("a", state));
        let (event, mut link) = arrival("a", 1, 8, None);
        world.network(event);
        let registry = world.core.plugin_registry();
        assert!(!registry.is_plugin_enabled(&id("a"), "sms"));
        assert!(!registry.is_plugin_enabled(&id("a"), "battery"));
        assert!(registry.is_plugin_enabled(&id("a"), "contacts"));
        let received = link.received();
        assert!(!received.contains(&"SmsRequestConversations Empty".to_string()));
        assert!(!world.take_log().contains(&"battery a".to_string()));
    }
}

#[test]
fn settings_no_longer_stored_are_lifted_on_connect() {
    let mut world = World::with("a", PairState::Paired);
    let _link = world.connect("a", 1);
    world.user(AppEvent::SetPluginEnabled {
        device_id: id("a"),
        plugin_id: "sms".to_string(),
        enabled: false,
    });
    world.stored_disabled.clear();
    let _link = world.connect("a", 2);
    assert!(world.core.plugin_registry().is_plugin_enabled(&id("a"), "sms"));
}

#[test]
fn a_packet_that_may_not_be_sent_goes_nowhere() {
    let mut world = World::with("a", PairState::NotPaired);
    let mut link = world.connect("a", 1);
    world.user(AppEvent::SendPacket(id("a"), packet(PacketType::Battery)));
    assert!(link.received().is_empty());
    assert!(world.told().is_empty());
    assert!(world.posted().is_empty());
    assert!(world.take_log().is_empty());
    assert!(!link.closed());
}

#[test]
fn an_acceptance_that_is_refused_does_not_pair() {
    let mut world = World::with("a", PairState::Requested);
    let link = world.connect("a", 1);
    drop(link.packets);
    world.user(AppEvent::AcceptPairing(id("a")));
    assert_eq!(world.state("a"), Some(PairState::NotPaired));
    assert!(*link.shutdown.borrow());
    assert_eq!(world.told(), ["disconnected a", "timed out a"]);
    assert!(!world.take_log().contains(&"paired a".to_string()));
}

#[test]
fn a_step_reports_what_the_connection_answered() {
    for open in [true, false] {
        let mut world = World::with("a", PairState::Paired);
        let mut link = world.connect("a", 1);
        if !open {
            link.packets.close();
        }
        let send = AppEvent::SendPacket(id("a"), packet(PacketType::Lock));
        let mut task = world.core.kde_events(send);
        world.core.step(&mut task, Reply::Done);
        let found = Reply::Device(Some(device("a", PairState::Paired)));
        match world.core.step(&mut task, found) {
            Step::Offered(taken) => assert_eq!(taken, open),
            _ => panic!("the packet was not offered"),
        }
        assert_eq!(link.packets.try_recv().is_ok(), open);
        assert_eq!(task.takes().is_none(), open);
    }
}
