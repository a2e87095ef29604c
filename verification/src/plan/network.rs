//! What happens on the network: connections, packets and failures.
use tokio::sync::mpsc::UnboundedSender;
use vstd::prelude::*;

use crate::connection::{is_current_connection, pair_false_packet, ConnectionHandle};
use crate::device::{duplicate_certificate, Certificate, Device, DeviceId, PairState};
use crate::device_map::DeviceMap;
use crate::event::{ConnMetadata, ConnectionEvent, CoreEvent, TransportEvent};
use crate::plan;
use crate::plan::{joined, lookup_op, timed_out_op, unpair_op};
use crate::protocol::{PacketBody, PacketType, Pair, ProtocolPacket};
use crate::task::{Action, AfterDrop, Arrival, Discovery, Greeting, Job, Op, Then};

verus! {

/// Make the record of a peer that has connected, and settle whether it is let in.
pub open spec fn new_connection(
    addr: String,
    id: DeviceId,
    name: String,
    handle: ConnectionHandle,
    conn_id: u64,
    meta: ConnMetadata,
) -> Seq<Op> {
    seq![
        Op::Do(
            Action::Discover(
                Discovery {
                    id,
                    name,
                    device_type: meta.device_type,
                    incoming_capabilities: meta.incoming_capabilities,
                    outgoing_capabilities: meta.outgoing_capabilities,
                    addr,
                },
            ),
        ),
        Op::Admit(
            Arrival {
                id,
                conn_id,
                handle,
                protocol_version: meta.protocol_version,
                pairing_timestamp: meta.pairing_timestamp,
                peer_certificate: meta.peer_certificate,
            },
        ),
    ]
}

/// The number of the connection that a packet came over; connections off the record count as
/// number zero.
pub open spec fn claimed(via: Option<u64>) -> u64 {
    match via {
        Some(number) => number,
        None => 0,
    }
}

/// The report on bytes that are no packet.
pub open spec fn invalid_packet_report(addr: Seq<char>, reason: Seq<char>) -> Seq<char> {
    "Invalid packet from "@ + addr + ": "@ + reason
}

/// What a packet over the current connection leads to. Pairing packets go by the pair state of
/// the device. Identity packets, and pairing packets that say neither yes nor no, mean nothing
/// here. All others have to come from a paired device.
pub open spec fn incoming_packet(id: DeviceId, packet: ProtocolPacket) -> Seq<Op> {
    match packet.packet_type {
        PacketType::Pair => match packet.body {
            PacketBody::Pair(pair) => seq![
                plan::lookup(id),
                Op::PairReceived(id, pair, packet),
            ],
            _ => seq![],
        },
        PacketType::Identity => seq![],
        _ => seq![plan::lookup(id), Op::PacketReceived(id, packet)],
    }
}

/// What the end of the current connection leads to.
pub open spec fn disconnected(id: DeviceId, conn_id: u64) -> Seq<Op> {
    seq![
        plan::lookup(id),
        Op::FailPairing(id),
        Op::DropIfCurrent(id, conn_id, AfterDrop::Nothing),
        Op::Do(Action::StopSystemVolume(id)),
        plan::lookup(id),
        Op::BroadcastIfPaired(id),
        Op::Publish(ConnectionEvent::Disconnected(id)),
    ]
}

/// What a packet that could not be sent over the current connection leads to.
pub open spec fn send_failed(id: DeviceId, packet_type: PacketType, conn_id: u64) -> Seq<Op> {
    if packet_type is Pair {
        seq![
            plan::lookup(id),
            Op::FailPairing(id),
            Op::DropIfCurrent(id, conn_id, AfterDrop::Broadcast),
        ]
    } else {
        seq![Op::DropIfCurrent(id, conn_id, AfterDrop::Broadcast)]
    }
}

/// What a certificate that is not the device's own leads to.
pub open spec fn trust_failed(id: DeviceId) -> Seq<Op> {
    seq![
        plan::lookup(id),
        Op::Distrust(id),
        plan::unpair(id),
        Op::Do(Action::CleanUp(id)),
    ]
}

/// Whether these operations are what an event on the network leads to, given which connections
/// are current. Nothing follows on an event of a connection that was replaced or has ended.
pub open spec fn transport_plan(
    conn_ids: Map<Seq<char>, u64>,
    event: TransportEvent,
    ops: Seq<Op>,
) -> bool {
    match event {
        TransportEvent::NewConnection { addr, id, name, write_tx, conn_id, meta } => exists|
            known: ConnMetadata,
            handle: ConnectionHandle,
        | #[trigger]
            known.stands_for(meta) && #[trigger] handle.is_fresh(write_tx, known.shutdown_tx) && ops
                == new_connection(addr, id, name, handle, conn_id, known),
        TransportEvent::IncomingPacket { addr, id, via, packet } => if crate::connection::is_current(
            conn_ids,
            id@,
            claimed(via),
        ) {
            match packet {
                Ok(packet) => ops == incoming_packet(id, packet),
                Err(reason) => {
                    &&& ops.len() == 1
                    &&& ops[0] matches Op::Post(CoreEvent::Error(report))
                    &&& report@ == invalid_packet_report(addr@, reason@)
                },
            }
        } else {
            ops == Seq::<Op>::empty()
        },
        TransportEvent::Disconnected { id, conn_id } => if crate::connection::is_current(
            conn_ids,
            id@,
            conn_id,
        ) {
            ops == disconnected(id, conn_id)
        } else {
            ops == Seq::<Op>::empty()
        },
        TransportEvent::PacketSendFailed { id, packet_type, conn_id } => if crate::connection::is_current(
            conn_ids,
            id@,
            conn_id,
        ) {
            ops == send_failed(id, packet_type, conn_id)
        } else {
            ops == Seq::<Op>::empty()
        },
        TransportEvent::PairTrustFailed { id } => ops == trust_failed(id),
    }
}

/// Decides what a new connection leads to.
fn plan_new_connection(
    addr: String,
    id: DeviceId,
    name: String,
    write_tx: UnboundedSender<ProtocolPacket>,
    conn_id: u64,
    meta: ConnMetadata,
) -> (ops: Vec<Op>)
    ensures
        exists|handle: ConnectionHandle| #[trigger]
            handle.is_fresh(write_tx, meta.shutdown_tx) && ops@ == new_connection(
                addr,
                id,
                name,
                handle,
                conn_id,
                meta,
            ),
{
    let ConnMetadata {
        device_type,
        incoming_capabilities,
        outgoing_capabilities,
        protocol_version,
        pairing_timestamp,
        peer_certificate,
        shutdown_tx,
    } = meta;
    let handle = ConnectionHandle::new(write_tx, shutdown_tx);
    let ops = vec![
        Op::Do(
            Action::Discover(
                Discovery {
                    id: id.duplicate(),
                    name,
                    device_type,
                    incoming_capabilities,
                    outgoing_capabilities,
                    addr,
                },
            ),
        ),
        Op::Admit(
            Arrival {
                id,
                conn_id,
                handle,
                protocol_version,
                pairing_timestamp,
                peer_certificate,
            },
        ),
    ];
    assert(ops@ =~= new_connection(addr, id, name, handle, conn_id, meta));
    ops
}

/// Puts the report on bytes that are no packet into words.
pub fn report_invalid_packet(addr: &str, reason: &str) -> (report: String)
    ensures
        report@ == invalid_packet_report(addr@, reason@),
{
    let mut report = "Invalid packet from ".to_owned();
    report.append(addr);
    report.append(": ");
    report.append(reason);
    report
}

/// Decides what a packet over the current connection leads to.
fn plan_incoming_packet(id: DeviceId, packet: ProtocolPacket) -> (ops: Vec<Op>)
    ensures
        ops@ == incoming_packet(id, packet),
{
    match &packet.packet_type {
        PacketType::Pair => {
            let pair: Pair = match &packet.body {
                PacketBody::Pair(pair) => *pair,
                _ => {
                    return Vec::new();
                },
            };
            vec![lookup_op(&id), Op::PairReceived(id, pair, packet)]
        },
        PacketType::Identity => Vec::new(),
        _ => vec![lookup_op(&id), Op::PacketReceived(id, packet)],
    }
}

/// Decides what a packet that could not be sent over the current connection leads to.
fn plan_send_failed(id: DeviceId, packet_type: PacketType, conn_id: u64) -> (ops: Vec<Op>)
    ensures
        ops@ == send_failed(id, packet_type, conn_id),
{
    match packet_type {
        PacketType::Pair => vec![
            lookup_op(&id),
            Op::FailPairing(id.duplicate()),
            Op::DropIfCurrent(id, conn_id, AfterDrop::Broadcast),
        ],
        _ => vec![Op::DropIfCurrent(id, conn_id, AfterDrop::Broadcast)],
    }
}

/// Decides what an event on the network leads to.
pub fn plan_transport(conn_id_map: &DeviceMap<u64>, event: TransportEvent) -> (ops: Vec<Op>)
    ensures
        transport_plan(conn_id_map@, event, ops@),
{
    match event {
        TransportEvent::NewConnection { addr, id, name, write_tx, conn_id, meta } => {
            let known = ConnMetadata::or_unknown(meta);
            plan_new_connection(addr, id, name, write_tx, conn_id, known)
        },
        TransportEvent::IncomingPacket { addr, id, via, packet } => {
            let conn_id: u64 = match via {
                Some(number) => number,
                None => 0,
            };
            if !is_current_connection(conn_id_map, &id, conn_id) {
                return Vec::new();
            }
            match packet {
                Ok(packet) => plan_incoming_packet(id, packet),
                Err(reason) => vec![
                    Op::Post(
                        CoreEvent::Error(report_invalid_packet(addr.as_str(), reason.as_str())),
                    ),
                ],
            }
        },
        TransportEvent::Disconnected { id, conn_id } => {
            if !is_current_connection(conn_id_map, &id, conn_id) {
                return Vec::new();
            }
            vec![
                lookup_op(&id),
                Op::FailPairing(id.duplicate()),
                Op::DropIfCurrent(id.duplicate(), conn_id, AfterDrop::Nothing),
                Op::Do(Action::StopSystemVolume(id.duplicate())),
                lookup_op(&id),
                Op::BroadcastIfPaired(id.duplicate()),
                Op::Publish(ConnectionEvent::Disconnected(id)),
            ]
        },
        TransportEvent::PacketSendFailed { id, packet_type, conn_id } => {
            if !is_current_connection(conn_id_map, &id, conn_id) {
                return Vec::new();
            }
            plan_send_failed(id, packet_type, conn_id)
        },
        TransportEvent::PairTrustFailed { id } => vec![
            lookup_op(&id),
            Op::Distrust(id.duplicate()),
            unpair_op(&id),
            Op::Do(Action::CleanUp(id)),
        ],
    }
}

/// A device with the certificate forgotten.
pub open spec fn without_certificate(device: Device) -> Device {
    Device { remote_certificate: None, ..device }
}

/// A device with the certificate that the peer presented, if it presented one.
pub open spec fn with_certificate(device: Device, peer: Option<Certificate>) -> Device {
    match peer {
        Some(_) => Device { remote_certificate: peer, ..device },
        None => device,
    }
}

/// Whether a peer presented another certificate than the one stored.
pub open spec fn certificate_changed(stored: Option<Certificate>, peer: Option<Certificate>) -> bool {
    match (stored, peer) {
        (Some(s), Some(p)) => s@ != p@,
        (Some(_), None) => true,
        (None, _) => false,
    }
}

/// Whether a peer presented another certificate than the one stored.
pub fn is_certificate_changed(stored: &Option<Certificate>, peer: &Option<Certificate>) -> (changed:
    bool)
    ensures
        changed == certificate_changed(*stored, *peer),
{
    match (stored, peer) {
        (Some(s), Some(p)) => !s.same_bytes(p),
        (Some(_), None) => true,
        (None, _) => false,
    }
}

/// Greet a device that has come back.
pub open spec fn welcome(id: DeviceId) -> Seq<Op> {
    seq![
        Op::Greet(id, Greeting::Contacts),
        Op::Greet(id, Greeting::Notification),
        Op::Greet(id, Greeting::Sms),
        Op::Greet(id, Greeting::Battery),
        Op::Greet(id, Greeting::Connectivity),
        Op::Greet(id, Greeting::Mousepad),
        Op::Greet(id, Greeting::RunCommand),
        Op::Greet(id, Greeting::SystemVolume),
    ]
}

fn plan_welcome(id: &DeviceId) -> (ops: Vec<Op>)
    ensures
        ops@ == welcome(*id),
{
    vec![
        Op::Greet(id.duplicate(), Greeting::Contacts),
        Op::Greet(id.duplicate(), Greeting::Notification),
        Op::Greet(id.duplicate(), Greeting::Sms),
        Op::Greet(id.duplicate(), Greeting::Battery),
        Op::Greet(id.duplicate(), Greeting::Connectivity),
        Op::Greet(id.duplicate(), Greeting::Mousepad),
        Op::Greet(id.duplicate(), Greeting::RunCommand),
        Op::Greet(id.duplicate(), Greeting::SystemVolume),
    ]
}

/// Install a connection that was let in: record the device, install, put in force which plugins are
/// stored as switched off, greet the device if it is paired, and tell the user.
pub open spec fn settle(arrival: Arrival, device: Device) -> Seq<Op> {
    let id = arrival.id;
    let record = seq![
        Op::Do(Action::AddOrUpdateDevice(id, device)),
        Op::Do(Action::SetProtocolVersion(id, arrival.protocol_version)),
    ];
    let timestamp = if arrival.pairing_timestamp > 0 {
        seq![Op::Do(Action::SetPairingTimestamp(id, arrival.pairing_timestamp))]
    } else {
        seq![]
    };
    let greetings = if device.pair_state == PairState::Paired {
        welcome(id)
    } else {
        seq![]
    };
    record + timestamp + seq![
        Op::Install(id, arrival.conn_id, arrival.handle),
        Op::Do(Action::LoadDisabled(id)),
        Op::RestoreDisabled(id),
    ] + greetings + seq![Op::Publish(ConnectionEvent::Connected((id, device)))]
}

/// Decides how a connection that was let in is installed.
pub fn plan_settle(arrival: Arrival, device: Device) -> (ops: Vec<Op>)
    ensures
        ops@ == settle(arrival, device),
{
    let ghost whole = arrival;
    let Arrival { id, conn_id, handle, protocol_version, pairing_timestamp, peer_certificate: _ } =
        arrival;
    let paired = matches!(device.pair_state, PairState::Paired);
    let mut ops = vec![
        Op::Do(Action::AddOrUpdateDevice(id.duplicate(), device.duplicate())),
        Op::Do(Action::SetProtocolVersion(id.duplicate(), protocol_version)),
    ];
    if pairing_timestamp > 0 {
        ops.push(Op::Do(Action::SetPairingTimestamp(id.duplicate(), pairing_timestamp)));
    }
    ops.push(Op::Install(id.duplicate(), conn_id, handle));
    ops.push(Op::Do(Action::LoadDisabled(id.duplicate())));
    ops.push(Op::RestoreDisabled(id.duplicate()));
    if paired {
        ops = joined(ops, plan_welcome(&id));
    }
    ops.push(Op::Publish(ConnectionEvent::Connected((id, device))));
    assert(ops@ =~= settle(whole, device));
    ops
}

/// Whether a connection is let in. A paired device that comes back with an older protocol version
/// is turned away. One that comes back with another certificate is unpaired and forgotten. All
/// others are let in; a paired device whose certificate was not known yet is saved first.
pub open spec fn admitted(arrival: Arrival, found: Option<Device>) -> Seq<Op> {
    match found {
        None => seq![],
        Some(device) => {
            let paired = device.pair_state == PairState::Paired;
            let peer = arrival.peer_certificate;
            if paired && device.protocol_version > arrival.protocol_version {
                seq![]
            } else if paired && certificate_changed(device.remote_certificate, peer) {
                seq![
                    Op::Do(Action::AddOrUpdateDevice(arrival.id, without_certificate(device))),
                    plan::unpair(arrival.id),
                    Op::Do(Action::CleanUp(arrival.id)),
                ]
            } else if paired && device.remote_certificate is None && peer is Some {
                seq![
                    Op::Do(
                        Action::SavePairState(with_certificate(device, peer), PairState::Paired),
                    ),
                    Op::Settle(arrival),
                ]
            } else {
                settle(arrival, with_certificate(device, peer))
            }
        },
    }
}

/// Decides whether a connection is let in.
pub fn plan_admit(arrival: Arrival, found: Option<Device>) -> (ops: Vec<Op>)
    ensures
        ops@ == admitted(arrival, found),
{
    let mut device = match found {
        Some(device) => device,
        None => {
            return Vec::new();
        },
    };
    let ghost original = device;
    let paired = matches!(device.pair_state, PairState::Paired);
    if paired && device.protocol_version > arrival.protocol_version {
        return Vec::new();
    }
    if paired && is_certificate_changed(&device.remote_certificate, &arrival.peer_certificate) {
        device.remote_certificate = None;
        return vec![
            Op::Do(Action::AddOrUpdateDevice(arrival.id.duplicate(), device)),
            unpair_op(&arrival.id),
            Op::Do(Action::CleanUp(arrival.id)),
        ];
    }
    let backfill = paired && device.remote_certificate.is_none()
        && arrival.peer_certificate.is_some();
    if arrival.peer_certificate.is_some() {
        device.remote_certificate = duplicate_certificate(&arrival.peer_certificate);
    }
    assert(device == with_certificate(original, arrival.peer_certificate));
    if backfill {
        return vec![
            Op::Do(Action::SavePairState(device, PairState::Paired)),
            Op::Settle(arrival),
        ];
    }
    plan_settle(arrival, device)
}

/// What a pair packet leads to. A refusal ends a pairing that exists or is under way, and means
/// nothing otherwise. A request is taken up.
pub open spec fn pair_received(
    id: DeviceId,
    pair: Pair,
    packet: ProtocolPacket,
    found: Option<Device>,
) -> Seq<Op> {
    match found {
        None => seq![],
        Some(device) => if pair.pair {
            seq![
                Op::Do(
                    Action::HandlePairRequest {
                        device_id: device.device_id,
                        name: device.name,
                        address: device.address,
                        packet,
                    },
                ),
                Op::PairAsked(id, device.name),
            ]
        } else {
            match device.pair_state {
                PairState::Paired => seq![
                    Op::ForgetAttempt(id),
                    plan::unpair(id),
                    Op::Do(Action::CleanUp(id)),
                    Op::Drop(id, AfterDrop::StopVolume),
                ],
                PairState::Requesting | PairState::Requested => seq![
                    Op::ForgetAttempt(id),
                    plan::unpair(id),
                    plan::tell_timed_out(id),
                ],
                PairState::NotPaired => seq![],
            }
        },
    }
}

/// Decides what a pair packet leads to.
pub fn plan_pair_received(
    id: DeviceId,
    pair: Pair,
    packet: ProtocolPacket,
    found: Option<Device>,
) -> (ops: Vec<Op>)
    ensures
        ops@ == pair_received(id, pair, packet, found),
{
    let device = match found {
        Some(device) => device,
        None => {
            return Vec::new();
        },
    };
    if pair.pair {
        let Device { device_id, name, address, .. } = device;
        return vec![
            Op::Do(
                Action::HandlePairRequest { device_id, name: name.clone(), address, packet },
            ),
            Op::PairAsked(id, name),
        ];
    }
    match device.pair_state {
        PairState::Paired => vec![
            Op::ForgetAttempt(id.duplicate()),
            unpair_op(&id),
            Op::Do(Action::CleanUp(id.duplicate())),
            Op::Drop(id, AfterDrop::StopVolume),
        ],
        PairState::Requesting | PairState::Requested => vec![
            Op::ForgetAttempt(id.duplicate()),
            unpair_op(&id),
            timed_out_op(&id),
        ],
        PairState::NotPaired => Vec::new(),
    }
}

/// Let the user know of a new pairing request, and refuse it if no answer comes.
pub open spec fn pair_asked(id: DeviceId, name: String, new: bool) -> Seq<Op> {
    if new {
        seq![
            Op::Publish(ConnectionEvent::PairingRequested((id, name))),
            Op::Do(Action::Spawn(Job::IncomingPairTimeout(id))),
        ]
    } else {
        seq![]
    }
}

/// Decides whether the user is to know of a pairing request.
pub fn plan_pair_asked(id: DeviceId, name: String, new: bool) -> (ops: Vec<Op>)
    ensures
        ops@ == pair_asked(id, name, new),
{
    if new {
        vec![
            Op::Publish(ConnectionEvent::PairingRequested((id.duplicate(), name))),
            Op::Do(Action::Spawn(Job::IncomingPairTimeout(id))),
        ]
    } else {
        Vec::new()
    }
}

/// Turn a stranger away: make sure it counts as not paired, tell it so unless it was just told,
/// and drop the connection.
pub open spec fn reject_unpaired(id: DeviceId) -> Seq<Op> {
    seq![
        Op::ForgetAttempt(id),
        plan::lookup(id),
        Op::Disown(id),
        Op::Do(Action::StopSystemVolume(id)),
        Op::Do(Action::ReadMonotonicClock),
        Op::Resync(id),
    ]
}

/// Decides how a stranger is turned away.
pub fn reject_unpaired_packet(id: DeviceId) -> (ops: Vec<Op>)
    ensures
        ops@ == reject_unpaired(id),
{
    vec![
        Op::ForgetAttempt(id.duplicate()),
        lookup_op(&id),
        Op::Disown(id.duplicate()),
        Op::Do(Action::StopSystemVolume(id.duplicate())),
        Op::Do(Action::ReadMonotonicClock),
        Op::Resync(id),
    ]
}

/// What a packet for a plugin leads to: it goes on only if it comes from a paired device.
pub open spec fn packet_received(id: DeviceId, packet: ProtocolPacket, found: Option<Device>) -> Seq<
    Op,
> {
    if crate::device::pair_state_of(found) == Some(PairState::Paired) {
        seq![Op::Post(CoreEvent::PacketReceived { device: id, packet })]
    } else {
        reject_unpaired(id)
    }
}

/// Decides what a packet for a plugin leads to.
pub fn plan_packet_received(id: DeviceId, packet: ProtocolPacket, found: Option<Device>) -> (ops: Vec<
    Op,
>)
    ensures
        ops@ == packet_received(id, packet, found),
{
    let paired = match found {
        Some(device) => matches!(device.pair_state, PairState::Paired),
        None => false,
    };
    if paired {
        vec![Op::Post(CoreEvent::PacketReceived { device: id, packet })]
    } else {
        reject_unpaired_packet(id)
    }
}

/// Make sure a stranger counts as not paired.
pub open spec fn disown(id: DeviceId, found: Option<Device>) -> Seq<Op> {
    match found {
        Some(device) => if device.pair_state != PairState::NotPaired {
            seq![plan::unpair(id)]
        } else {
            seq![]
        },
        None => seq![],
    }
}

/// Decides whether a stranger has to be recorded as not paired.
pub fn plan_disown(id: DeviceId, found: Option<Device>) -> (ops: Vec<Op>)
    ensures
        ops@ == disown(id, found),
{
    match found {
        Some(device) => match device.pair_state {
            PairState::NotPaired => Vec::new(),
            _ => vec![unpair_op(&id)],
        },
        None => Vec::new(),
    }
}

/// Tell a stranger that it is not paired, if that is due; otherwise drop it at once.
pub open spec fn resync(id: DeviceId, due: bool) -> Seq<Op> {
    if due {
        seq![Op::Queue(id, crate::connection::pair_false(), Then::Resync(id))]
    } else {
        seq![Op::Drop(id, AfterDrop::StopVolume)]
    }
}

/// Decides between a notice and an immediate drop.
pub fn plan_resync(id: DeviceId, due: bool) -> (ops: Vec<Op>)
    ensures
        ops@ == resync(id, due),
{
    if due {
        vec![Op::Queue(id.duplicate(), pair_false_packet(), Then::Resync(id))]
    } else {
        vec![Op::Drop(id, AfterDrop::StopVolume)]
    }
}

/// Forget the certificate of a device.
pub open spec fn distrust(id: DeviceId, found: Option<Device>) -> Seq<Op> {
    match found {
        Some(device) => seq![Op::Do(Action::AddOrUpdateDevice(id, without_certificate(device)))],
        None => seq![],
    }
}

/// Decides whether there is a certificate to forget.
pub fn plan_distrust(id: DeviceId, found: Option<Device>) -> (ops: Vec<Op>)
    ensures
        ops@ == distrust(id, found),
{
    match found {
        Some(found_device) => {
            let mut device = found_device;
            device.remote_certificate = None;
            vec![Op::Do(Action::AddOrUpdateDevice(id, device))]
        },
        None => Vec::new(),
    }
}

} // verus!
