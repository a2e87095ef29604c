//! What each event leads to, in terms of what came with it.
use tokio::sync::mpsc::UnboundedSender;
use vstd::prelude::*;

use crate::channel::Flow;
use crate::device::{Device, DeviceId, PairState};
use crate::event::{
    AppEvent, ConnMetadata, ConnectionEvent, CoreEvent, Payload, TransportEvent,
};
use crate::laws::operations;
use crate::plan::job;
use crate::plan::network;
use crate::plan::request;
use crate::plan::user;
use crate::protocol::{MprisRequest, PacketBody, PacketType, Pair, Ping, ProtocolPacket};
use crate::state::CoreState;
use crate::task::{Action, AfterDrop, Arrival, Discovery, Greeting, Job, Op, Then};

verus! {

/// A request of the user to announce this side does that, and nothing else.
pub proof fn law_announcing_this_side()
    ensures
        user::app_ops(AppEvent::Broadcasting) == seq![Op::Do(Action::SendIdentity)],
{
    assert(user::app_ops(AppEvent::Broadcasting) =~= seq![Op::Do(Action::SendIdentity)]);
}

/// Wanting to pair, accepting and refusing begin with looking up the device that the user named, and
/// go on with that device.
pub proof fn law_pairing_begins_with_a_lookup(id: DeviceId)
    ensures
        user::app_ops(AppEvent::Pair(id)) == seq![
            Op::Do(Action::Lookup(id)),
            Op::PairWanted(id),
        ],
        user::app_ops(AppEvent::AcceptPairing(id)) == seq![
            Op::Do(Action::Lookup(id)),
            Op::Accept(id),
        ],
        user::app_ops(AppEvent::RejectPairing(id)) == seq![
            Op::Do(Action::Lookup(id)),
            Op::Refuse(id),
        ],
{
}

/// Sharing files begins with looking up the device that the user named, and goes on with that device
/// and with all the files that the user named.
pub proof fn law_sharing_begins_with_a_lookup(id: DeviceId, files: Vec<String>)
    ensures
        user::app_ops(AppEvent::SendFiles((id, files))) == seq![
            Op::Do(Action::Lookup(id)),
            Op::ShareGate(id, files),
        ],
{
}

/// A ping carries the message that the user gave, and goes to the device that the user named.
pub proof fn law_a_ping_carries_its_message(id: DeviceId, message: String)
    ensures
        user::app_ops(AppEvent::Ping((id, message))) == seq![
            Op::Queue(
                id,
                ProtocolPacket {
                    packet_type: PacketType::Ping,
                    body: PacketBody::Ping(Ping { message: Some(message) }),
                    payload_transfer_info: None,
                },
                Then::Nothing,
            ),
        ],
{
    assert(user::app_ops(AppEvent::Ping((id, message))) =~= seq![
        Op::Queue(
            id,
            ProtocolPacket {
                packet_type: PacketType::Ping,
                body: PacketBody::Ping(Ping { message: Some(message) }),
                payload_transfer_info: None,
            },
            Then::Nothing,
        ),
    ]);
}

/// A packet that the user, or a part of the program, wants sent is sent as it is.
pub proof fn law_packets_are_sent_as_they_are(id: DeviceId, packet: ProtocolPacket)
    ensures
        user::app_ops(AppEvent::SendPacket(id, packet)) == seq![
            Op::Queue(id, packet, Then::Nothing),
        ],
        request::core_ops(CoreEvent::SendPacket { device: id, packet }) == seq![
            Op::Queue(id, packet, Then::Nothing),
        ],
{
    assert(user::app_ops(AppEvent::SendPacket(id, packet)) =~= seq![
        Op::Queue(id, packet, Then::Nothing),
    ]);
    assert(request::core_ops(CoreEvent::SendPacket { device: id, packet }) =~= seq![
        Op::Queue(id, packet, Then::Nothing),
    ]);
}

/// The request that a task hands to a media player of a device: the body of the one packet that it
/// sends there.
pub open spec fn media_request(ops: Seq<Op>, id: DeviceId) -> Option<MprisRequest> {
    if ops.len() == 2 && ops[0] == Op::Do(Action::Lookup(id)) {
        match ops[1] {
            Op::PluginSendTo(packet) => if packet.packet_type is MprisRequest
                && packet.payload_transfer_info is None {
                match packet.body {
                    PacketBody::MprisRequest(request) => Some(request),
                    _ => None,
                }
            } else {
                None
            },
            _ => None,
        }
    } else {
        None
    }
}

/// A media request of the user goes to the device that the user named as it is, field by field; so
/// different requests lead to different packets.
pub proof fn law_media_requests_are_sent_as_they_are(id: DeviceId, request: MprisRequest)
    ensures
        media_request(user::app_ops(AppEvent::SendMprisRequest((id, request))), id) == Some(
            request,
        ),
        forall|other: MprisRequest|
            other != request ==> media_request(
                #[trigger] user::app_ops(AppEvent::SendMprisRequest((id, other))),
                id,
            ) != Some(request),
{
}

/// A media action of the user goes to the device that the user named: the request names the player
/// and the action, and asks for nothing else.
pub proof fn law_media_actions_name_player_and_action(id: DeviceId, player: String, action: String)
    ensures
        media_request(user::app_ops(AppEvent::MprisAction((id, player, action))), id) == Some(
            (MprisRequest {
                player: Some(player),
                request_now_playing: None,
                request_player_list: None,
                request_volume: None,
                seek: None,
                set_loop_status: None,
                set_position: None,
                set_shuffle: None,
                set_volume: None,
                action: Some(action),
                album_art_url: None,
            }),
        ),
{
}

/// Unpairing forgets the attempt, records the device as not paired, and then tells it; the
/// cleaning up follows, whether or not that could be sent.
pub proof fn law_unpairing(id: DeviceId)
    ensures
        user::app_ops(AppEvent::Unpair(id)) == seq![
            Op::ForgetAttempt(id),
            Op::Do(Action::UpdatePairState(id, PairState::NotPaired)),
            Op::Queue(id, operations::no(), Then::Unpaired(id)),
        ],
{
}

/// Disconnecting drops the connection of the device that the user named and tells the user; and
/// switching a plugin begins with reading what is stored for the device that the user named.
pub proof fn law_disconnecting_and_switching(id: DeviceId, plugin: String, on: bool)
    ensures
        user::app_ops(AppEvent::Disconnect(id)) == seq![Op::Drop(id, AfterDrop::Tell)],
        user::app_ops(
            AppEvent::SetPluginEnabled { device_id: id, plugin_id: plugin, enabled: on },
        ) == seq![Op::Do(Action::LoadDisabled(id)), Op::Toggle(id, plugin, on)],
{
    assert(user::app_ops(AppEvent::Disconnect(id)) =~= seq![Op::Drop(id, AfterDrop::Tell)]);
}

/// A received packet is dispatched as it is to the device it came from; and a payload goes with its
/// packet to the device it is for.
pub proof fn law_packets_and_payloads_stay_whole(
    id: DeviceId,
    packet: ProtocolPacket,
    payload: Payload,
)
    ensures
        request::core_ops(CoreEvent::PacketReceived { device: id, packet }) == seq![
            Op::Do(Action::Lookup(id)),
            Op::DispatchTo(packet),
        ],
        request::core_ops(CoreEvent::SendPaylod { device: id, packet, payload }) == seq![
            Op::Do(Action::Lookup(id)),
            Op::PayloadGate(id, packet, payload),
        ],
{
}

/// A device that was discovered, and an error, call for nothing.
pub proof fn law_reports_call_for_nothing(device: Device, error: String)
    ensures
        request::core_ops(CoreEvent::DeviceDiscovered(device)).len() == 0,
        request::core_ops(CoreEvent::Error(error)).len() == 0,
{
}

/// A device that was paired is no longer counted as asked or told off; it is asked for contacts,
/// conversations and media players, and the user told of it.
pub proof fn law_a_paired_device_is_welcomed(id: DeviceId, device: Device)
    ensures
        request::core_ops(CoreEvent::DevicePaired((id, device))) == seq![
            Op::ForgetAttempt(id),
            Op::ClearResync(id),
            Op::Greet(id, Greeting::Contacts),
            Op::Greet(id, Greeting::Sms),
            Op::Greet(id, Greeting::MprisPlayers),
            Op::Publish(ConnectionEvent::DevicePaired((id, device))),
        ],
{
}

/// The user is told of every change of a pair state, as it is, in the end. Where pairing is settled
/// either way, attempt and notices are forgotten before; where the device is no longer paired, its
/// volume control is stopped as well. A cancelled pairing is such a change.
pub proof fn law_changes_of_the_pair_state_are_told(id: DeviceId, state: PairState)
    ensures
        ({
            let told = Op::Publish(ConnectionEvent::PairStateChanged((id, state)));
            request::core_ops(CoreEvent::DevicePairStateChanged((id, state))) == (match state {
                PairState::NotPaired => seq![
                    Op::ForgetAttempt(id),
                    Op::ClearResync(id),
                    Op::Do(Action::StopSystemVolume(id)),
                    told,
                ],
                PairState::Paired => seq![Op::ForgetAttempt(id), Op::ClearResync(id), told],
                PairState::Requesting | PairState::Requested => seq![told],
            })
        }),
        request::core_ops(CoreEvent::DevicePairCancelled(id)) == request::core_ops(
            CoreEvent::DevicePairStateChanged((id, PairState::NotPaired)),
        ),
{
    let told = Op::Publish(ConnectionEvent::PairStateChanged((id, state)));
    let ops = request::core_ops(CoreEvent::DevicePairStateChanged((id, state)));
    match state {
        PairState::NotPaired => {
            assert(ops =~= seq![
                Op::ForgetAttempt(id),
                Op::ClearResync(id),
                Op::Do(Action::StopSystemVolume(id)),
                told,
            ]);
        },
        PairState::Paired => {
            assert(ops =~= seq![Op::ForgetAttempt(id), Op::ClearResync(id), told]);
        },
        PairState::Requesting | PairState::Requested => {
            assert(ops =~= seq![told]);
        },
    }
    assert(request::core_ops(CoreEvent::DevicePairCancelled(id)) =~= request::core_ops(
        CoreEvent::DevicePairStateChanged((id, PairState::NotPaired)),
    ));
}

/// Whether a record is asked for, and an arrival decided on, with all that a peer said of itself; a
/// peer that said nothing counts as a phone that can do nothing, of no version, with no time and no
/// certificate. The connection has seen no packet and no signal yet.
pub open spec fn arrives_as_stated(
    discovery: Discovery,
    arrival: Arrival,
    write_tx: UnboundedSender<ProtocolPacket>,
    meta: Option<ConnMetadata>,
) -> bool {
    &&& arrival.handle@.writes == (Flow { channel: write_tx, sent: Seq::empty(), copies: 0 })
    &&& arrival.handle@.answers.len() == 0
    &&& arrival.handle@.shutdown.sent.len() == 0
    &&& match meta {
        Some(said) => {
            &&& discovery.device_type == said.device_type
            &&& discovery.incoming_capabilities == said.incoming_capabilities
            &&& discovery.outgoing_capabilities == said.outgoing_capabilities
            &&& arrival.protocol_version == said.protocol_version
            &&& arrival.pairing_timestamp == said.pairing_timestamp
            &&& arrival.peer_certificate == said.peer_certificate
            &&& arrival.handle@.shutdown.channel == said.shutdown_tx
        },
        None => {
            &&& discovery.device_type@ == "phone"@
            &&& discovery.incoming_capabilities@.len() == 0
            &&& discovery.outgoing_capabilities@.len() == 0
            &&& arrival.protocol_version == 0
            &&& arrival.pairing_timestamp == 0
            &&& arrival.peer_certificate is None
        },
    }
}

/// A new connection leads to a record of its peer, made from what the peer said, and to the decision
/// whether it is let in; nothing else.
pub proof fn law_arrivals_are_recorded_as_stated(
    conn_ids: Map<Seq<char>, u64>,
    addr: String,
    id: DeviceId,
    name: String,
    write_tx: UnboundedSender<ProtocolPacket>,
    conn_id: u64,
    meta: Option<ConnMetadata>,
    ops: Seq<Op>,
)
    requires
        network::transport_plan(
            conn_ids,
            TransportEvent::NewConnection { addr, id, name, write_tx, conn_id, meta },
            ops,
        ),
    ensures
        ops.len() == 2,
        ops[0] matches Op::Do(Action::Discover(discovery)) && ops[1] matches Op::Admit(arrival)
            && discovery.id == id && discovery.name == name && discovery.addr == addr && arrival.id
            == id && arrival.conn_id == conn_id && arrives_as_stated(
            discovery,
            arrival,
            write_tx,
            meta,
        ),
{
}

/// Whether a connection is the one that its device has.
pub open spec fn holds(conn_ids: Map<Seq<char>, u64>, id: DeviceId, conn_id: u64) -> bool {
    conn_ids.contains_key(id@) && conn_ids[id@] == conn_id
}

/// A packet over the current connection of its device goes on as it came: pairing packets with what
/// they say, all others but identities to the decision on the pair state. What came over any other
/// connection goes nowhere. A packet that is off the record counts as of connection zero.
pub proof fn law_packets_come_over_the_current_connection(
    conn_ids: Map<Seq<char>, u64>,
    addr: String,
    id: DeviceId,
    via: Option<u64>,
    packet: ProtocolPacket,
    ops: Seq<Op>,
)
    requires
        network::transport_plan(
            conn_ids,
            TransportEvent::IncomingPacket { addr, id, via, packet: Ok(packet) },
            ops,
        ),
    ensures
        ({
            let number: u64 = match via {
                Some(number) => number,
                None => 0,
            };
            if !holds(conn_ids, id, number) || packet.packet_type is Identity {
                ops.len() == 0
            } else if packet.packet_type is Pair {
                match packet.body {
                    PacketBody::Pair(pair) => ops == seq![
                        Op::Do(Action::Lookup(id)),
                        Op::PairReceived(id, pair, packet),
                    ],
                    _ => ops.len() == 0,
                }
            } else {
                ops == seq![Op::Do(Action::Lookup(id)), Op::PacketReceived(id, packet)]
            }
        }),
{
}

/// Bytes that are no packet are reported, with where they came from and why, exactly if they came
/// over the current connection of the device.
pub proof fn law_invalid_packets_are_reported(
    conn_ids: Map<Seq<char>, u64>,
    addr: String,
    id: DeviceId,
    via: Option<u64>,
    reason: String,
    ops: Seq<Op>,
)
    requires
        network::transport_plan(
            conn_ids,
            TransportEvent::IncomingPacket { addr, id, via, packet: Err(reason) },
            ops,
        ),
    ensures
        ({
            let number: u64 = match via {
                Some(number) => number,
                None => 0,
            };
            if holds(conn_ids, id, number) {
                &&& ops.len() == 1
                &&& ops[0] matches Op::Post(CoreEvent::Error(report))
                &&& report@ == "Invalid packet from "@ + addr@ + ": "@ + reason@
            } else {
                ops.len() == 0
            }
        }),
{
}

/// When the current connection of a device ends, a pairing under way fails, the connection is
/// dropped, the volume control stopped, the device called for if it is paired, and the user told, in
/// this order. The end of any other connection means nothing.
pub proof fn law_the_end_of_a_connection(
    conn_ids: Map<Seq<char>, u64>,
    id: DeviceId,
    conn_id: u64,
    ops: Seq<Op>,
)
    requires
        network::transport_plan(conn_ids, TransportEvent::Disconnected { id, conn_id }, ops),
    ensures
        if holds(conn_ids, id, conn_id) {
            ops == seq![
                Op::Do(Action::Lookup(id)),
                Op::FailPairing(id),
                Op::DropIfCurrent(id, conn_id, AfterDrop::Nothing),
                Op::Do(Action::StopSystemVolume(id)),
                Op::Do(Action::Lookup(id)),
                Op::BroadcastIfPaired(id),
                Op::Publish(ConnectionEvent::Disconnected(id)),
            ]
        } else {
            ops.len() == 0
        },
{
}

/// When the current connection of a device fails to send a packet it is dropped; if that was a
/// pairing packet, a pairing under way fails before. A failure of any other connection means
/// nothing.
pub proof fn law_a_packet_that_was_not_sent(
    conn_ids: Map<Seq<char>, u64>,
    id: DeviceId,
    packet_type: PacketType,
    conn_id: u64,
    ops: Seq<Op>,
)
    requires
        network::transport_plan(
            conn_ids,
            TransportEvent::PacketSendFailed { id, packet_type, conn_id },
            ops,
        ),
    ensures
        if !holds(conn_ids, id, conn_id) {
            ops.len() == 0
        } else if packet_type is Pair {
            ops == seq![
                Op::Do(Action::Lookup(id)),
                Op::FailPairing(id),
                Op::DropIfCurrent(id, conn_id, AfterDrop::Broadcast),
            ]
        } else {
            ops == seq![Op::DropIfCurrent(id, conn_id, AfterDrop::Broadcast)]
        },
{
}

/// A device with a certificate that is not its own loses the certificate on record, its pairing and
/// its data, whatever its connections.
pub proof fn law_failed_trust_ends_a_pairing(
    conn_ids: Map<Seq<char>, u64>,
    id: DeviceId,
    ops: Seq<Op>,
)
    requires
        network::transport_plan(conn_ids, TransportEvent::PairTrustFailed { id }, ops),
    ensures
        ops == seq![
            Op::Do(Action::Lookup(id)),
            Op::Distrust(id),
            Op::Do(Action::UpdatePairState(id, PairState::NotPaired)),
            Op::Do(Action::CleanUp(id)),
        ],
{
}

/// A request of a peer waits half a minute, and so does one of this side that was sent; one that was
/// not sent is tried after half a second, and twenty-nine times more. Each watch then looks whether
/// its attempt is the latest, and how its device is paired.
pub proof fn law_requests_are_given_time(id: DeviceId, attempt: u64, pair: Pair)
    ensures
        job::job_ops(Job::IncomingPairTimeout(id)) == seq![
            Op::Do(Action::Sleep(30_000)),
            Op::Do(Action::Lookup(id)),
            Op::IncomingTimeout(id),
        ],
        job::job_ops(Job::PairWatch { device: id, attempt, queued: true, pair }) == seq![
            Op::Do(Action::Sleep(30_000)),
            Op::CheckAttempt(id, attempt),
            Op::Do(Action::Lookup(id)),
            Op::FinalTimeout(id, true),
        ],
        job::job_ops(Job::PairWatch { device: id, attempt, queued: false, pair }) == seq![
            Op::Do(Action::Sleep(500)),
            Op::Poll(id, pair, 29),
            Op::CheckAttempt(id, attempt),
            Op::Do(Action::Lookup(id)),
            Op::FinalTimeout(id, false),
        ],
{
}

/// A stranger that was told off, and a device that was told it is no longer paired, keep their
/// connection for a quarter of a second; without having been told, the latter loses it at once. The
/// data of an unpaired device goes before its connection.
pub proof fn law_farewells_are_given_time(id: DeviceId)
    ensures
        job::job_ops(Job::DropLater(id)) == seq![
            Op::Do(Action::Sleep(250)),
            Op::Drop(id, AfterDrop::Nothing),
        ],
        job::job_ops(Job::UnpairCleanup { device: id, queued: true }) == seq![
            Op::Do(Action::Sleep(250)),
            Op::Do(Action::CleanUp(id)),
            Op::Drop(id, AfterDrop::StopVolume),
        ],
        job::job_ops(Job::UnpairCleanup { device: id, queued: false }) == seq![
            Op::Do(Action::CleanUp(id)),
            Op::Drop(id, AfterDrop::StopVolume),
        ],
{
    assert(job::job_ops(Job::UnpairCleanup { device: id, queued: true }) =~= seq![
        Op::Do(Action::Sleep(250)),
        Op::Do(Action::CleanUp(id)),
        Op::Drop(id, AfterDrop::StopVolume),
    ]);
    assert(job::job_ops(Job::UnpairCleanup { device: id, queued: false }) =~= seq![
        Op::Do(Action::CleanUp(id)),
        Op::Drop(id, AfterDrop::StopVolume),
    ]);
}

/// A new core holds no connection, no attempt and no notice, has sent nothing on any channel, and
/// has the plugins switched off that it was given as such.
pub proof fn law_a_new_core_has_done_nothing(
    s: CoreState,
    disabled: Map<Seq<char>, Set<Seq<char>>>,
)
    requires
        s.is_new(disabled),
    ensures
        forall|device: Seq<char>|
            !(#[trigger] s.writers.contains_key(device)) && !s.conn_ids.contains_key(device)
                && !s.attempts.contains_key(device) && !s.last_sent.contains_key(device),
        s.disabled == disabled,
        s.events.sent.len() == 0 && s.events.copies == 0,
        s.user.sent.len() == 0 && s.user.copies == 0,
        s.bridge.sent.len() == 0 && s.bridge.copies == 0,
{
}

} // verus!
