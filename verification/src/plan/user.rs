//! What the user asks of the core.
use std::sync::Arc;
use tokio::sync::mpsc::UnboundedSender;
use vstd::prelude::*;

use crate::connection::{pair_false_packet, ALLOWED_TIMESTAMP_DIFF_SECS};
use crate::device::{Device, DeviceId, PairState};
use crate::event::{AppEvent, ConnectionEvent, Payload};
use crate::plan;
use crate::plan::{just_queue_op, lookup_op, timed_out_op, unpair_op};
use crate::plugin_set::PluginSet;
use crate::protocol::{
    pair_packet, MprisRequest, PacketBody, PacketType, Pair, Ping, ProtocolPacket,
};
use crate::task::{Action, AfterDrop, Op, SharedFile, Then};

verus! {

/// The protocol version from which on clocks are compared when pairing.
pub const CLOCK_CHECK_VERSION: u32 = 8;

/// What a request of the user leads to.
pub open spec fn app_ops(event: AppEvent) -> Seq<Op> {
    match event {
        AppEvent::Broadcasting => seq![Op::Do(Action::SendIdentity)],
        AppEvent::Pair(id) => seq![plan::lookup(id), Op::PairWanted(id)],
        AppEvent::Ping((id, message)) => seq![
            plan::just_queue(id, PacketType::Ping, PacketBody::Ping(Ping { message: Some(message) })),
        ],
        AppEvent::SendPacket(id, packet) => seq![Op::Queue(id, packet, Then::Nothing)],
        AppEvent::SendFiles((id, files)) => seq![plan::lookup(id), Op::ShareGate(id, files)],
        AppEvent::MprisAction((id, player, action)) => seq![
            plan::lookup(id),
            Op::PluginSendTo(
                crate::protocol::packet(
                    PacketType::MprisRequest,
                    PacketBody::MprisRequest(
                        MprisRequest {
                            player: Some(player),
                            action: Some(action),
                            ..MprisRequest::nothing()
                        },
                    ),
                ),
            ),
        ],
        AppEvent::SendMprisRequest((id, request)) => seq![
            plan::lookup(id),
            Op::PluginSendTo(
                crate::protocol::packet(
                    PacketType::MprisRequest,
                    PacketBody::MprisRequest(request),
                ),
            ),
        ],
        AppEvent::Unpair(id) => seq![
            Op::ForgetAttempt(id),
            plan::unpair(id),
            Op::Queue(id, crate::connection::pair_false(), Then::Unpaired(id)),
        ],
        AppEvent::AcceptPairing(id) => seq![plan::lookup(id), Op::Accept(id)],
        AppEvent::RejectPairing(id) => seq![plan::lookup(id), Op::Refuse(id)],
        AppEvent::Disconnect(id) => seq![Op::Drop(id, AfterDrop::Tell)],
        AppEvent::SetPluginEnabled { device_id, plugin_id, enabled } => seq![
            Op::Do(Action::LoadDisabled(device_id)),
            Op::Toggle(device_id, plugin_id, enabled),
        ],
    }
}

/// Decides what a request of the user leads to.
pub fn plan_app(event: AppEvent) -> (ops: Vec<Op>)
    ensures
        ops@ == app_ops(event),
{
    match event {
        AppEvent::Broadcasting => vec![Op::Do(Action::SendIdentity)],
        AppEvent::Pair(id) => vec![lookup_op(&id), Op::PairWanted(id)],
        AppEvent::Ping((id, message)) => vec![
            just_queue_op(id, PacketType::Ping, PacketBody::Ping(Ping { message: Some(message) })),
        ],
        AppEvent::SendPacket(id, packet) => vec![Op::Queue(id, packet, Then::Nothing)],
        AppEvent::SendFiles((id, files)) => vec![lookup_op(&id), Op::ShareGate(id, files)],
        AppEvent::MprisAction((id, player, action)) => vec![
            Op::Do(Action::Lookup(id)),
            Op::PluginSendTo(
                ProtocolPacket::new(
                    PacketType::MprisRequest,
                    PacketBody::MprisRequest(MprisRequest::player_action(player, action)),
                ),
            ),
        ],
        AppEvent::SendMprisRequest((id, request)) => vec![
            Op::Do(Action::Lookup(id)),
            Op::PluginSendTo(
                ProtocolPacket::new(PacketType::MprisRequest, PacketBody::MprisRequest(request)),
            ),
        ],
        AppEvent::Unpair(id) => vec![
            Op::ForgetAttempt(id.duplicate()),
            unpair_op(&id),
            Op::Queue(id.duplicate(), pair_false_packet(), Then::Unpaired(id)),
        ],
        AppEvent::AcceptPairing(id) => vec![lookup_op(&id), Op::Accept(id)],
        AppEvent::RejectPairing(id) => vec![lookup_op(&id), Op::Refuse(id)],
        AppEvent::Disconnect(id) => vec![Op::Drop(id, AfterDrop::Tell)],
        AppEvent::SetPluginEnabled { device_id, plugin_id, enabled } => vec![
            Op::Do(Action::LoadDisabled(device_id.duplicate())),
            Op::Toggle(device_id, plugin_id, enabled),
        ],
    }
}

/// Accept a pairing request.
pub open spec fn accept(id: DeviceId) -> Op {
    Op::Queue(
        id,
        crate::protocol::pair_packet_of(Pair { pair: true, timestamp: None }),
        Then::Accepted(id),
    )
}

fn accept_op(id: DeviceId) -> (op: Op)
    ensures
        op == accept(id),
{
    Op::Queue(id.duplicate(), pair_packet(Pair::accept()), Then::Accepted(id))
}

/// Pair because the user wants to. An unknown device is called for. A paired one stays as it is.
/// A device that asked already is accepted, as if the user had answered it. Any other is asked.
pub open spec fn pair_wanted(id: DeviceId, found: Option<Device>) -> Seq<Op> {
    match found {
        None => seq![Op::Do(Action::SendIdentity), plan::tell_timed_out(id)],
        Some(device) => match device.pair_state {
            PairState::Paired => seq![
                Op::Publish(ConnectionEvent::PairStateChanged((id, PairState::Paired))),
            ],
            PairState::Requested => accept_pairing(id, found),
            PairState::Requesting | PairState::NotPaired => seq![
                Op::Do(Action::ReadUnixClock),
                Op::AskToPair(id),
            ],
        },
    }
}

/// Decides how to pair because the user wants to.
pub fn plan_pair_wanted(id: DeviceId, found: Option<Device>) -> (ops: Vec<Op>)
    ensures
        ops@ == pair_wanted(id, found),
{
    match found {
        None => vec![Op::Do(Action::SendIdentity), timed_out_op(&id)],
        Some(device) => match device.pair_state {
            PairState::Paired => vec![
                Op::Publish(ConnectionEvent::PairStateChanged((id, PairState::Paired))),
            ],
            PairState::Requested => plan_accept_pairing(id, Some(device)),
            PairState::Requesting | PairState::NotPaired => vec![
                Op::Do(Action::ReadUnixClock),
                Op::AskToPair(id),
            ],
        },
    }
}

/// Ask a device to pair. The time of the request is recorded and goes with it.
pub open spec fn ask_to_pair(id: DeviceId, now: u64) -> Seq<Op> {
    let pair = Pair { pair: true, timestamp: Some(now) };
    seq![
        Op::Do(Action::SetPairingTimestamp(id, now)),
        Op::Queue(id, crate::protocol::pair_packet_of(pair), Then::Requested(id, pair)),
    ]
}

/// Decides how a device is asked to pair.
pub fn plan_ask_to_pair(id: DeviceId, now: u64) -> (ops: Vec<Op>)
    ensures
        ops@ == ask_to_pair(id, now),
{
    let pair = Pair::request(now);
    vec![
        Op::Do(Action::SetPairingTimestamp(id.duplicate(), now)),
        Op::Queue(id.duplicate(), pair_packet(pair), Then::Requested(id, pair)),
    ]
}

/// Accept a pairing request if there is one. Where the protocol asks for it and the peer stated
/// a time, the clocks are compared first.
pub open spec fn accept_pairing(id: DeviceId, found: Option<Device>) -> Seq<Op> {
    match found {
        Some(device) => if device.pair_state != PairState::Requested {
            seq![plan::tell_timed_out(id)]
        } else if device.protocol_version >= CLOCK_CHECK_VERSION && device.pairing_timestamp > 0 {
            seq![
                Op::Do(Action::ReadUnixClock),
                Op::AcceptInTime(id, device.pairing_timestamp),
            ]
        } else {
            seq![accept(id)]
        },
        None => seq![plan::tell_timed_out(id)],
    }
}

/// Decides whether there is a pairing request to accept.
pub fn plan_accept_pairing(id: DeviceId, found: Option<Device>) -> (ops: Vec<Op>)
    ensures
        ops@ == accept_pairing(id, found),
{
    match found {
        Some(device) => match device.pair_state {
            PairState::Requested => {
                if device.protocol_version >= CLOCK_CHECK_VERSION && device.pairing_timestamp > 0 {
                    vec![
                        Op::Do(Action::ReadUnixClock),
                        Op::AcceptInTime(id, device.pairing_timestamp),
                    ]
                } else {
                    vec![accept_op(id)]
                }
            },
            _ => vec![timed_out_op(&id)],
        },
        None => vec![timed_out_op(&id)],
    }
}

/// Whether two clocks are close enough to pair.
pub open spec fn clocks_agree(a: u64, b: u64) -> bool {
    a - b <= ALLOWED_TIMESTAMP_DIFF_SECS && b - a <= ALLOWED_TIMESTAMP_DIFF_SECS
}

/// Whether two clocks are close enough to pair.
pub fn do_clocks_agree(a: u64, b: u64) -> (agree: bool)
    ensures
        agree == clocks_agree(a, b),
{
    let diff: u64 = if a > b {
        a - b
    } else {
        b - a
    };
    diff <= ALLOWED_TIMESTAMP_DIFF_SECS
}

/// Accept a pairing request if the clocks agree, and refuse it otherwise.
pub open spec fn accept_in_time(id: DeviceId, phone_ts: u64, now: u64) -> Seq<Op> {
    if clocks_agree(phone_ts, now) {
        seq![accept(id)]
    } else {
        seq![
            Op::Queue(id, crate::connection::pair_false(), Then::Nothing),
            plan::unpair(id),
            plan::tell_timed_out(id),
        ]
    }
}

/// Decides whether a pairing request is accepted by the clock.
pub fn plan_accept_in_time(id: DeviceId, phone_ts: u64, now: u64) -> (ops: Vec<Op>)
    ensures
        ops@ == accept_in_time(id, phone_ts, now),
{
    if do_clocks_agree(phone_ts, now) {
        vec![accept_op(id)]
    } else {
        vec![
            Op::Queue(id.duplicate(), pair_false_packet(), Then::Nothing),
            unpair_op(&id),
            timed_out_op(&id),
        ]
    }
}

/// Refuse a pairing request if there is one.
pub open spec fn refuse_pairing(id: DeviceId, found: Option<Device>) -> Seq<Op> {
    if crate::device::pair_state_of(found) == Some(PairState::Requested) {
        seq![Op::Queue(id, crate::connection::pair_false(), Then::Nothing), plan::unpair(id)]
    } else {
        seq![plan::tell_timed_out(id)]
    }
}

/// Decides whether there is a pairing request to refuse.
pub fn plan_refuse_pairing(id: DeviceId, found: Option<Device>) -> (ops: Vec<Op>)
    ensures
        ops@ == refuse_pairing(id, found),
{
    let requested = match found {
        Some(device) => matches!(device.pair_state, PairState::Requested),
        None => false,
    };
    if requested {
        vec![Op::Queue(id.duplicate(), pair_false_packet(), Then::Nothing), unpair_op(&id)]
    } else {
        vec![timed_out_op(&id)]
    }
}

/// The set of plugins that are switched off, after one was switched on or off.
pub open spec fn toggled(disabled: Set<Seq<char>>, plugin: Seq<char>, enabled: bool) -> Set<
    Seq<char>,
> {
    if enabled {
        disabled.remove(plugin)
    } else {
        disabled.insert(plugin)
    }
}

/// Save and put in force which plugins are switched off, and drop the connection, so that the
/// device comes back under the new rules.
pub open spec fn apply_disabled(id: DeviceId, disabled: Arc<PluginSet>) -> Seq<Op> {
    seq![
        Op::Do(Action::SaveDisabled(id, disabled)),
        Op::SetDisabled(id, disabled),
        Op::Drop(id, AfterDrop::StopVolume),
    ]
}

/// Switches a plugin on or off in the set that was stored, and decides what follows.
pub fn plan_toggle(id: DeviceId, plugin_id: String, enabled: bool, stored: PluginSet) -> (result: (
    Vec<Op>,
    Ghost<Arc<PluginSet>>,
))
    ensures
        (*result.1@)@ == toggled(stored@, plugin_id@, enabled),
        result.0@ == apply_disabled(id, result.1@),
{
    let mut disabled = stored;
    if enabled {
        disabled.remove(plugin_id.as_str());
    } else {
        disabled.insert(plugin_id);
    }
    let disabled = Arc::new(disabled);
    let ghost set = disabled;
    let ops = vec![
        Op::Do(Action::SaveDisabled(id.duplicate(), Arc::clone(&disabled))),
        Op::SetDisabled(id.duplicate(), disabled),
        Op::Drop(id, AfterDrop::StopVolume),
    ];
    (ops, Ghost(set))
}

/// Open each file and send it if that succeeds.
pub open spec fn share_files(sender: Arc<UnboundedSender<ProtocolPacket>>, files: Seq<SharedFile>) -> Seq<
    Op,
>
    decreases files.len(),
{
    if files.len() == 0 {
        seq![]
    } else {
        share_files(sender, files.drop_last()) + seq![
            Op::Do(Action::OpenFile(files.last().path)),
            Op::ShareFile(sender, files.last().body),
        ]
    }
}

/// Sharing files consists of opening them and of sending them over the connection that is held
/// already.
pub(crate) proof fn lemma_share_files(
    sender: Arc<UnboundedSender<ProtocolPacket>>,
    files: Seq<SharedFile>,
)
    ensures
        forall|i: int|
            0 <= i < share_files(sender, files).len() ==> match #[trigger] share_files(
                sender,
                files,
            )[i] {
                Op::Do(action) => action is OpenFile,
                Op::ShareFile(over, _) => over == sender,
                _ => false,
            },
    decreases files.len(),
{
    if files.len() > 0 {
        lemma_share_files(sender, files.drop_last());
    }
}

/// Decides how files that were prepared are shared.
pub fn plan_share(sender: Arc<UnboundedSender<ProtocolPacket>>, shares: Option<Vec<SharedFile>>) -> (ops:
    Vec<Op>)
    ensures
        ops@ == (match shares {
            Some(files) => share_files(sender, files@),
            None => seq![],
        }),
{
    let mut files = match shares {
        Some(files) => files,
        None => {
            return Vec::new();
        },
    };
    let ghost all = files@;
    let mut ops: Vec<Op> = Vec::new();
    let ghost mut done: int = 0;
    assert(all.skip(0) =~= all);
    while files.len() > 0
        invariant
            0 <= done <= all.len(),
            files@ == all.skip(done),
            ops@ == share_files(sender, all.take(done)),
        decreases files@.len(),
    {
        let file = files.remove(0);
        let SharedFile { body, path } = file;
        proof {
            let before = all.take(done);
            let after = all.take(done + 1);
            assert(after.drop_last() =~= before);
            assert(after.last() == file);
            assert(all.skip(done).remove(0) =~= all.skip(done + 1));
        }
        let ghost old_ops = ops@;
        ops.push(Op::Do(Action::OpenFile(path)));
        ops.push(Op::ShareFile(Arc::clone(&sender), body));
        proof {
            assert(ops@ =~= old_ops + seq![
                Op::Do(Action::OpenFile(file.path)),
                Op::ShareFile(sender, file.body),
            ]);
            done = done + 1;
        }
    }
    assert(all.take(done) =~= all);
    ops
}

/// Send the file that was opened.
pub open spec fn share_file(
    sender: Arc<UnboundedSender<ProtocolPacket>>,
    body: PacketBody,
    opened: Option<Payload>,
) -> Seq<Op> {
    match opened {
        Some(payload) => seq![
            Op::Do(
                Action::SendPayload {
                    sender,
                    packet: crate::protocol::packet(PacketType::ShareRequest, body),
                    payload,
                },
            ),
        ],
        None => seq![],
    }
}

/// Decides whether there is a file to send.
pub fn plan_share_file(
    sender: Arc<UnboundedSender<ProtocolPacket>>,
    body: PacketBody,
    opened: Option<Payload>,
) -> (ops: Vec<Op>)
    ensures
        ops@ == share_file(sender, body, opened),
{
    match opened {
        Some(payload) => vec![
            Op::Do(
                Action::SendPayload {
                    sender,
                    packet: ProtocolPacket::new(PacketType::ShareRequest, body),
                    payload,
                },
            ),
        ],
        None => Vec::new(),
    }
}

} // verus!
