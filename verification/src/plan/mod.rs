//! Which operations follow on what: the decisions of the core, free of any state.
pub mod greeting;
pub mod job;
pub mod network;
pub mod request;
pub mod user;

use vstd::prelude::*;

use crate::device::{Device, DeviceId, PairState};
use crate::event::ConnectionEvent;
use crate::protocol::{PacketBody, PacketType, ProtocolPacket};
use crate::task::{Action, AfterDrop, Job, Op, Then};

verus! {

/// Tell the user that pairing came to nothing.
pub open spec fn tell_timed_out(id: DeviceId) -> Op {
    Op::Publish(ConnectionEvent::PairingTimedOut(id))
}

pub(crate) fn timed_out_op(id: &DeviceId) -> (op: Op)
    ensures
        op == tell_timed_out(*id),
{
    Op::Publish(ConnectionEvent::PairingTimedOut(id.duplicate()))
}

/// Record a device as not paired.
pub open spec fn unpair(id: DeviceId) -> Op {
    Op::Do(Action::UpdatePairState(id, PairState::NotPaired))
}

pub(crate) fn unpair_op(id: &DeviceId) -> (op: Op)
    ensures
        op == unpair(*id),
{
    Op::Do(Action::UpdatePairState(id.duplicate(), PairState::NotPaired))
}

/// Look a device up.
pub open spec fn lookup(id: DeviceId) -> Op {
    Op::Do(Action::Lookup(id))
}

pub(crate) fn lookup_op(id: &DeviceId) -> (op: Op)
    ensures
        op == lookup(*id),
{
    Op::Do(Action::Lookup(id.duplicate()))
}

/// Put one list of operations before another.
pub(crate) fn joined(first: Vec<Op>, second: Vec<Op>) -> (ops: Vec<Op>)
    ensures
        ops@ == first@ + second@,
{
    let mut ops = first;
    let mut rest = second;
    ops.append(&mut rest);
    ops
}

/// What follows on a packet that was, or was not, queued.
pub open spec fn after_queue(then: Then, queued: bool) -> Seq<Op> {
    match then {
        Then::Nothing => seq![],
        Then::Accepted(id) => if queued {
            seq![Op::Do(Action::SetPaired(id))]
        } else {
            seq![unpair(id), tell_timed_out(id)]
        },
        Then::Requested(id, pair) => if queued {
            seq![Op::BeginAttempt(id, pair, true)]
        } else {
            seq![Op::Do(Action::SendIdentity), Op::BeginAttempt(id, pair, false)]
        },
        Then::Unpaired(id) => seq![
            Op::Do(Action::Spawn(Job::UnpairCleanup { device: id, queued })),
        ],
        Then::Resync(id) => if queued {
            seq![Op::Do(Action::Spawn(Job::DropLater(id)))]
        } else {
            seq![Op::Drop(id, AfterDrop::StopVolume)]
        },
    }
}

/// Decides what follows on a packet that was, or was not, queued.
pub fn plan_after_queue(then: Then, queued: bool) -> (ops: Vec<Op>)
    ensures
        ops@ == after_queue(then, queued),
{
    match then {
        Then::Nothing => Vec::new(),
        Then::Accepted(id) => if queued {
            vec![Op::Do(Action::SetPaired(id))]
        } else {
            vec![unpair_op(&id), timed_out_op(&id)]
        },
        Then::Requested(id, pair) => if queued {
            vec![Op::BeginAttempt(id, pair, true)]
        } else {
            vec![Op::Do(Action::SendIdentity), Op::BeginAttempt(id, pair, false)]
        },
        Then::Unpaired(id) => vec![
            Op::Do(Action::Spawn(Job::UnpairCleanup { device: id, queued })),
        ],
        Then::Resync(id) => if queued {
            vec![Op::Do(Action::Spawn(Job::DropLater(id)))]
        } else {
            vec![Op::Drop(id, AfterDrop::StopVolume)]
        },
    }
}

/// What follows on a connection that no longer takes packets: it is dropped and the user told,
/// and then what follows on a packet that was not queued.
pub open spec fn after_refusal(id: DeviceId, then: Then) -> Seq<Op> {
    seq![
        Op::Drop(id, AfterDrop::Nothing),
        Op::Do(Action::StopSystemVolume(id)),
        lookup(id),
        Op::BroadcastIfPaired(id),
        Op::Publish(ConnectionEvent::Disconnected(id)),
    ] + after_queue(then, false)
}

/// Decides what follows on a packet that was written to a connection.
pub fn plan_after_offer(id: DeviceId, then: Then, accepted: bool) -> (ops: Vec<Op>)
    ensures
        ops@ == (if accepted {
            after_queue(then, true)
        } else {
            after_refusal(id, then)
        }),
{
    if accepted {
        return plan_after_queue(then, true);
    }
    let first = vec![
        Op::Drop(id.duplicate(), AfterDrop::Nothing),
        Op::Do(Action::StopSystemVolume(id.duplicate())),
        lookup_op(&id),
        Op::BroadcastIfPaired(id.duplicate()),
        Op::Publish(ConnectionEvent::Disconnected(id)),
    ];
    joined(first, plan_after_queue(then, false))
}

/// What follows once a connection was dropped.
pub open spec fn after_drop(id: DeviceId, after: AfterDrop) -> Seq<Op> {
    match after {
        AfterDrop::Nothing => seq![],
        AfterDrop::StopVolume => seq![Op::Do(Action::StopSystemVolume(id))],
        AfterDrop::Tell => seq![
            Op::Do(Action::StopSystemVolume(id)),
            Op::Publish(ConnectionEvent::Disconnected(id)),
        ],
        AfterDrop::Broadcast => seq![
            Op::Do(Action::StopSystemVolume(id)),
            lookup(id),
            Op::BroadcastIfPaired(id),
            Op::Publish(ConnectionEvent::Disconnected(id)),
        ],
    }
}

/// Decides what follows once a connection was dropped.
pub fn plan_after_drop(id: DeviceId, after: AfterDrop) -> (ops: Vec<Op>)
    ensures
        ops@ == after_drop(id, after),
{
    match after {
        AfterDrop::Nothing => Vec::new(),
        AfterDrop::StopVolume => vec![Op::Do(Action::StopSystemVolume(id))],
        AfterDrop::Tell => vec![
            Op::Do(Action::StopSystemVolume(id.duplicate())),
            Op::Publish(ConnectionEvent::Disconnected(id)),
        ],
        AfterDrop::Broadcast => vec![
            Op::Do(Action::StopSystemVolume(id.duplicate())),
            lookup_op(&id),
            Op::BroadcastIfPaired(id.duplicate()),
            Op::Publish(ConnectionEvent::Disconnected(id)),
        ],
    }
}

/// Call out for a device that is gone, if it is paired.
pub open spec fn broadcast(device: Option<Device>) -> Seq<Op> {
    if crate::device::pair_state_of(device) == Some(PairState::Paired) {
        seq![Op::Do(Action::SendIdentity)]
    } else {
        seq![]
    }
}

/// Decides whether to call out for a device that is gone.
pub fn plan_broadcast(device: Option<Device>) -> (ops: Vec<Op>)
    ensures
        ops@ == broadcast(device),
{
    match device {
        Some(d) => match d.pair_state {
            PairState::Paired => vec![Op::Do(Action::SendIdentity)],
            _ => Vec::new(),
        },
        None => Vec::new(),
    }
}

/// End a pairing that is under way; leave everything else alone.
pub open spec fn fail_pairing(id: DeviceId, device: Option<Device>) -> Seq<Op> {
    match crate::device::pair_state_of(device) {
        Some(PairState::Requesting) | Some(PairState::Requested) => seq![
            Op::ForgetAttempt(id),
            unpair(id),
            tell_timed_out(id),
        ],
        _ => seq![],
    }
}

/// Decides whether a pairing is under way and has to end.
pub fn fail_pairing_if_pending(id: DeviceId, device: Option<Device>) -> (ops: Vec<Op>)
    ensures
        ops@ == fail_pairing(id, device),
{
    match device {
        Some(d) => match d.pair_state {
            PairState::Requesting | PairState::Requested => vec![
                Op::ForgetAttempt(id.duplicate()),
                unpair_op(&id),
                timed_out_op(&id),
            ],
            _ => Vec::new(),
        },
        None => Vec::new(),
    }
}

/// Send a packet, whatever comes of it.
pub open spec fn just_queue(id: DeviceId, packet_type: PacketType, body: PacketBody) -> Op {
    Op::Queue(id, crate::protocol::packet(packet_type, body), Then::Nothing)
}

pub(crate) fn just_queue_op(id: DeviceId, packet_type: PacketType, body: PacketBody) -> (op: Op)
    ensures
        op == just_queue(id, packet_type, body),
{
    Op::Queue(id, ProtocolPacket::new(packet_type, body), Then::Nothing)
}

} // verus!
