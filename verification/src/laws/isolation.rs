//! Devices do not disturb each other.
use vstd::prelude::*;

use crate::device::{Device, DeviceId};
use crate::event::{AppEvent, ConnectionEvent, CoreEvent, TransportEvent};
use crate::laws::lemma_remaining_origin;
use crate::plan::job;
use crate::plan::network;
use crate::plan::request;
use crate::plan::user;
use crate::state;
use crate::state::CoreState;
use crate::task::{Action, Arrival, Job, Op, Reply, Step, Then};

verus! {

/// Whether what follows on a packet concerns no device but this one.
pub open spec fn then_about(then: Then, device: Seq<char>) -> bool {
    match then {
        Then::Nothing => true,
        Then::Accepted(id) | Then::Requested(id, _) | Then::Unpaired(id) | Then::Resync(id) => id@
            == device,
    }
}

/// Whether a job concerns no device but this one.
pub open spec fn job_about(job: Job, device: Seq<char>) -> bool {
    match job {
        Job::IncomingPairTimeout(id) | Job::DropLater(id) => id@ == device,
        Job::UnpairCleanup { device: id, .. } => id@ == device,
        Job::PairWatch { device: id, .. } => id@ == device,
    }
}

/// Whether an action names no device but this one.
pub open spec fn action_about(action: Action, device: Seq<char>) -> bool {
    match action {
        Action::Lookup(id)
        | Action::UpdatePairState(id, _)
        | Action::SetPaired(id)
        | Action::AddOrUpdateDevice(id, _)
        | Action::SetProtocolVersion(id, _)
        | Action::SetPairingTimestamp(id, _)
        | Action::CleanUp(id)
        | Action::StopSystemVolume(id)
        | Action::StartSystemVolume(id)
        | Action::SendBatteryState(id)
        | Action::SendCommandList(id)
        | Action::LoadDisabled(id)
        | Action::SaveDisabled(id, _) => id@ == device,
        Action::Discover(discovery) => discovery.id@ == device,
        Action::Spawn(job) => job_about(job, device),
        _ => true,
    }
}

/// Whether an event for the user concerns no device but this one.
pub open spec fn connection_event_about(event: ConnectionEvent, device: Seq<char>) -> bool {
    match event {
        ConnectionEvent::Connected((id, _))
        | ConnectionEvent::DevicePaired((id, _)) => id@ == device,
        ConnectionEvent::PairStateChanged((id, _)) => id@ == device,
        ConnectionEvent::PairingRequested((id, _)) => id@ == device,
        ConnectionEvent::Disconnected(id) | ConnectionEvent::PairingTimedOut(id) => id@ == device,
    }
}

/// Whether a request to the core concerns no device but this one.
pub open spec fn core_event_about(event: CoreEvent, device: Seq<char>) -> bool {
    match event {
        CoreEvent::PacketReceived { device: id, .. } => id@ == device,
        CoreEvent::DevicePaired((id, _)) => id@ == device,
        CoreEvent::DevicePairCancelled(id) => id@ == device,
        CoreEvent::DevicePairStateChanged((id, _)) => id@ == device,
        CoreEvent::SendPacket { device: id, .. } => id@ == device,
        CoreEvent::SendPaylod { device: id, .. } => id@ == device,
        CoreEvent::DeviceDiscovered(_) | CoreEvent::Error(_) => true,
    }
}

/// Whether a request of the user concerns no device but this one.
pub open spec fn app_event_about(event: AppEvent, device: Seq<char>) -> bool {
    match event {
        AppEvent::Broadcasting => true,
        AppEvent::Pair(id)
        | AppEvent::SendPacket(id, _)
        | AppEvent::Unpair(id)
        | AppEvent::AcceptPairing(id)
        | AppEvent::RejectPairing(id)
        | AppEvent::Disconnect(id) => id@ == device,
        AppEvent::Ping((id, _)) => id@ == device,
        AppEvent::SendFiles((id, _)) => id@ == device,
        AppEvent::MprisAction((id, _, _)) => id@ == device,
        AppEvent::SendMprisRequest((id, _)) => id@ == device,
        AppEvent::SetPluginEnabled { device_id: id, .. } => id@ == device,
    }
}

/// The device that an event on the network concerns.
pub open spec fn transport_event_device(event: TransportEvent) -> DeviceId {
    match event {
        TransportEvent::NewConnection { id, .. } => id,
        TransportEvent::IncomingPacket { id, .. } => id,
        TransportEvent::Disconnected { id, .. } => id,
        TransportEvent::PacketSendFailed { id, .. } => id,
        TransportEvent::PairTrustFailed { id } => id,
    }
}

/// Whether an operation concerns no device but this one.
pub open spec fn op_about(op: Op, device: Seq<char>) -> bool {
    match op {
        Op::Do(action) => action_about(action, device),
        Op::Publish(event) => connection_event_about(event, device),
        Op::Post(event) => core_event_about(event, device),
        Op::Queue(id, _, then) | Op::Offer(id, _, then) => id@ == device && then_about(
            then,
            device,
        ),
        Op::Install(id, _, _)
        | Op::PairReceived(id, _, _)
        | Op::PayloadGate(id, _, _)
        | Op::DropIfCurrent(id, _, _)
        | Op::BeginAttempt(id, _, _)
        | Op::Toggle(id, _, _)
        | Op::Poll(id, _, _) => id@ == device,
        Op::Greet(id, _)
        | Op::Drop(id, _)
        | Op::ShareGate(id, _)
        | Op::PairAsked(id, _)
        | Op::PacketReceived(id, _)
        | Op::AcceptInTime(id, _)
        | Op::SetDisabled(id, _)
        | Op::FinalTimeout(id, _)
        | Op::CheckAttempt(id, _) => id@ == device,
        Op::ForgetAttempt(id)
        | Op::ClearResync(id)
        | Op::BroadcastIfPaired(id)
        | Op::Disown(id)
        | Op::Resync(id)
        | Op::FailPairing(id)
        | Op::Distrust(id)
        | Op::PairWanted(id)
        | Op::AskToPair(id)
        | Op::Accept(id)
        | Op::Refuse(id)
        | Op::IncomingTimeout(id)
        | Op::RestoreDisabled(id) => id@ == device,
        Op::Admit(arrival) | Op::Settle(arrival) => arrival.id@ == device,
        Op::DispatchTo(_) | Op::Share(_) | Op::ShareFile(_, _) | Op::PluginSendTo(_) => true,
    }
}

/// Whether a task concerns no device but this one.
pub open spec fn task_about(ops: Seq<Op>, device: Seq<char>) -> bool {
    forall|i: int| 0 <= i < ops.len() ==> op_about(#[trigger] ops[i], device)
}

/// Whether two states agree on everything about a device.
pub open spec fn agree(a: CoreState, b: CoreState, device: Seq<char>) -> bool {
    &&& a.writers.contains_key(device) == b.writers.contains_key(device)
    &&& a.writers.contains_key(device) ==> a.writers[device] == b.writers[device]
    &&& a.conn_ids.contains_key(device) == b.conn_ids.contains_key(device)
    &&& a.conn_ids.contains_key(device) ==> a.conn_ids[device] == b.conn_ids[device]
    &&& a.attempts.contains_key(device) == b.attempts.contains_key(device)
    &&& a.attempts.contains_key(device) ==> a.attempts[device] == b.attempts[device]
    &&& a.last_sent.contains_key(device) == b.last_sent.contains_key(device)
    &&& a.last_sent.contains_key(device) ==> a.last_sent[device] == b.last_sent[device]
    &&& a.disabled.contains_key(device) == b.disabled.contains_key(device)
    &&& a.disabled.contains_key(device) ==> a.disabled[device] == b.disabled[device]
}

/// What a connection that is let in leads to concerns its device.
proof fn lemma_admitted_about(arrival: Arrival, found: Option<Device>, device: Seq<char>)
    requires
        arrival.id@ == device,
    ensures
        task_about(network::admitted(arrival, found), device),
        forall|d: Device| task_about(#[trigger] network::settle(arrival, d), device),
{
}

/// What a decision comes to concerns the same device.
proof fn lemma_decision_about(op: Op, reply: Reply, device: Seq<char>)
    requires
        op_about(op, device),
    ensures
        task_about(state::decision(op, reply), device),
{
    match (op, reply) {
        (Op::Share(sender), Reply::Shares(Some(files))) => {
            user::lemma_share_files(sender, files@);
        },
        (Op::Admit(arrival), Reply::Discovered(found)) => {
            lemma_admitted_about(arrival, found, device);
        },
        (Op::Settle(arrival), _) => {
            lemma_admitted_about(arrival, None, device);
        },
        _ => {},
    }
}

/// What an operation puts before the rest concerns the same device.
proof fn lemma_put_before_about(
    s: CoreState,
    op: Op,
    reply: Reply,
    accepted: bool,
    device: Seq<char>,
)
    requires
        op_about(op, device),
    ensures
        task_about(state::put_before(s, op, reply, accepted), device),
{
    if state::is_decision(op) {
        lemma_decision_about(op, reply, device);
    }
}

/// A task that concerns one device goes on to concern that device alone: its operations, its
/// actions, what it sends to the user and to the core, and the connection it closes. All that is
/// remembered of other devices stays as it is, the account of what was written to their connections
/// and of whether these were told to shut down with it.
pub proof fn law_a_task_keeps_to_its_device(
    s: CoreState,
    ops: Seq<Op>,
    reply: Reply,
    next: CoreState,
    remaining: Seq<Op>,
    step: Step,
    device: Seq<char>,
)
    requires
        task_about(ops, device),
        state::steps(s, ops, reply, next, remaining, step),
    ensures
        task_about(remaining, device),
        forall|other: Seq<char>| other != device ==> #[trigger] agree(s, next, other),
        step matches Step::Act(action) ==> action_about(action, device),
        next.user == s.user || exists|event: ConnectionEvent|
            connection_event_about(event, device) && next.user == #[trigger] s.user.with(event),
        next.bridge == s.bridge || exists|event: ConnectionEvent|
            connection_event_about(event, device) && next.bridge == #[trigger] s.bridge.with(event),
        next.events == s.events || exists|event: CoreEvent|
            core_event_about(event, device) && next.events == #[trigger] s.events.with(event),
        step matches Step::Closed(handle) ==> s.writers.contains_key(device) && handle@
            == s.writers[device].shut(),
{
    if ops.len() > 0 && crate::task::fits(ops[0].wants(), reply) {
        assert(op_about(ops[0], device));
        match ops[0] {
            Op::Publish(event) => {
                assert(next.user == s.user.with(event));
                assert(next.bridge == s.bridge.with(event));
            },
            Op::Post(event) => {
                assert(next.events == s.events.with(event));
            },
            _ => {},
        }
        lemma_put_before_about(s, ops[0], reply, state::was_accepted(step), device);
        assert forall|i: int| 0 <= i < remaining.len() implies op_about(
            #[trigger] remaining[i],
            device,
        ) by {
            lemma_remaining_origin(s, ops, reply, next, remaining, step, i);
        }
    }
}

/// What is asked of the core about a device concerns that device alone.
pub proof fn law_requests_keep_to_their_device(event: CoreEvent, device: Seq<char>)
    requires
        core_event_about(event, device),
    ensures
        task_about(request::core_ops(event), device),
{
}

/// What the user asks about a device concerns that device alone.
pub proof fn law_user_requests_keep_to_their_device(event: AppEvent, device: Seq<char>)
    requires
        app_event_about(event, device),
    ensures
        task_about(user::app_ops(event), device),
{
}

/// What happens on the network to a device concerns that device alone.
pub proof fn law_network_events_keep_to_their_device(
    conn_ids: Map<Seq<char>, u64>,
    event: TransportEvent,
    ops: Seq<Op>,
)
    requires
        network::transport_plan(conn_ids, event, ops),
    ensures
        task_about(ops, transport_event_device(event)@),
{
}

/// A job started for a device concerns that device alone.
pub proof fn law_jobs_keep_to_their_device(job: Job, device: Seq<char>)
    requires
        job_about(job, device),
    ensures
        task_about(job::job_ops(job), device),
{
}

} // verus!
