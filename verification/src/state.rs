//! What the core remembers, and how each operation changes it.
use std::sync::Arc;
use tokio::sync::mpsc::UnboundedSender;
use vstd::prelude::*;

use crate::channel::Flow;
use crate::connection::Link;
use crate::device::{Device, DeviceId, PairState};
use crate::event::{AppEvent, ConnectionEvent, CoreEvent};
use crate::plan::greeting;
use crate::plan::job;
use crate::plan::network;
use crate::plan::user;
use crate::plugin_set::PluginSet;
use crate::protocol::{PacketType, ProtocolPacket};
use crate::task::{Action, Job, Op, Reply, Step};

verus! {

/// Everything the core remembers, and the account of all that it sent.
#[verifier::ext_equal]
pub struct CoreState {
    /// The connection that reaches each device, with the account of what was written to it and of
    /// whether it was told to shut down.
    pub writers: Map<Seq<char>, Link>,
    /// The number of that connection.
    pub conn_ids: Map<Seq<char>, u64>,
    /// The number of the pairing attempt under way.
    pub attempts: Map<Seq<char>, u64>,
    /// When each stranger was last told that it is not paired.
    pub last_sent: Map<Seq<char>, u64>,
    /// The plugins that are switched off.
    pub disabled: Map<Seq<char>, Set<Seq<char>>>,
    /// What was sent to the core itself.
    pub events: Flow<CoreEvent>,
    /// What was sent to the user.
    pub user: Flow<ConnectionEvent>,
    /// What was sent to the media player bridge.
    pub bridge: Flow<ConnectionEvent>,
    /// The channel from the user to the core; handed out on request.
    pub requests: UnboundedSender<AppEvent>,
}

impl CoreState {
    /// Nothing is remembered yet but what is switched off, and nothing was sent.
    pub open spec fn is_new(self, disabled: Map<Seq<char>, Set<Seq<char>>>) -> bool {
        &&& self.writers == Map::<Seq<char>, Link>::empty()
        &&& self.conn_ids == Map::<Seq<char>, u64>::empty()
        &&& self.attempts == Map::<Seq<char>, u64>::empty()
        &&& self.last_sent == Map::<Seq<char>, u64>::empty()
        &&& self.disabled == disabled
        &&& self.events == Flow::fresh(self.events.channel)
        &&& self.user == Flow::fresh(self.user.channel)
        &&& self.bridge == Flow::fresh(self.bridge.channel)
    }

    /// A device has a connection exactly if it has the number of one.
    pub open spec fn in_sync(self) -> bool {
        self.writers.dom() == self.conn_ids.dom()
    }

    /// The state without the connection of a device.
    pub open spec fn without_connection(self, device: Seq<char>) -> CoreState {
        CoreState {
            writers: self.writers.remove(device),
            conn_ids: self.conn_ids.remove(device),
            ..self
        }
    }

    /// The state after a packet was written to the connection of a device.
    pub open spec fn written(self, device: Seq<char>, packet: ProtocolPacket) -> CoreState {
        CoreState {
            writers: self.writers.insert(device, self.writers[device].with(packet)),
            ..self
        }
    }

    /// The state after the connection of a device answered a packet.
    pub open spec fn answered(self, device: Seq<char>, taken: bool) -> CoreState {
        CoreState {
            writers: self.writers.insert(device, self.writers[device].answered(taken)),
            ..self
        }
    }

    /// The state after a copy of the sender to a device was handed out.
    pub open spec fn copied(self, device: Seq<char>) -> CoreState {
        CoreState { writers: self.writers.insert(device, self.writers[device].copied()), ..self }
    }

    /// Whether a packet may go to a device now: the rules allow it and there is a connection.
    pub open spec fn can_send(self, id: DeviceId, packet_type: PacketType, found: Option<Device>) -> bool {
        crate::connection::allowed(packet_type, crate::device::pair_state_of(found))
            && self.writers.contains_key(id@)
    }

    /// Whether a pairing attempt is the latest one with its device.
    pub open spec fn is_latest(self, device: Seq<char>, attempt: u64) -> bool {
        self.attempts.contains_key(device) && self.attempts[device] == attempt
    }
}

/// Whether an operation only decides what comes next, from the answer it takes.
pub open spec fn is_decision(op: Op) -> bool {
    match op {
        Op::BroadcastIfPaired(..)
        | Op::Share(..)
        | Op::ShareFile(..)
        | Op::Admit(..)
        | Op::Settle(..)
        | Op::PairReceived(..)
        | Op::PairAsked(..)
        | Op::PacketReceived(..)
        | Op::Disown(..)
        | Op::FailPairing(..)
        | Op::Distrust(..)
        | Op::PairWanted(..)
        | Op::AskToPair(..)
        | Op::Accept(..)
        | Op::AcceptInTime(..)
        | Op::Refuse(..)
        | Op::IncomingTimeout(..)
        | Op::FinalTimeout(..) => true,
        _ => false,
    }
}

/// What a decision comes to.
pub open spec fn decision(op: Op, reply: Reply) -> Seq<Op> {
    match (op, reply) {
        (Op::BroadcastIfPaired(_), Reply::Device(found)) => crate::plan::broadcast(found),
        (Op::Share(sender), Reply::Shares(Some(files))) => user::share_files(sender, files@),
        (Op::ShareFile(sender, body), Reply::Opened(opened)) => user::share_file(
            sender,
            body,
            opened,
        ),
        (Op::Admit(arrival), Reply::Discovered(found)) => network::admitted(arrival, found),
        (Op::Settle(arrival), Reply::Saved(device)) => network::settle(arrival, device),
        (Op::PairReceived(id, pair, packet), Reply::Device(found)) => network::pair_received(
            id,
            pair,
            packet,
            found,
        ),
        (Op::PairAsked(id, name), Reply::NewRequest(new)) => network::pair_asked(id, name, new),
        (Op::PacketReceived(id, packet), Reply::Device(found)) => network::packet_received(
            id,
            packet,
            found,
        ),
        (Op::Disown(id), Reply::Device(found)) => network::disown(id, found),
        (Op::FailPairing(id), Reply::Device(found)) => crate::plan::fail_pairing(id, found),
        (Op::Distrust(id), Reply::Device(found)) => network::distrust(id, found),
        (Op::PairWanted(id), Reply::Device(found)) => user::pair_wanted(id, found),
        (Op::AskToPair(id), Reply::Time(now)) => user::ask_to_pair(id, now),
        (Op::Accept(id), Reply::Device(found)) => user::accept_pairing(id, found),
        (Op::AcceptInTime(id, phone_ts), Reply::Time(now)) => user::accept_in_time(
            id,
            phone_ts,
            now,
        ),
        (Op::Refuse(id), Reply::Device(found)) => user::refuse_pairing(id, found),
        (Op::IncomingTimeout(id), Reply::Device(found)) => job::incoming_timeout(id, found),
        (Op::FinalTimeout(id, sent_at_once), Reply::Device(found)) => job::final_timeout(
            id,
            sent_at_once,
            found,
        ),
        _ => seq![],
    }
}

/// The state after an operation, but for the answer of a connection to which a packet was written.
/// It holds the account of everything sent, so it says as well what an operation does not send.
pub open spec fn next_state(s: CoreState, op: Op, reply: Reply) -> CoreState {
    match op {
        Op::ForgetAttempt(id) => CoreState { attempts: s.attempts.remove(id@), ..s },
        Op::Publish(event) => CoreState {
            user: s.user.with(event),
            bridge: s.bridge.with(event),
            ..s
        },
        Op::Post(event) => CoreState { events: s.events.with(event), ..s },
        Op::Offer(id, packet, _) => match reply {
            Reply::Device(found) => if s.can_send(id, packet.packet_type, found) {
                s.written(id@, packet)
            } else {
                s
            },
            _ => s,
        },
        Op::Poll(id, pair, _) => if s.writers.contains_key(id@) {
            s.written(id@, crate::protocol::pair_packet_of(pair))
        } else {
            s
        },
        Op::PayloadGate(id, packet, _) => match reply {
            Reply::Device(found) => if s.can_send(id, packet.packet_type, found) {
                s.copied(id@)
            } else {
                s
            },
            _ => s,
        },
        Op::ShareGate(id, _) => match reply {
            Reply::Device(found) => if s.can_send(id, PacketType::ShareRequest, found) {
                s.copied(id@)
            } else {
                s
            },
            _ => s,
        },
        Op::ClearResync(id) => CoreState { last_sent: s.last_sent.remove(id@), ..s },
        Op::Install(id, conn_id, handle) => CoreState {
            writers: s.writers.insert(id@, handle@),
            conn_ids: s.conn_ids.insert(id@, conn_id),
            ..s
        },
        Op::Drop(id, _) => s.without_connection(id@),
        Op::DropIfCurrent(id, conn_id, _) => if crate::connection::is_current(
            s.conn_ids,
            id@,
            conn_id,
        ) {
            s.without_connection(id@)
        } else {
            s
        },
        Op::Resync(id) => match reply {
            Reply::Time(now) => CoreState {
                last_sent: crate::connection::resync_record(s.last_sent, id@, now),
                ..s
            },
            _ => s,
        },
        Op::BeginAttempt(id, _, _) => CoreState {
            attempts: s.attempts.insert(
                id@,
                crate::connection::next_attempt(s.attempts, id@),
            ),
            ..s
        },
        Op::SetDisabled(id, set) => CoreState { disabled: s.disabled.insert(id@, (*set)@), ..s },
        Op::RestoreDisabled(id) => match reply {
            Reply::Disabled(stored) => CoreState {
                disabled: s.disabled.insert(id@, stored@),
                ..s
            },
            _ => s,
        },
        _ => s,
    }
}

/// The state with the answer of a connection to which a packet was written: the step reports what
/// the connection answered.
pub open spec fn answered(s: CoreState, op: Op, step: Step) -> CoreState {
    match (op, step) {
        (Op::Offer(id, _, _), Step::Offered(taken))
        | (Op::Poll(id, _, _), Step::Offered(taken)) => s.answered(id@, taken),
        _ => s,
    }
}

/// Whether an operation ends the task it is part of.
pub open spec fn ends_task(s: CoreState, op: Op) -> bool {
    match op {
        Op::CheckAttempt(id, attempt) => !s.is_latest(id@, attempt),
        _ => false,
    }
}

/// Whether dropping a connection finds one to drop.
pub open spec fn drops(s: CoreState, op: Op) -> bool {
    match op {
        Op::Drop(id, _) => s.writers.contains_key(id@),
        Op::DropIfCurrent(id, conn_id, _) => crate::connection::is_current(
            s.conn_ids,
            id@,
            conn_id,
        ) && s.writers.contains_key(id@),
        _ => false,
    }
}

/// The operations that an operation puts before those still to come. Where it writes a packet to
/// a connection, they depend on whether the connection took it.
pub open spec fn put_before(s: CoreState, op: Op, reply: Reply, accepted: bool) -> Seq<Op> {
    match (op, reply) {
        (Op::Greet(id, greeting), _) => if crate::plugin_interface::enabled(
            s.disabled,
            id@,
            greeting::greeting_plugin(greeting),
        ) {
            greeting::greeting_ops(id, greeting)
        } else {
            seq![]
        },
        (Op::Queue(id, packet, then), _) => seq![Op::Offer(id, packet, then)],
        (Op::Offer(id, packet, then), Reply::Device(found)) => if !s.can_send(
            id,
            packet.packet_type,
            found,
        ) {
            crate::plan::after_queue(then, false)
        } else if accepted {
            crate::plan::after_queue(then, true)
        } else {
            crate::plan::after_refusal(id, then)
        },
        (Op::Drop(id, after), _) => if drops(s, op) {
            crate::plan::after_drop(id, after)
        } else {
            seq![]
        },
        (Op::DropIfCurrent(id, _, after), _) => if drops(s, op) {
            crate::plan::after_drop(id, after)
        } else {
            seq![]
        },
        (Op::ShareGate(id, _), Reply::Device(found)) => if s.can_send(
            id,
            PacketType::ShareRequest,
            found,
        ) {
            seq![Op::Share(Arc::new(s.writers[id@].writes.channel))]
        } else {
            seq![]
        },
        (Op::Resync(id), Reply::Time(now)) => network::resync(
            id,
            crate::connection::resync_due(s.last_sent, id@, now),
        ),
        (Op::BeginAttempt(id, pair, queued), _) => seq![
            Op::Do(Action::UpdatePairState(id, PairState::Requesting)),
            Op::Do(
                Action::Spawn(
                    Job::PairWatch {
                        device: id,
                        attempt: crate::connection::next_attempt(s.attempts, id@),
                        queued,
                        pair,
                    },
                ),
            ),
        ],
        (Op::Poll(id, pair, retries), _) => job::after_poll(
            id,
            pair,
            retries,
            s.writers.contains_key(id@) && accepted,
        ),
        _ => if is_decision(op) {
            decision(op, reply)
        } else {
            seq![]
        },
    }
}

/// The operations of a task that remain after its next one.
pub open spec fn remains(
    s: CoreState,
    op: Op,
    reply: Reply,
    accepted: bool,
    rest: Seq<Op>,
    remaining: Seq<Op>,
) -> bool {
    match (op, reply) {
        (Op::Toggle(id, plugin, enabled), Reply::Disabled(stored)) => exists|set: Arc<PluginSet>|
            (*set)@ == user::toggled(stored@, plugin@, enabled) && remaining
                == #[trigger] user::apply_disabled(id, set) + rest,
        _ => if ends_task(s, op) {
            remaining == Seq::<Op>::empty()
        } else {
            remaining == put_before(s, op, reply, accepted) + rest
        },
    }
}

/// What a step shows to the program around the core.
pub open spec fn shows(s: CoreState, op: Op, reply: Reply, step: Step) -> bool {
    match (op, reply) {
        (Op::Do(action), _) => step == Step::Act(action),
        (Op::Publish(_), _) => step is Published,
        (Op::Post(_), _) => step is Posted,
        (Op::Install(id, _, _), _) => if s.writers.contains_key(id@) {
            step matches Step::Closed(handle) && handle@ == s.writers[id@].shut()
        } else {
            step is Idle
        },
        (Op::Drop(id, _), _) | (Op::DropIfCurrent(id, _, _), _) => if drops(s, op) {
            step matches Step::Closed(handle) && handle@ == s.writers[id@].shut()
        } else {
            step is Idle
        },
        (Op::Queue(id, _, _), _) => step == Step::Act(Action::Lookup(id)),
        (Op::Offer(id, packet, _), Reply::Device(found)) => if s.can_send(
            id,
            packet.packet_type,
            found,
        ) {
            step is Offered
        } else {
            step is Idle
        },
        (Op::Poll(id, _, _), _) => if s.writers.contains_key(id@) {
            step is Offered
        } else {
            step is Idle
        },
        (Op::DispatchTo(packet), Reply::Device(Some(device))) => step == Step::Act(
            Action::Dispatch(device, packet),
        ),
        (Op::PluginSendTo(packet), Reply::Device(Some(device))) => step == Step::Act(
            Action::PluginSend(device, packet),
        ),
        (Op::PayloadGate(id, packet, payload), Reply::Device(found)) => if s.can_send(
            id,
            packet.packet_type,
            found,
        ) {
            step == Step::Act(
                Action::SendPayload {
                    sender: Arc::new(s.writers[id@].writes.channel),
                    packet,
                    payload,
                },
            )
        } else {
            step == Step::Act(Action::DiscardPayload(payload))
        },
        (Op::ShareGate(id, files), Reply::Device(found)) => if s.can_send(
            id,
            PacketType::ShareRequest,
            found,
        ) {
            step == Step::Act(Action::PrepareShare(files))
        } else {
            step is Idle
        },
        _ => step is Idle,
    }
}

/// Whether a packet was written to a connection and taken.
pub open spec fn was_accepted(step: Step) -> bool {
    step == Step::Offered(true)
}

/// One step of a task: from a state, the operations to come and an answer, to the next state, the
/// operations that remain and what the step shows. An answer of the wrong kind changes nothing.
pub open spec fn steps(
    s: CoreState,
    ops: Seq<Op>,
    reply: Reply,
    next: CoreState,
    remaining: Seq<Op>,
    step: Step,
) -> bool {
    if ops.len() == 0 {
        next == s && remaining == ops && step is Finished
    } else if !crate::task::fits(ops[0].wants(), reply) {
        next == s && remaining == ops && step == Step::WrongReply(reply)
    } else {
        &&& next == answered(next_state(s, ops[0], reply), ops[0], step)
        &&& remains(s, ops[0], reply, was_accepted(step), ops.drop_first(), remaining)
        &&& shows(s, ops[0], reply, step)
    }
}

} // verus!
