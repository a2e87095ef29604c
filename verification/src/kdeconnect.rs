//! The core itself.
//!
//! Events turn into tasks, and a task is carried out one step at a time. A step changes what the
//! core remembers, sends into a channel, or asks the program around the core to do something and
//! to come back with the answer. Tasks may take turns in any order.
use std::sync::Arc;
use tokio::sync::mpsc::UnboundedSender;
use vstd::prelude::*;

use crate::channel::{open_channel, Inbox, Outlet};
use crate::connection::{
    install_connection, packet_allowed_for_pair_state, remove_connection,
    remove_connection_if_current, remove_pairing_attempt, sender_to, start_pairing_attempt,
    write_packet, ConnectionHandle, UnpairedResyncLimiter,
};
use crate::device::{known_pair_state, Device, DeviceId, PairState};
use crate::device_map::DeviceMap;
use crate::event::{AppEvent, ConnectionEvent, CoreEvent, TransportEvent};
use crate::plan::greeting::{plan_greeting, plugin_for_greeting};
use crate::plan::job::{plan_after_poll, plan_final_timeout, plan_incoming_timeout, plan_job};
use crate::plan::network::{
    plan_admit, plan_disown, plan_distrust, plan_packet_received, plan_pair_asked,
    plan_pair_received, plan_resync, plan_settle, plan_transport,
};
use crate::plan::request::plan_core;
use crate::plan::user::{
    plan_accept_in_time, plan_accept_pairing, plan_app, plan_ask_to_pair, plan_pair_wanted,
    plan_refuse_pairing, plan_share, plan_share_file, plan_toggle,
};
use crate::plan::{
    fail_pairing_if_pending, plan_after_drop, plan_after_offer, plan_after_queue, plan_broadcast,
};
use crate::plugin_interface::PluginRegistry;
use crate::protocol::{pair_packet, PacketKey, PacketType, Pair, ProtocolPacket};
use crate::state::CoreState;
use crate::task::{is_fitting, Action, AfterDrop, Job, Op, Reply, Step, Task, Then};

verus! {

/// The receiving halves of the channels that a new core comes with.
pub struct Inboxes {
    /// What is asked of the core by itself and by the plugins.
    pub event_rx: Inbox<CoreEvent>,
    /// What the user asks of the core.
    pub in_rx: Inbox<AppEvent>,
    /// What the core tells the user.
    pub conn_rx: Inbox<ConnectionEvent>,
    /// What the core tells the media player bridge.
    pub mpris_conn_rx: Inbox<ConnectionEvent>,
}

/// What the core was woken by: something from one of its three sources, or, where nothing is
/// given, the end of that source.
pub enum Wake {
    Core(Option<CoreEvent>),
    Transport(Option<TransportEvent>),
    App(Option<AppEvent>),
}

/// The core: what it remembers of each device, and the channels it speaks through. Packet handlers
/// are of type `H`.
#[verifier::reject_recursive_types(H)]
pub struct KdeConnectCore<H> {
    plugin_registry: PluginRegistry<H>,
    writer_map: DeviceMap<ConnectionHandle>,
    conn_id_map: DeviceMap<u64>,
    pairing_attempts: DeviceMap<u64>,
    unpaired_resync_limiter: UnpairedResyncLimiter,
    event_tx: Outlet<CoreEvent>,
    conn_tx: Outlet<ConnectionEvent>,
    mpris_conn_tx: Outlet<ConnectionEvent>,
    out_tx: Arc<UnboundedSender<AppEvent>>,
}

/// The device in an answer.
fn device_in(reply: Reply) -> (found: Option<Device>)
    requires
        reply is Device,
    ensures
        reply == Reply::Device(found),
{
    match reply {
        Reply::Device(found) => found,
        _ => None,
    }
}

/// The time in an answer.
fn time_in(reply: Reply) -> (now: u64)
    requires
        reply is Time,
    ensures
        reply == Reply::Time(now),
{
    match reply {
        Reply::Time(now) => now,
        _ => 0,
    }
}

/// Whether an operation only decides what comes next.
fn only_decides(op: &Op) -> (decides: bool)
    ensures
        decides == crate::state::is_decision(*op),
{
    match op {
        Op::BroadcastIfPaired(..)
        | Op::Share(..)
        | Op::ShareFile(..)
        | Op::Admit(..)
        | Op::Settle(..)
        | Op::PairReceived(..)
        | Op::PairAsked(..)
        | Op::PacketReceived(..)
        | Op::Disown(..)
        | Op::FailPairing(..)
        | Op::Distrust(..)
        | Op::PairWanted(..)
        | Op::AskToPair(..)
        | Op::Accept(..)
        | Op::AcceptInTime(..)
        | Op::Refuse(..)
        | Op::IncomingTimeout(..)
        | Op::FinalTimeout(..) => true,
        _ => false,
    }
}

/// Decides what comes next.
fn decide(op: Op, reply: Reply) -> (ops: Vec<Op>)
    requires
        crate::state::is_decision(op),
        crate::task::fits(op.wants(), reply),
    ensures
        ops@ == crate::state::decision(op, reply),
{
    match op {
        Op::BroadcastIfPaired(_) => plan_broadcast(device_in(reply)),
        Op::Share(sender) => match reply {
            Reply::Shares(shares) => plan_share(sender, shares),
            _ => Vec::new(),
        },
        Op::ShareFile(sender, body) => match reply {
            Reply::Opened(opened) => plan_share_file(sender, body, opened),
            _ => Vec::new(),
        },
        Op::Admit(arrival) => match reply {
            Reply::Discovered(found) => plan_admit(arrival, found),
            _ => Vec::new(),
        },
        Op::Settle(arrival) => match reply {
            Reply::Saved(device) => plan_settle(arrival, device),
            _ => Vec::new(),
        },
        Op::PairReceived(id, pair, packet) => plan_pair_received(
            id,
            pair,
            packet,
            device_in(reply),
        ),
        Op::PairAsked(id, name) => match reply {
            Reply::NewRequest(new) => plan_pair_asked(id, name, new),
            _ => Vec::new(),
        },
        Op::PacketReceived(id, packet) => plan_packet_received(id, packet, device_in(reply)),
        Op::Disown(id) => plan_disown(id, device_in(reply)),
        Op::FailPairing(id) => fail_pairing_if_pending(id, device_in(reply)),
        Op::Distrust(id) => plan_distrust(id, device_in(reply)),
        Op::PairWanted(id) => plan_pair_wanted(id, device_in(reply)),
        Op::AskToPair(id) => plan_ask_to_pair(id, time_in(reply)),
        Op::Accept(id) => plan_accept_pairing(id, device_in(reply)),
        Op::AcceptInTime(id, phone_ts) => plan_accept_in_time(id, phone_ts, time_in(reply)),
        Op::Refuse(id) => plan_refuse_pairing(id, device_in(reply)),
        Op::IncomingTimeout(id) => plan_incoming_timeout(id, device_in(reply)),
        Op::FinalTimeout(id, sent_at_once) => plan_final_timeout(id, sent_at_once, device_in(reply)),
        _ => Vec::new(),
    }
}

impl<H> KdeConnectCore<H> {
    /// What the core remembers, and the account of all that it sent.
    pub closed spec fn state(self) -> CoreState {
        CoreState {
            writers: self.writer_map@,
            conn_ids: self.conn_id_map@,
            attempts: self.pairing_attempts@,
            last_sent: self.unpaired_resync_limiter@,
            disabled: self.plugin_registry.disabled(),
            events: self.event_tx@,
            user: self.conn_tx@,
            bridge: self.mpris_conn_tx@,
            requests: *self.out_tx,
        }
    }

    /// The plugins it knows.
    pub closed spec fn registry(self) -> PluginRegistry<H> {
        self.plugin_registry
    }

    /// Whether the plugins and the handlers are still the same.
    pub open spec fn same_plugins(self, other: KdeConnectCore<H>) -> bool {
        &&& self.registry().plugin_names() == other.registry().plugin_names()
        &&& forall|key: PacketKey| #[trigger]
            self.registry().handler(key) == other.registry().handler(key)
    }

    /// A core that remembers nothing yet but what is switched off in the registry and has sent
    /// nothing, and the receiving halves of its channels, each fed by the sender it is named for.
    pub fn new(plugin_registry: PluginRegistry<H>) -> (made: (KdeConnectCore<H>, Inboxes))
        ensures
            made.0.registry() == plugin_registry,
            made.0.state().is_new(plugin_registry.disabled()),
            made.1.event_rx.fed_by() == made.0.state().events.channel,
            made.1.conn_rx.fed_by() == made.0.state().user.channel,
            made.1.mpris_conn_rx.fed_by() == made.0.state().bridge.channel,
            made.1.in_rx.fed_by() == made.0.state().requests,
    {
        let (out_tx, in_rx) = open_channel();
        let (conn_tx, conn_rx) = open_channel();
        let (mpris_conn_tx, mpris_conn_rx) = open_channel();
        let (event_tx, event_rx) = open_channel();
        let core = KdeConnectCore {
            plugin_registry,
            writer_map: DeviceMap::new(),
            conn_id_map: DeviceMap::new(),
            pairing_attempts: DeviceMap::new(),
            unpaired_resync_limiter: UnpairedResyncLimiter::new(),
            event_tx: Outlet::new(event_tx),
            conn_tx: Outlet::new(conn_tx),
            mpris_conn_tx: Outlet::new(mpris_conn_tx),
            out_tx: Arc::new(out_tx),
        };
        (core, Inboxes { event_rx, in_rx, conn_rx, mpris_conn_rx })
    }

    /// The channel through which the user asks things of the core.
    pub fn take_events(&self) -> (out_tx: Arc<UnboundedSender<AppEvent>>)
        ensures
            *out_tx == self.state().requests,
    {
        Arc::clone(&self.out_tx)
    }

    /// The plugins it knows.
    pub fn plugin_registry(&self) -> (registry: &PluginRegistry<H>)
        ensures
            *registry == self.registry(),
            registry.disabled() == self.state().disabled,
    {
        &self.plugin_registry
    }

    /// Another handle on the channel to the core itself.
    pub fn event_sender(&mut self) -> (event_tx: UnboundedSender<CoreEvent>)
        ensures
            event_tx == old(self).state().events.channel,
            final(self).registry() == old(self).registry(),
            final(self).state() == (CoreState {
                events: old(self).state().events.copied(),
                ..old(self).state()
            }),
    {
        self.event_tx.share()
    }

    /// Another handle on the channel to the user.
    pub fn conn_sender(&mut self) -> (conn_tx: UnboundedSender<ConnectionEvent>)
        ensures
            conn_tx == old(self).state().user.channel,
            final(self).registry() == old(self).registry(),
            final(self).state() == (CoreState {
                user: old(self).state().user.copied(),
                ..old(self).state()
            }),
    {
        self.conn_tx.share()
    }

    /// Another handle on the channel to the media player bridge.
    pub fn mpris_conn_sender(&mut self) -> (mpris_conn_tx: UnboundedSender<ConnectionEvent>)
        ensures
            mpris_conn_tx == old(self).state().bridge.channel,
            final(self).registry() == old(self).registry(),
            final(self).state() == (CoreState {
                bridge: old(self).state().bridge.copied(),
                ..old(self).state()
            }),
    {
        self.mpris_conn_tx.share()
    }

    /// What a request to the core leads to.
    pub fn core_events(&self, event: CoreEvent) -> (task: Task)
        ensures
            task@ == crate::plan::request::core_ops(event),
    {
        Task::new(plan_core(event))
    }

    /// What an event on the network leads to.
    pub fn transport_events(&self, event: TransportEvent) -> (task: Task)
        ensures
            crate::plan::network::transport_plan(self.state().conn_ids, event, task@),
    {
        Task::new(plan_transport(&self.conn_id_map, event))
    }

    /// What a request of the user leads to.
    pub fn kde_events(&self, event: AppEvent) -> (task: Task)
        ensures
            task@ == crate::plan::user::app_ops(event),
    {
        Task::new(plan_app(event))
    }

    /// What a job consists of.
    pub fn job(&self, job: Job) -> (task: Task)
        ensures
            task@ == crate::plan::job::job_ops(job),
    {
        Task::new(plan_job(job))
    }

    /// What the core does when it is woken: the task that the event leads to, or nothing more at
    /// all once one of its sources has ended.
    pub fn run_event_loop(&self, wake: Wake) -> (task: Option<Task>)
        ensures
            match wake {
                Wake::Core(Some(event)) => task matches Some(task) && task@
                    == crate::plan::request::core_ops(event),
                Wake::Transport(Some(event)) => task matches Some(task)
                    && crate::plan::network::transport_plan(self.state().conn_ids, event, task@),
                Wake::App(Some(event)) => task matches Some(task) && task@
                    == crate::plan::user::app_ops(event),
                _ => task is None,
            },
    {
        match wake {
            Wake::Core(Some(event)) => Some(self.core_events(event)),
            Wake::Transport(Some(event)) => Some(self.transport_events(event)),
            Wake::App(Some(event)) => Some(self.kde_events(event)),
            _ => None,
        }
    }

    /// Whether a paired device is not connected, so that calling out for it is worth while.
    pub fn has_disconnected_paired(&self, devices: &Vec<Device>) -> (found: bool)
        ensures
            found == exists|i: int|
                0 <= i < devices@.len() && (#[trigger] devices@[i]).pair_state == PairState::Paired
                    && !self.state().writers.contains_key(devices@[i].device_id@),
    {
        let mut i: usize = 0;
        while i < devices.len()
            invariant
                i <= devices@.len(),
                forall|j: int|
                    0 <= j < i ==> !((#[trigger] devices@[j]).pair_state == PairState::Paired
                        && !self.state().writers.contains_key(devices@[j].device_id@)),
            decreases devices@.len() - i,
        {
            let device = &devices[i];
            if matches!(device.pair_state, PairState::Paired) && !self.writer_map.contains_key(
                &device.device_id,
            ) {
                return true;
            }
            i = i + 1;
        }
        false
    }

    /// Whether a packet may go to a device, going by the pair state it was found in.
    fn packet_allowed_to_send(&self, packet_type: &PacketType, found: &Option<Device>) -> (may_send:
        bool)
        ensures
            may_send == crate::connection::allowed(
                *packet_type,
                crate::device::pair_state_of(*found),
            ),
    {
        packet_allowed_for_pair_state(packet_type, known_pair_state(found))
    }

    /// A copy of the sender to a device, if a packet may go there now. Nothing is written.
    fn sender_for(&mut self, id: &DeviceId, packet_type: &PacketType, found: &Option<Device>) -> (sender:
        Option<UnboundedSender<ProtocolPacket>>)
        ensures
            final(self).same_plugins(*old(self)),
            match sender {
                Some(copy) => {
                    &&& old(self).state().can_send(*id, *packet_type, *found)
                    &&& copy == old(self).state().writers[id@].writes.channel
                    &&& final(self).state() == old(self).state().copied(id@)
                },
                None => {
                    &&& !old(self).state().can_send(*id, *packet_type, *found)
                    &&& final(self).state() == old(self).state()
                },
            },
    {
        if !self.packet_allowed_to_send(packet_type, found) {
            return None;
        }
        sender_to(&mut self.writer_map, id)
    }

    /// Writes a packet to the connection of a device if that is allowed, and nothing anywhere else.
    fn queue_packet(
        &mut self,
        task: &mut Task,
        id: DeviceId,
        packet: ProtocolPacket,
        then: Then,
        found: Option<Device>,
    ) -> (step: Step)
        ensures
            final(self).same_plugins(*old(self)),
            final(self).state() == crate::state::answered(
                crate::state::next_state(
                    old(self).state(),
                    Op::Offer(id, packet, then),
                    Reply::Device(found),
                ),
                Op::Offer(id, packet, then),
                step,
            ),
            final(task)@ == crate::state::put_before(
                old(self).state(),
                Op::Offer(id, packet, then),
                Reply::Device(found),
                crate::state::was_accepted(step),
            ) + old(task)@,
            crate::state::shows(
                old(self).state(),
                Op::Offer(id, packet, then),
                Reply::Device(found),
                step,
            ),
    {
        if !self.packet_allowed_to_send(&packet.packet_type, &found) {
            task.put_first(plan_after_queue(then, false));
            return Step::Idle;
        }
        match write_packet(&mut self.writer_map, &id, packet) {
            Some(taken) => {
                task.put_first(plan_after_offer(id, then, taken));
                assert(self.state() =~= old(self).state().written(id@, packet).answered(
                    id@,
                    taken,
                ));
                Step::Offered(taken)
            },
            None => {
                task.put_first(plan_after_queue(then, false));
                Step::Idle
            },
        }
    }

    /// Writes a pairing request to the connection of a device if there is one.
    fn poll(&mut self, task: &mut Task, id: DeviceId, pair: Pair, retries: u32) -> (step: Step)
        ensures
            final(self).same_plugins(*old(self)),
            forall|reply: Reply|
                final(self).state() == crate::state::answered(
                    #[trigger] crate::state::next_state(
                        old(self).state(),
                        Op::Poll(id, pair, retries),
                        reply,
                    ),
                    Op::Poll(id, pair, retries),
                    step,
                ),
            forall|reply: Reply|
                final(task)@ == #[trigger] crate::state::put_before(
                    old(self).state(),
                    Op::Poll(id, pair, retries),
                    reply,
                    crate::state::was_accepted(step),
                ) + old(task)@,
            forall|reply: Reply| #[trigger]
                crate::state::shows(
                    old(self).state(),
                    Op::Poll(id, pair, retries),
                    reply,
                    step,
                ),
    {
        match write_packet(&mut self.writer_map, &id, pair_packet(pair)) {
            Some(taken) => {
                task.put_first(plan_after_poll(id, pair, retries, taken));
                assert(self.state() =~= old(self).state().written(
                    id@,
                    crate::protocol::pair_packet_of(pair),
                ).answered(id@, taken));
                Step::Offered(taken)
            },
            None => {
                task.put_first(plan_after_poll(id, pair, retries, false));
                Step::Idle
            },
        }
    }

    /// Drops the connection of a device.
    fn drop_connection(&mut self, task: &mut Task, id: DeviceId, after: AfterDrop) -> (step: Step)
        ensures
            final(self).same_plugins(*old(self)),
            final(self).state() == old(self).state().without_connection(id@),
            forall|reply: Reply, accepted: bool|
                final(task)@ == #[trigger] crate::state::put_before(
                    old(self).state(),
                    Op::Drop(id, after),
                    reply,
                    accepted,
                ) + old(task)@,
            forall|reply: Reply| #[trigger]
                crate::state::shows(
                    old(self).state(),
                    Op::Drop(id, after),
                    reply,
                    step,
                ),
    {
        match remove_connection(&mut self.writer_map, &mut self.conn_id_map, &id) {
            Some(handle) => {
                task.put_first(plan_after_drop(id, after));
                Step::Closed(handle)
            },
            None => {
                assert(task@ =~= Seq::<Op>::empty() + old(task)@);
                Step::Idle
            },
        }
    }

    /// Drops a connection unless it was replaced already.
    fn drop_connection_if_current(
        &mut self,
        task: &mut Task,
        id: DeviceId,
        conn_id: u64,
        after: AfterDrop,
    ) -> (step: Step)
        ensures
            final(self).same_plugins(*old(self)),
            forall|reply: Reply|
                final(self).state() == #[trigger] crate::state::next_state(
                    old(self).state(),
                    Op::DropIfCurrent(id, conn_id, after),
                    reply,
                ),
            forall|reply: Reply, accepted: bool|
                final(task)@ == #[trigger] crate::state::put_before(
                    old(self).state(),
                    Op::DropIfCurrent(id, conn_id, after),
                    reply,
                    accepted,
                ) + old(task)@,
            forall|reply: Reply| #[trigger]
                crate::state::shows(
                    old(self).state(),
                    Op::DropIfCurrent(id, conn_id, after),
                    reply,
                    step,
                ),
    {
        match remove_connection_if_current(
            &mut self.writer_map,
            &mut self.conn_id_map,
            &id,
            conn_id,
        ) {
            Some(handle) => {
                task.put_first(plan_after_drop(id, after));
                Step::Closed(handle)
            },
            None => {
                assert(task@ =~= Seq::<Op>::empty() + old(task)@);
                Step::Idle
            },
        }
    }

    /// Carries out the next operation of a task, given the answer to the action before it.
    pub fn step(&mut self, task: &mut Task, reply: Reply) -> (step: Step)
        ensures
            final(self).same_plugins(*old(self)),
            crate::state::steps(
                old(self).state(),
                old(task)@,
                reply,
                final(self).state(),
                final(task)@,
                step,
            ),
    {
        match task.takes() {
            Some(takes) => {
                if !is_fitting(takes, &reply) {
                    return Step::WrongReply(reply);
                }
            },
            None => {
                return Step::Finished;
            },
        }
        let op = task.next();
        self.carry_out(task, op, reply)
    }

    /// Carries out an operation that was taken off a task.
    fn carry_out(&mut self, task: &mut Task, op: Op, reply: Reply) -> (step: Step)
        requires
            crate::task::fits(op.wants(), reply),
        ensures
            final(self).same_plugins(*old(self)),
            final(self).state() == crate::state::answered(
                crate::state::next_state(old(self).state(), op, reply),
                op,
                step,
            ),
            crate::state::remains(
                old(self).state(),
                op,
                reply,
                crate::state::was_accepted(step),
                old(task)@,
                final(task)@,
            ),
            crate::state::shows(old(self).state(), op, reply, step),
    {
        if only_decides(&op) {
            task.put_first(decide(op, reply));
            return Step::Idle;
        }
        assert(Seq::<Op>::empty() + old(task)@ =~= old(task)@);
        match op {
            Op::Do(action) => Step::Act(action),
            Op::ForgetAttempt(id) => {
                remove_pairing_attempt(&mut self.pairing_attempts, &id);
                Step::Idle
            },
            Op::ClearResync(id) => {
                self.unpaired_resync_limiter.clear(&id);
                Step::Idle
            },
            Op::Publish(event) => {
                let _ = self.conn_tx.hand_over(event.duplicate());
                let _ = self.mpris_conn_tx.hand_over(event);
                Step::Published
            },
            Op::Post(event) => {
                let _ = self.event_tx.hand_over(event);
                Step::Posted
            },
            Op::Install(id, conn_id, handle) => {
                match install_connection(
                    &mut self.writer_map,
                    &mut self.conn_id_map,
                    id,
                    conn_id,
                    handle,
                ) {
                    Some(handle) => Step::Closed(handle),
                    None => Step::Idle,
                }
            },
            Op::Greet(id, greeting) => {
                if self.plugin_registry.is_plugin_enabled(&id, plugin_for_greeting(greeting)) {
                    task.put_first(plan_greeting(id, greeting));
                }
                Step::Idle
            },
            Op::Queue(id, packet, then) => {
                let lookup = Action::Lookup(id.duplicate());
                let offer = vec![Op::Offer(id, packet, then)];
                assert(offer@ =~= seq![Op::Offer(id, packet, then)]);
                task.put_first(offer);
                Step::Act(lookup)
            },
            Op::Offer(id, packet, then) => self.queue_packet(
                task,
                id,
                packet,
                then,
                device_in(reply),
            ),
            Op::Drop(id, after) => self.drop_connection(task, id, after),
            Op::DropIfCurrent(id, conn_id, after) => self.drop_connection_if_current(
                task,
                id,
                conn_id,
                after,
            ),
            Op::DispatchTo(packet) => match device_in(reply) {
                Some(device) => Step::Act(Action::Dispatch(device, packet)),
                None => Step::Idle,
            },
            Op::PluginSendTo(packet) => match device_in(reply) {
                Some(device) => Step::Act(Action::PluginSend(device, packet)),
                None => Step::Idle,
            },
            Op::PayloadGate(id, packet, payload) => {
                match self.sender_for(&id, &packet.packet_type, &device_in(reply)) {
                    Some(sender) => Step::Act(
                        Action::SendPayload { sender: Arc::new(sender), packet, payload },
                    ),
                    None => Step::Act(Action::DiscardPayload(payload)),
                }
            },
            Op::ShareGate(id, files) => {
                match self.sender_for(&id, &PacketType::ShareRequest, &device_in(reply)) {
                    Some(sender) => {
                        let sender = Arc::new(sender);
                        let share = vec![Op::Share(sender)];
                        assert(share@ =~= seq![Op::Share(sender)]);
                        task.put_first(share);
                        Step::Act(Action::PrepareShare(files))
                    },
                    None => Step::Idle,
                }
            },
            Op::Resync(id) => {
                let due = self.unpaired_resync_limiter.should_send_at(&id, time_in(reply));
                task.put_first(plan_resync(id, due));
                Step::Idle
            },
            Op::BeginAttempt(id, pair, queued) => {
                let attempt = start_pairing_attempt(&mut self.pairing_attempts, &id);
                task.put_first(
                    vec![
                        Op::Do(Action::UpdatePairState(id.duplicate(), PairState::Requesting)),
                        Op::Do(Action::Spawn(Job::PairWatch { device: id, attempt, queued, pair })),
                    ],
                );
                Step::Idle
            },
            Op::Toggle(id, plugin, enabled) => {
                if let Reply::Disabled(stored) = reply {
                    let (ops, Ghost(set)) = plan_toggle(id, plugin, enabled, stored);
                    task.put_first(ops);
                    assert((*set)@ == crate::plan::user::toggled(stored@, plugin@, enabled)
                        && task@ == crate::plan::user::apply_disabled(id, set) + old(task)@);
                }
                Step::Idle
            },
            Op::SetDisabled(id, set) => {
                self.plugin_registry.set_device_disabled(id, set);
                Step::Idle
            },
            Op::CheckAttempt(id, attempt) => {
                let latest = match self.pairing_attempts.get(&id) {
                    Some(latest) => *latest == attempt,
                    None => false,
                };
                if !latest {
                    task.stop();
                }
                Step::Idle
            },
            Op::RestoreDisabled(id) => {
                if let Reply::Disabled(stored) = reply {
                    self.plugin_registry.set_device_disabled(id, Arc::new(stored));
                }
                Step::Idle
            },
            Op::Poll(id, pair, retries) => self.poll(task, id, pair, retries),
            _ => Step::Idle,
        }
    }
}

} // verus!
