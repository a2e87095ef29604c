//! Trust: who is paired, and what only paired devices get.
use vstd::prelude::*;

use crate::connection;
use crate::device::{Certificate, Device, DeviceId, PairState};
use crate::event::{AppEvent, CoreEvent, TransportEvent};
use crate::laws::lemma_remaining_origin;
use crate::plan;
use crate::plan::job;
use crate::plan::network;
use crate::plan::request;
use crate::plan::user;
use crate::protocol::{Pair, ProtocolPacket};
use crate::state;
use crate::state::CoreState;
use crate::task::{Action, AfterDrop, Arrival, Job, Op, Reply, Step, Then};

verus! {

/// A reply that found a paired device.
pub open spec fn found_paired(reply: Reply) -> bool {
    reply matches Reply::Device(found) && crate::device::pair_state_of(found) == Some(
        PairState::Paired,
    )
}

/// Nothing is written to the connection of a device but, at most, one packet in a step; and that only
/// if pairing itself is made of such packets, or if the device was just found to be paired. The step
/// reports what the connection answered.
pub proof fn law_other_packets_go_to_paired_devices_only(
    s: CoreState,
    ops: Seq<Op>,
    reply: Reply,
    next: CoreState,
    remaining: Seq<Op>,
    step: Step,
    device: Seq<char>,
)
    requires
        state::steps(s, ops, reply, next, remaining, step),
        s.writers.contains_key(device),
        next.writers.contains_key(device),
        ops.len() > 0 ==> !(ops[0] is Install),
    ensures
        next.writers[device].writes.sent == s.writers[device].writes.sent || exists|
            packet: ProtocolPacket,
            taken: bool,
        |
            step == Step::Offered(taken) && next.writers[device]
                == #[trigger] s.writers[device].with(packet).answered(taken) && (
            connection::is_protocol_packet(packet.packet_type) || found_paired(reply)),
{
    if ops.len() > 0 && crate::task::fits(ops[0].wants(), reply) {
        match ops[0] {
            Op::Offer(id, packet, _) => {
                if id@ == device && step is Offered {
                    assert(next.writers[device] == s.writers[device].with(packet).answered(
                        step->Offered_0,
                    ));
                }
            },
            Op::Poll(id, pair, _) => {
                if id@ == device && step is Offered {
                    assert(next.writers[device] == s.writers[device].with(
                        crate::protocol::pair_packet_of(pair),
                    ).answered(step->Offered_0));
                }
            },
            _ => {},
        }
    }
}

/// The packets that pairing itself is made of go to every device that is connected, whatever its
/// pair state.
pub proof fn law_pairing_packets_are_never_held_back(
    s: CoreState,
    id: DeviceId,
    packet: ProtocolPacket,
    found: Option<Device>,
)
    requires
        connection::is_protocol_packet(packet.packet_type),
    ensures
        s.can_send(id, packet.packet_type, found) == s.writers.contains_key(id@),
{
}

/// Sending a packet takes two steps: the device is looked up, and the packet is written to its
/// connection if the rules allow it and there is one; otherwise it goes nowhere, and nothing changes.
/// What follows depends on whether the connection took the packet; one that did not is dropped
/// first.
pub proof fn law_sending_a_packet(
    s: CoreState,
    rest: Seq<Op>,
    first: Reply,
    between: CoreState,
    offered: Seq<Op>,
    lookup: Step,
    found: Option<Device>,
    next: CoreState,
    remaining: Seq<Op>,
    step: Step,
    id: DeviceId,
    packet: ProtocolPacket,
    then: Then,
)
    requires
        state::steps(
            s,
            seq![Op::Queue(id, packet, then)] + rest,
            first,
            between,
            offered,
            lookup,
        ),
        state::steps(
            between,
            offered,
            Reply::Device(found),
            next,
            remaining,
            step,
        ),
    ensures
        lookup == Step::Act(Action::Lookup(id)),
        step is Offered <==> s.can_send(id, packet.packet_type, found),
        step matches Step::Offered(taken) ==> next == s.written(id@, packet).answered(id@, taken),
        !(step is Offered) ==> next == s,
        remaining == (if state::was_accepted(step) {
            plan::after_queue(then, true)
        } else if step is Offered {
            plan::after_refusal(id, then)
        } else {
            plan::after_queue(then, false)
        }) + rest,
{
    let ops = seq![Op::Queue(id, packet, then)] + rest;
    assert(ops.drop_first() =~= rest);
    assert(offered == seq![Op::Offer(id, packet, then)] + rest);
    assert(offered.drop_first() =~= rest);
}

/// Operations that only a paired device may give rise to, or that make one paired: sending files,
/// handing a packet to the plugins, recording a device as paired.
pub open spec fn gated(op: Op) -> bool {
    match op {
        Op::Share(_) | Op::ShareFile(_, _) => true,
        Op::Do(action) => action is SendPayload || action is SetPaired,
        Op::Post(event) => event is PacketReceived,
        _ => false,
    }
}

/// No operation of a task is gated.
pub open spec fn ungated(ops: Seq<Op>) -> bool {
    forall|i: int| 0 <= i < ops.len() ==> !gated(#[trigger] ops[i])
}

/// Through which operation a gated one comes in.
///
/// Files are shared over the connection of a device that was found to be paired, and sent over the
/// same connection later. A packet goes to the plugins if the device that it came from was found
/// to be paired. A device is recorded as paired once its connection has answered that it took the
/// packet that was to say so.
pub open spec fn opens(
    s: CoreState,
    op: Op,
    reply: Reply,
    next: CoreState,
    step: Step,
    gated: Op,
) -> bool {
    match gated {
        Op::Share(sender) => {
            &&& op matches Op::ShareGate(id, _)
            &&& found_paired(reply)
            &&& s.writers.contains_key(id@)
            &&& *sender == s.writers[id@].writes.channel
        },
        Op::ShareFile(sender, _) => op == Op::Share(sender),
        Op::Do(Action::SendPayload { sender, .. }) => op matches Op::ShareFile(over, _) && over
            == sender,
        Op::Post(CoreEvent::PacketReceived { device, packet }) => {
            &&& op == Op::PacketReceived(device, packet)
            &&& found_paired(reply)
        },
        Op::Do(Action::SetPaired(id)) => {
            &&& op matches Op::Offer(to, packet, Then::Accepted(paired))
            &&& paired == id
            &&& step == Step::Offered(true)
            &&& s.writers.contains_key(to@) && next.writers.contains_key(to@)
            &&& next.writers[to@] == s.writers[to@].with(packet).answered(true)
        },
        _ => true,
    }
}

/// Whether all gated operations come in through this one.
pub open spec fn opens_all(
    s: CoreState,
    op: Op,
    reply: Reply,
    next: CoreState,
    step: Step,
    ops: Seq<Op>,
) -> bool {
    forall|i: int|
        0 <= i < ops.len() && gated(#[trigger] ops[i]) ==> opens(s, op, reply, next, step, ops[i])
}

/// What a connection that is let in leads to is not gated.
proof fn lemma_admitted_ungated(arrival: Arrival, found: Option<Device>)
    ensures
        ungated(network::admitted(arrival, found)),
        forall|d: Device| ungated(#[trigger] network::settle(arrival, d)),
{
}

/// What an operation puts before the rest comes in through its gates.
proof fn lemma_put_before_opened(
    s: CoreState,
    op: Op,
    reply: Reply,
    next: CoreState,
    step: Step,
)
    requires
        state::shows(s, op, reply, step),
        next == state::answered(state::next_state(s, op, reply), op, step),
    ensures
        opens_all(
            s,
            op,
            reply,
            next,
            step,
            state::put_before(s, op, reply, state::was_accepted(step)),
        ),
{
    match (op, reply) {
        (Op::Admit(arrival), Reply::Discovered(found)) => {
            lemma_admitted_ungated(arrival, found);
        },
        (Op::Settle(arrival), _) => {
            lemma_admitted_ungated(arrival, None);
        },
        (Op::Share(sender), Reply::Shares(Some(files))) => {
            user::lemma_share_files(sender, files@);
        },
        _ => {},
    }
}

/// Gated operations come in through their gates: one that remains after a step was to come
/// already, or was let in by that step.
pub proof fn law_gated_operations_come_through_their_gates(
    s: CoreState,
    ops: Seq<Op>,
    reply: Reply,
    next: CoreState,
    remaining: Seq<Op>,
    step: Step,
    i: int,
)
    requires
        ops.len() > 0,
        crate::task::fits(ops[0].wants(), reply),
        state::steps(s, ops, reply, next, remaining, step),
        0 <= i < remaining.len(),
        gated(remaining[i]),
    ensures
        opens(s, ops[0], reply, next, step, remaining[i]) || exists|j: int|
            1 <= j < ops.len() && remaining[i] == #[trigger] ops[j],
{
    lemma_put_before_opened(s, ops[0], reply, next, step);
    lemma_remaining_origin(s, ops, reply, next, remaining, step, i);
}

/// No event, no request and no job starts with a gated operation.
pub proof fn law_tasks_start_before_the_gates(
    core_event: CoreEvent,
    app_event: AppEvent,
    job: Job,
    conn_ids: Map<Seq<char>, u64>,
    transport_event: TransportEvent,
    transport_ops: Seq<Op>,
)
    requires
        network::transport_plan(conn_ids, transport_event, transport_ops),
    ensures
        ungated(request::core_ops(core_event)),
        ungated(user::app_ops(app_event)),
        ungated(job::job_ops(job)),
        ungated(transport_ops),
{
}

/// A payload is sent right away only if it goes with a packet that may be sent to the device as it
/// was just found.
pub proof fn law_payloads_go_where_their_packet_may_go(
    s: CoreState,
    ops: Seq<Op>,
    reply: Reply,
    next: CoreState,
    remaining: Seq<Op>,
    step: Step,
)
    requires
        ops.len() > 0,
        !gated(ops[0]),
        state::steps(s, ops, reply, next, remaining, step),
    ensures
        step matches Step::Act(Action::SendPayload { packet, .. })
            ==> connection::is_protocol_packet(packet.packet_type) || found_paired(reply),
{
}

/// The packet that accepts a pairing request.
pub open spec fn acceptance() -> ProtocolPacket {
    crate::protocol::pair_packet_of(Pair { pair: true, timestamp: None })
}

/// Whether an operation that leads to a device being recorded as paired sends an acceptance.
pub open spec fn genuine(op: Op) -> bool {
    match op {
        Op::Queue(_, packet, then) | Op::Offer(_, packet, then) => then is Accepted ==> packet
            == acceptance(),
        _ => true,
    }
}

/// Whether all operations of a task are genuine.
pub open spec fn all_genuine(ops: Seq<Op>) -> bool {
    forall|i: int| 0 <= i < ops.len() ==> genuine(#[trigger] ops[i])
}

/// What a connection that is let in leads to is genuine.
proof fn lemma_admitted_genuine(arrival: Arrival, found: Option<Device>)
    ensures
        all_genuine(network::admitted(arrival, found)),
        forall|d: Device| all_genuine(#[trigger] network::settle(arrival, d)),
{
}

/// What an operation puts before the rest is genuine.
proof fn lemma_put_before_genuine(s: CoreState, op: Op, reply: Reply, accepted: bool)
    requires
        genuine(op),
    ensures
        all_genuine(state::put_before(s, op, reply, accepted)),
{
    match (op, reply) {
        (Op::Admit(arrival), Reply::Discovered(found)) => {
            lemma_admitted_genuine(arrival, found);
        },
        (Op::Settle(arrival), _) => {
            lemma_admitted_genuine(arrival, None);
        },
        (Op::Share(sender), Reply::Shares(Some(files))) => {
            user::lemma_share_files(sender, files@);
        },
        _ => {},
    }
}

/// What leads to a device being recorded as paired is always an acceptance: this holds of every
/// task at its start, and every step keeps it.
pub proof fn law_acceptances_are_genuine(
    s: CoreState,
    ops: Seq<Op>,
    reply: Reply,
    next: CoreState,
    remaining: Seq<Op>,
    step: Step,
)
    requires
        all_genuine(ops),
        state::steps(s, ops, reply, next, remaining, step),
    ensures
        all_genuine(remaining),
{
    if ops.len() > 0 && crate::task::fits(ops[0].wants(), reply) {
        assert(genuine(ops[0]));
        lemma_put_before_genuine(s, ops[0], reply, state::was_accepted(step));
        assert forall|i: int| 0 <= i < remaining.len() implies genuine(#[trigger] remaining[i]) by {
            lemma_remaining_origin(s, ops, reply, next, remaining, step, i);
        }
    }
}

/// Every task starts with genuine operations.
pub proof fn law_tasks_start_genuine(
    core_event: CoreEvent,
    app_event: AppEvent,
    job: Job,
    conn_ids: Map<Seq<char>, u64>,
    transport_event: TransportEvent,
    transport_ops: Seq<Op>,
)
    requires
        network::transport_plan(conn_ids, transport_event, transport_ops),
    ensures
        all_genuine(request::core_ops(core_event)),
        all_genuine(user::app_ops(app_event)),
        all_genuine(job::job_ops(job)),
        all_genuine(transport_ops),
{
}

/// A packet for a plugin from a device that is not paired reaches no plugin. The device is put on
/// record as not paired, and told so or dropped.
pub proof fn law_strangers_are_turned_away(
    id: DeviceId,
    packet: ProtocolPacket,
    found: Option<Device>,
)
    requires
        crate::device::pair_state_of(found) != Some(PairState::Paired),
    ensures
        network::packet_received(id, packet, found) == network::reject_unpaired(id),
        network::reject_unpaired(id).last() == Op::Resync(id),
        network::disown(id, found) == (match found {
            Some(device) => if device.pair_state == PairState::NotPaired {
                Seq::<Op>::empty()
            } else {
                seq![plan::unpair(id)]
            },
            None => Seq::<Op>::empty(),
        }),
{
}

/// A stranger that is turned away loses its connection: at once, or, where the notice that it is
/// not paired was accepted for sending, by a job that drops it.
pub proof fn law_strangers_lose_their_connection(
    s: CoreState,
    id: DeviceId,
    now: u64,
    found: Option<Device>,
    accepted: bool,
)
    ensures
        ({
            let notice = connection::pair_false();
            let told = state::put_before(s, Op::Resync(id), Reply::Time(now), accepted);
            if connection::resync_due(s.last_sent, id@, now) {
                &&& told == seq![Op::Queue(id, notice, Then::Resync(id))]
                &&& ({
                    let offer = Op::Offer(id, notice, Then::Resync(id));
                    let after = state::put_before(s, offer, Reply::Device(found), accepted);
                    if s.writers.contains_key(id@) && accepted {
                        after == seq![Op::Do(Action::Spawn(Job::DropLater(id)))]
                    } else {
                        after.len() > 0 && (after[0] matches Op::Drop(dropped, _) && dropped == id)
                    }
                })
            } else {
                told == seq![Op::Drop(id, AfterDrop::StopVolume)]
            }
        }),
        job::job_ops(Job::DropLater(id)).last() == Op::Drop(id, AfterDrop::Nothing),
{
}

/// Two notices to the same stranger are at least the interval apart, as long as the record of the
/// first is kept.
pub proof fn law_notices_keep_their_distance(
    last_sent: Map<Seq<char>, u64>,
    device: Seq<char>,
    first: u64,
    second: u64,
)
    requires
        connection::resync_due(last_sent, device, first),
    ensures
        ({
            let record = connection::resync_record(last_sent, device, first);
            connection::resync_due(record, device, second) == (second - first
                >= connection::UNPAIRED_RESYNC_INTERVAL)
        }),
{
}

/// A notice to one stranger does not hold back notices to another.
pub proof fn law_notices_are_counted_per_device(
    last_sent: Map<Seq<char>, u64>,
    device: Seq<char>,
    other: Seq<char>,
    first: u64,
    second: u64,
)
    requires
        other != device,
    ensures
        connection::resync_due(
            connection::resync_record(last_sent, device, first),
            other,
            second,
        ) == connection::resync_due(last_sent, other, second),
{
}

/// Once the record of a device was cleared, a notice is due again at any time.
pub proof fn law_a_cleared_device_is_told_again(
    s: CoreState,
    reply: Reply,
    id: DeviceId,
    now: u64,
)
    ensures
        connection::resync_due(
            state::next_state(s, Op::ClearResync(id), reply).last_sent,
            id@,
            now,
        ),
{
}

/// A new pairing attempt supersedes the one before: the watch over the old attempt ends at its next
/// check, and that over the new one goes on.
pub proof fn law_a_new_attempt_supersedes_the_old(
    s: CoreState,
    reply: Reply,
    id: DeviceId,
    pair: Pair,
    queued: bool,
    old_attempt: u64,
)
    requires
        s.is_latest(id@, old_attempt),
    ensures
        ({
            let next = state::next_state(s, Op::BeginAttempt(id, pair, queued), reply);
            let new_attempt = connection::next_attempt(s.attempts, id@);
            &&& state::ends_task(next, Op::CheckAttempt(id, old_attempt))
            &&& !state::ends_task(next, Op::CheckAttempt(id, new_attempt))
        }),
{
}

/// Once the attempt with a device was forgotten, every watch over it ends at its next check.
pub proof fn law_a_forgotten_attempt_ends_its_watch(
    s: CoreState,
    reply: Reply,
    id: DeviceId,
    attempt: u64,
)
    ensures
        state::ends_task(
            state::next_state(s, Op::ForgetAttempt(id), reply),
            Op::CheckAttempt(id, attempt),
        ),
{
}

/// Forgetting or starting an attempt with one device leaves the attempts with others alone.
pub proof fn law_attempts_are_counted_per_device(
    s: CoreState,
    reply: Reply,
    id: DeviceId,
    pair: Pair,
    queued: bool,
    other: Seq<char>,
    attempt: u64,
)
    requires
        other != id@,
    ensures
        state::next_state(s, Op::ForgetAttempt(id), reply).is_latest(other, attempt)
            == s.is_latest(other, attempt),
        state::next_state(s, Op::BeginAttempt(id, pair, queued), reply).is_latest(other, attempt)
            == s.is_latest(other, attempt),
{
}

/// A pairing request is repeated only while it could not be sent, and one time less with each try.
pub proof fn law_a_request_is_repeated_a_limited_number_of_times(
    id: DeviceId,
    pair: Pair,
    retries: u32,
    sent: bool,
)
    ensures
        ({
            let ops = job::after_poll(id, pair, retries, sent);
            if !sent && retries > 0 {
                ops.len() == 2 && ops[1] == Op::Poll(id, pair, (retries - 1) as u32)
            } else {
                forall|i: int| 0 <= i < ops.len() ==> !((#[trigger] ops[i]) is Poll)
            }
        }),
{
}

/// No pairing request goes unwatched. One that the user is shown is refused by a job if it is left
/// unanswered, and one that was sent is watched over by a job under the number of the attempt, so
/// that neither side waits for ever.
pub proof fn law_every_request_is_watched(
    s: CoreState,
    id: DeviceId,
    name: String,
    pair: Pair,
    queued: bool,
    reply: Reply,
    accepted: bool,
)
    ensures
        network::pair_asked(id, name, true).last() == Op::Do(
            Action::Spawn(Job::IncomingPairTimeout(id)),
        ),
        job::job_ops(Job::IncomingPairTimeout(id)).last() == Op::IncomingTimeout(id),
        state::put_before(s, Op::BeginAttempt(id, pair, queued), reply, accepted).last() == Op::Do(
            Action::Spawn(
                Job::PairWatch {
                    device: id,
                    attempt: connection::next_attempt(s.attempts, id@),
                    queued,
                    pair,
                },
            ),
        ),
        forall|attempt: u64|
            (#[trigger] job::job_ops(Job::PairWatch { device: id, attempt, queued, pair })).last()
                == Op::FinalTimeout(id, queued),
{
}

/// A request that is still open when its time is up is withdrawn: the peer is told, the device
/// recorded as not paired, and the user told. One that was settled meanwhile is left alone.
pub proof fn law_open_requests_are_withdrawn(
    id: DeviceId,
    sent_at_once: bool,
    found: Option<Device>,
)
    ensures
        ({
            let told = Op::Post(
                CoreEvent::SendPacket { device: id, packet: connection::pair_false() },
            );
            let state = crate::device::pair_state_of(found);
            let incoming = job::incoming_timeout(id, found);
            let outgoing = job::final_timeout(id, sent_at_once, found);
            &&& if state == Some(PairState::Requested) {
                incoming == seq![told, plan::unpair(id), plan::tell_timed_out(id)]
            } else {
                incoming.len() == 0
            }
            &&& if state == Some(PairState::Requesting) {
                outgoing == seq![
                    told,
                    plan::unpair(id),
                    Op::ForgetAttempt(id),
                    plan::tell_timed_out(id),
                ]
            } else {
                forall|i: int|
                    0 <= i < outgoing.len() ==> #[trigger] outgoing[i] == Op::ForgetAttempt(id)
            }
        }),
{
}

/// An outgoing request is given up when the timeout has passed since it was sent, if the attempt is
/// still the latest and the device has not answered; a request that could not be sent at once is
/// timed from the moment it was sent.
pub proof fn law_outgoing_requests_time_out(
    s: CoreState,
    id: DeviceId,
    attempt: u64,
    pair: Pair,
    retries: u32,
    reply: Reply,
)
    ensures
        job::job_ops(Job::PairWatch { device: id, attempt, queued: true, pair }) == seq![
            Op::Do(Action::Sleep((connection::PAIRING_TIMEOUT_SECS * 1000) as u64)),
            Op::CheckAttempt(id, attempt),
            plan::lookup(id),
            Op::FinalTimeout(id, true),
        ],
        s.writers.contains_key(id@) ==> state::put_before(
            s,
            Op::Poll(id, pair, retries),
            reply,
            true,
        ) == seq![Op::Do(Action::Sleep((connection::PAIRING_TIMEOUT_SECS * 1000) as u64))],
{
}

/// The clocks of two devices agree exactly if they are at most the allowed difference apart,
/// whichever is ahead.
pub proof fn law_clocks_agree_within_the_limit(a: u64, b: u64)
    ensures
        user::clocks_agree(a, b) == user::clocks_agree(b, a),
        user::clocks_agree(a, b) == (if a >= b {
            a - b <= connection::ALLOWED_TIMESTAMP_DIFF_SECS
        } else {
            b - a <= connection::ALLOWED_TIMESTAMP_DIFF_SECS
        }),
{
}

/// Whether a request may be accepted without looking at the clock: the protocol does not ask for it,
/// or the peer stated no time.
pub open spec fn untimed(device: Device) -> bool {
    device.protocol_version < user::CLOCK_CHECK_VERSION || device.pairing_timestamp == 0
}

/// Whether an operation sends an acceptance.
pub open spec fn accepts(op: Op) -> bool {
    op matches Op::Queue(_, _, then) && then is Accepted
}

/// No operation of a task sends an acceptance.
pub open spec fn accepts_nothing(ops: Seq<Op>) -> bool {
    forall|i: int| 0 <= i < ops.len() ==> !accepts(#[trigger] ops[i])
}

/// Whether a decision may be to accept: the clocks agree, or there is no time to compare.
pub open spec fn may_accept(op: Op, reply: Reply) -> bool {
    match (op, reply) {
        (Op::AcceptInTime(_, phone_ts), Reply::Time(now)) => user::clocks_agree(phone_ts, now),
        (Op::Accept(_), Reply::Device(Some(device)))
        | (Op::PairWanted(_), Reply::Device(Some(device))) => device.pair_state
            == PairState::Requested && untimed(device),
        _ => false,
    }
}

/// What a connection that is let in leads to accepts nothing.
proof fn lemma_admitted_accepts_nothing(arrival: Arrival, found: Option<Device>)
    ensures
        accepts_nothing(network::admitted(arrival, found)),
        forall|d: Device| accepts_nothing(#[trigger] network::settle(arrival, d)),
{
}

/// However the user comes to accept a request, by answering it or by asking to pair: the acceptance
/// is sent only if the clocks agree, or if there is no time to compare and the device was found to be
/// asking.
pub proof fn law_requests_are_accepted_by_the_clock(
    s: CoreState,
    op: Op,
    reply: Reply,
    accepted: bool,
)
    ensures
        may_accept(op, reply) || accepts_nothing(state::put_before(s, op, reply, accepted)),
{
    match (op, reply) {
        (Op::Admit(arrival), Reply::Discovered(found)) => {
            lemma_admitted_accepts_nothing(arrival, found);
        },
        (Op::Settle(arrival), _) => {
            lemma_admitted_accepts_nothing(arrival, None);
        },
        (Op::Share(sender), Reply::Shares(Some(files))) => {
            user::lemma_share_files(sender, files@);
        },
        _ => {},
    }
}

/// No event, no request and no job starts with an acceptance.
pub proof fn law_tasks_start_without_an_acceptance(
    core_event: CoreEvent,
    app_event: AppEvent,
    job: Job,
    conn_ids: Map<Seq<char>, u64>,
    transport_event: TransportEvent,
    transport_ops: Seq<Op>,
)
    requires
        network::transport_plan(conn_ids, transport_event, transport_ops),
    ensures
        accepts_nothing(request::core_ops(core_event)),
        accepts_nothing(user::app_ops(app_event)),
        accepts_nothing(job::job_ops(job)),
        accepts_nothing(transport_ops),
{
}

/// A request that comes with a time too far from ours is refused, and the device recorded as not
/// paired.
pub proof fn law_requests_out_of_time_are_refused(id: DeviceId, phone_ts: u64, now: u64)
    requires
        !user::clocks_agree(phone_ts, now),
    ensures
        user::accept_in_time(id, phone_ts, now) == seq![
            Op::Queue(id, connection::pair_false(), Then::Nothing),
            plan::unpair(id),
            plan::tell_timed_out(id),
        ],
{
}

/// Whether a task goes on to install a connection.
pub open spec fn lets_in(ops: Seq<Op>) -> bool {
    exists|i: int|
        0 <= i < ops.len() && ((#[trigger] ops[i]) is Install || ops[i] is Settle)
}

/// A paired device is let in only with a protocol version not below the one on record, and only
/// with the certificate on record if there is one.
pub proof fn law_paired_devices_are_let_in_unchanged(arrival: Arrival, device: Device)
    requires
        device.pair_state == PairState::Paired,
        lets_in(network::admitted(arrival, Some(device))),
    ensures
        device.protocol_version <= arrival.protocol_version,
        device.remote_certificate matches Some(stored) ==> arrival.peer_certificate matches Some(
            peer,
        ) && peer@ == stored@,
{
}

/// A device that no record could be made of is not let in. Any other that is not paired is.
pub proof fn law_unpaired_devices_are_let_in(arrival: Arrival, found: Option<Device>)
    requires
        crate::device::pair_state_of(found) != Some(PairState::Paired),
    ensures
        lets_in(network::admitted(arrival, found)) == (found is Some),
{
    if let Some(device) = found {
        let ops = network::admitted(arrival, found);
        let at: int = if arrival.pairing_timestamp > 0 {
            3
        } else {
            2
        };
        assert(ops[at] is Install);
    }
}

/// A paired device that comes back with another certificate is unpaired, its certificate and data
/// forgotten.
pub proof fn law_a_changed_certificate_unpairs(
    arrival: Arrival,
    device: Device,
    stored: Certificate,
)
    requires
        device.pair_state == PairState::Paired,
        device.protocol_version <= arrival.protocol_version,
        device.remote_certificate == Some(stored),
        !(arrival.peer_certificate matches Some(peer) && peer@ == stored@),
    ensures
        network::admitted(arrival, Some(device)) == seq![
            Op::Do(
                Action::AddOrUpdateDevice(
                    arrival.id,
                    Device { remote_certificate: None, ..device },
                ),
            ),
            Op::Do(Action::UpdatePairState(arrival.id, PairState::NotPaired)),
            Op::Do(Action::CleanUp(arrival.id)),
        ],
{
}

/// Whatever becomes of the notice, unpairing a device ends with its data removed and its connection
/// dropped.
pub proof fn law_unpairing_always_cleans_up(id: DeviceId, queued: bool)
    ensures
        user::app_ops(AppEvent::Unpair(id)).last() == Op::Queue(
            id,
            connection::pair_false(),
            Then::Unpaired(id),
        ),
        plan::after_queue(Then::Unpaired(id), queued) == seq![
            Op::Do(Action::Spawn(Job::UnpairCleanup { device: id, queued })),
        ],
        plan::after_refusal(id, Then::Unpaired(id)).last() == Op::Do(
            Action::Spawn(Job::UnpairCleanup { device: id, queued: false }),
        ),
        job::job_ops(Job::UnpairCleanup { device: id, queued }).contains(
            Op::Do(Action::CleanUp(id)),
        ),
        job::job_ops(Job::UnpairCleanup { device: id, queued }).last() == Op::Drop(
            id,
            AfterDrop::StopVolume,
        ),
{
    let ops = job::job_ops(Job::UnpairCleanup { device: id, queued });
    let at: int = if queued {
        1
    } else {
        0
    };
    assert(ops[at] == Op::Do(Action::CleanUp(id)));
}

} // verus!
