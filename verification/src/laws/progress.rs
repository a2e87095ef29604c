//! Every task comes to an end.
use std::sync::Arc;
use tokio::sync::mpsc::UnboundedSender;
use vstd::prelude::*;

use crate::device::{Device, DeviceId, PairState};
use crate::event::ConnectionEvent;
use crate::plan;
use crate::plan::greeting;
use crate::plan::job;
use crate::plan::network;
use crate::plan::user;
use crate::plugin_set::PluginSet;
use crate::protocol::{Pair, ProtocolPacket};
use crate::state;
use crate::state::CoreState;
use crate::task::{Action, AfterDrop, Arrival, Greeting, Op, Reply, SharedFile, Step, Then};

verus! {

/// How much work an operation may still give rise to, itself counted, apart from the sharing of
/// files.
pub open spec fn op_weight(op: Op) -> nat {
    match op {
        Op::BroadcastIfPaired(_) => 2,
        Op::Drop(_, _) | Op::DropIfCurrent(_, _, _) => 6,
        Op::BeginAttempt(_, _, _) => 3,
        Op::Offer(_, _, _) => 18,
        Op::Queue(_, _, _) => 19,
        Op::Greet(_, _) => 21,
        Op::Poll(_, _, retries) => 2 + 2 * retries as nat,
        Op::FinalTimeout(_, _) => 5,
        Op::IncomingTimeout(_) => 4,
        Op::FailPairing(_) => 4,
        Op::Distrust(_) | Op::Disown(_) | Op::ShareFile(_, _) => 2,
        Op::Resync(_) => 20,
        Op::PacketReceived(_, _) => 27,
        Op::PairAsked(_, _) => 3,
        Op::PairReceived(_, _, _) => 10,
        Op::AskToPair(_) => 21,
        Op::PairWanted(_) => 24,
        Op::AcceptInTime(_, _) => 22,
        Op::Accept(_) => 24,
        Op::Refuse(_) => 21,
        Op::Toggle(_, _, _) => 9,
        Op::Settle(_) => 176,
        Op::Admit(_) => 178,
        _ => 1,
    }
}

/// How many steps an operation takes until it is known which files are to be shared, of which there
/// may be any number.
pub open spec fn op_sharing(op: Op) -> nat {
    match op {
        Op::ShareGate(_, _) => 2,
        Op::Share(_) => 1,
        _ => 0,
    }
}

/// The weight of the first operations together.
pub open spec fn weight_of_first(ops: Seq<Op>, n: nat) -> nat
    decreases n,
{
    if n == 0 {
        0
    } else {
        weight_of_first(ops, (n - 1) as nat) + op_weight(ops[n - 1])
    }
}

/// How many such steps the first operations take together.
pub open spec fn sharing_of_first(ops: Seq<Op>, n: nat) -> nat
    decreases n,
{
    if n == 0 {
        0
    } else {
        sharing_of_first(ops, (n - 1) as nat) + op_sharing(ops[n - 1])
    }
}

/// The weight of all operations together.
pub open spec fn weight(ops: Seq<Op>) -> nat {
    weight_of_first(ops, ops.len())
}

/// How many such steps all operations take together.
pub open spec fn sharing(ops: Seq<Op>) -> nat {
    sharing_of_first(ops, ops.len())
}

/// Both measures go by the operations alone.
proof fn lemma_same_first(a: Seq<Op>, b: Seq<Op>, n: nat)
    requires
        n <= a.len(),
        n <= b.len(),
        forall|i: int| 0 <= i < n ==> a[i] == b[i],
    ensures
        weight_of_first(a, n) == weight_of_first(b, n),
        sharing_of_first(a, n) == sharing_of_first(b, n),
    decreases n,
{
    if n > 0 {
        lemma_same_first(a, b, (n - 1) as nat);
    }
}

/// Both measures add up.
proof fn lemma_concat(a: Seq<Op>, b: Seq<Op>)
    ensures
        weight(a + b) == weight(a) + weight(b),
        sharing(a + b) == sharing(a) + sharing(b),
    decreases b.len(),
{
    if b.len() == 0 {
        assert(a + b =~= a);
    } else {
        let c = b.drop_last();
        lemma_concat(a, c);
        lemma_same_first(a + b, a + c, (a + c).len());
        lemma_same_first(b, c, c.len());
    }
}

/// Sharing files leads to no further sharing.
proof fn lemma_share_files(sender: Arc<UnboundedSender<ProtocolPacket>>, files: Seq<SharedFile>)
    ensures
        sharing(user::share_files(sender, files)) == 0,
    decreases files.len(),
{
    reveal_with_fuel(sharing_of_first, 3);
    if files.len() > 0 {
        lemma_share_files(sender, files.drop_last());
        lemma_concat(
            user::share_files(sender, files.drop_last()),
            seq![
                Op::Do(Action::OpenFile(files.last().path)),
                Op::ShareFile(sender, files.last().body),
            ],
        );
    }
}

/// What the greetings of a connected device may lead to.
proof fn lemma_welcome(id: DeviceId)
    ensures
        weight(network::welcome(id)) == 168,
        sharing(network::welcome(id)) == 0,
{
    reveal_with_fuel(weight_of_first, 9);
    reveal_with_fuel(sharing_of_first, 9);
}

/// What a connection that is settled may lead to.
proof fn lemma_settle(arrival: Arrival, device: Device)
    ensures
        weight(network::settle(arrival, device)) <= 175,
        sharing(network::settle(arrival, device)) == 0,
{
    let id = arrival.id;
    let record = seq![
        Op::Do(Action::AddOrUpdateDevice(id, device)),
        Op::Do(Action::SetProtocolVersion(id, arrival.protocol_version)),
    ];
    let timestamp = if arrival.pairing_timestamp > 0 {
        seq![Op::Do(Action::SetPairingTimestamp(id, arrival.pairing_timestamp))]
    } else {
        seq![]
    };
    let greetings = if device.pair_state == PairState::Paired {
        network::welcome(id)
    } else {
        seq![]
    };
    let install = seq![
        Op::Install(id, arrival.conn_id, arrival.handle),
        Op::Do(Action::LoadDisabled(id)),
        Op::RestoreDisabled(id),
    ];
    let publish = seq![Op::Publish(ConnectionEvent::Connected((id, device)))];
    lemma_concat(record, timestamp);
    lemma_concat(record + timestamp, install);
    lemma_concat(record + timestamp + install, greetings);
    lemma_concat(record + timestamp + install + greetings, publish);
    lemma_welcome(id);
    assert(weight(record) == 2 && weight(timestamp) <= 1 && weight(install) == 3 && weight(publish)
        == 1 && sharing(record) == 0 && sharing(timestamp) == 0 && sharing(install) == 0
        && sharing(publish) == 0 && weight(greetings) <= 168 && sharing(greetings) == 0) by {
        reveal_with_fuel(weight_of_first, 4);
        reveal_with_fuel(sharing_of_first, 4);
    }
}

/// What a connection that has arrived may lead to.
proof fn lemma_admitted(arrival: Arrival, found: Option<Device>)
    ensures
        weight(network::admitted(arrival, found)) <= 177,
        sharing(network::admitted(arrival, found)) == 0,
{
    reveal_with_fuel(weight_of_first, 4);
    reveal_with_fuel(sharing_of_first, 4);
    if let Some(device) = found {
        lemma_settle(arrival, network::with_certificate(device, arrival.peer_certificate));
    }
}

/// What follows on a packet that was, or was not, queued.
proof fn lemma_after_queue(then: Then, queued: bool)
    ensures
        weight(plan::after_queue(then, queued)) <= 6,
        sharing(plan::after_queue(then, queued)) == 0,
{
    reveal_with_fuel(weight_of_first, 3);
    reveal_with_fuel(sharing_of_first, 3);
}

/// What follows on a packet that was refused.
proof fn lemma_after_refusal(id: DeviceId, then: Then)
    ensures
        weight(plan::after_refusal(id, then)) <= 17,
        sharing(plan::after_refusal(id, then)) == 0,
{
    let drop = seq![
        Op::Drop(id, AfterDrop::Nothing),
        Op::Do(Action::StopSystemVolume(id)),
        plan::lookup(id),
        Op::BroadcastIfPaired(id),
        Op::Publish(ConnectionEvent::Disconnected(id)),
    ];
    lemma_after_queue(then, false);
    lemma_concat(drop, plan::after_queue(then, false));
    assert(weight(drop) == 11 && sharing(drop) == 0) by {
        reveal_with_fuel(weight_of_first, 6);
        reveal_with_fuel(sharing_of_first, 6);
    }
}

/// What follows on a dropped connection.
proof fn lemma_after_drop(id: DeviceId, after: AfterDrop)
    ensures
        weight(plan::after_drop(id, after)) <= 5,
        sharing(plan::after_drop(id, after)) == 0,
{
    reveal_with_fuel(weight_of_first, 5);
    reveal_with_fuel(sharing_of_first, 5);
}

/// What a greeting may lead to.
proof fn lemma_greeting(id: DeviceId, greeting: Greeting)
    ensures
        weight(greeting::greeting_ops(id, greeting)) <= 20,
        sharing(greeting::greeting_ops(id, greeting)) == 0,
{
    reveal_with_fuel(weight_of_first, 3);
    reveal_with_fuel(sharing_of_first, 3);
}

/// What a packet of a stranger may lead to.
proof fn lemma_reject_unpaired(id: DeviceId)
    ensures
        weight(network::reject_unpaired(id)) == 26,
        sharing(network::reject_unpaired(id)) == 0,
{
    reveal_with_fuel(weight_of_first, 7);
    reveal_with_fuel(sharing_of_first, 7);
}

/// What a pair packet may lead to.
proof fn lemma_pair_received(
    id: DeviceId,
    pair: Pair,
    packet: ProtocolPacket,
    found: Option<Device>,
)
    ensures
        weight(network::pair_received(id, pair, packet, found)) <= 9,
        sharing(network::pair_received(id, pair, packet, found)) == 0,
{
    reveal_with_fuel(weight_of_first, 5);
    reveal_with_fuel(sharing_of_first, 5);
}

/// What decisions about pairing may lead to.
proof fn lemma_pairing(id: DeviceId, found: Option<Device>, phone_ts: u64, now: u64)
    ensures
        weight(user::pair_wanted(id, found)) <= 23,
        sharing(user::pair_wanted(id, found)) == 0,
        weight(user::ask_to_pair(id, now)) <= 20,
        sharing(user::ask_to_pair(id, now)) == 0,
        weight(user::accept_pairing(id, found)) <= 23,
        sharing(user::accept_pairing(id, found)) == 0,
        weight(user::accept_in_time(id, phone_ts, now)) <= 21,
        sharing(user::accept_in_time(id, phone_ts, now)) == 0,
        weight(user::refuse_pairing(id, found)) <= 20,
        sharing(user::refuse_pairing(id, found)) == 0,
        weight(plan::fail_pairing(id, found)) <= 3,
        sharing(plan::fail_pairing(id, found)) == 0,
{
    reveal_with_fuel(weight_of_first, 4);
    reveal_with_fuel(sharing_of_first, 4);
}

/// What an unanswered request may lead to.
proof fn lemma_timeouts(id: DeviceId, sent_at_once: bool, found: Option<Device>)
    ensures
        weight(job::incoming_timeout(id, found)) <= 3,
        sharing(job::incoming_timeout(id, found)) == 0,
        weight(job::final_timeout(id, sent_at_once, found)) <= 4,
        sharing(job::final_timeout(id, sent_at_once, found)) == 0,
{
    reveal_with_fuel(weight_of_first, 5);
    reveal_with_fuel(sharing_of_first, 5);
}

/// A decision outweighs what it comes to.
proof fn lemma_decision(op: Op, reply: Reply)
    requires
        state::is_decision(op),
    ensures
        sharing(state::decision(op, reply)) == 0,
        op_sharing(op) == 0 ==> weight(state::decision(op, reply)) < op_weight(op),
{
    reveal_with_fuel(weight_of_first, 3);
    reveal_with_fuel(sharing_of_first, 3);
    match (op, reply) {
        (Op::Share(sender), Reply::Shares(Some(files))) => {
            lemma_share_files(sender, files@);
        },
        (Op::Admit(arrival), Reply::Discovered(found)) => {
            lemma_admitted(arrival, found);
        },
        (Op::Settle(arrival), Reply::Saved(device)) => {
            lemma_settle(arrival, device);
        },
        (Op::PacketReceived(id, _), Reply::Device(_)) => {
            lemma_reject_unpaired(id);
        },
        (Op::PairReceived(id, pair, packet), Reply::Device(found)) => {
            lemma_pair_received(id, pair, packet, found);
        },
        (Op::PairWanted(id), Reply::Device(found)) => {
            lemma_pairing(id, found, 0, 0);
        },
        (Op::AskToPair(id), Reply::Time(now)) => {
            lemma_pairing(id, None, 0, now);
        },
        (Op::Accept(id), Reply::Device(found)) => {
            lemma_pairing(id, found, 0, 0);
        },
        (Op::AcceptInTime(id, phone_ts), Reply::Time(now)) => {
            lemma_pairing(id, None, phone_ts, now);
        },
        (Op::Refuse(id), Reply::Device(found)) => {
            lemma_pairing(id, found, 0, 0);
        },
        (Op::FailPairing(id), Reply::Device(found)) => {
            lemma_pairing(id, found, 0, 0);
        },
        (Op::IncomingTimeout(id), Reply::Device(found)) => {
            lemma_timeouts(id, true, found);
        },
        (Op::FinalTimeout(id, sent_at_once), Reply::Device(found)) => {
            lemma_timeouts(id, sent_at_once, found);
        },
        _ => {},
    }
}

/// An operation outweighs what it puts before the rest, unless it is one of those steps.
proof fn lemma_put_before(s: CoreState, op: Op, reply: Reply, accepted: bool)
    ensures
        op_sharing(op) == 0 ==> {
            &&& sharing(state::put_before(s, op, reply, accepted)) == 0
            &&& weight(state::put_before(s, op, reply, accepted)) < op_weight(op)
        },
        op_sharing(op) > 0 ==> sharing(state::put_before(s, op, reply, accepted)) < op_sharing(op),
{
    if state::is_decision(op) {
        lemma_decision(op, reply);
    } else {
        reveal_with_fuel(weight_of_first, 3);
        reveal_with_fuel(sharing_of_first, 3);
        match op {
            Op::Greet(id, greeting) => {
                lemma_greeting(id, greeting);
            },
            Op::Offer(id, packet, then) => {
                lemma_after_queue(then, true);
                lemma_after_queue(then, false);
                lemma_after_refusal(id, then);
            },
            Op::Drop(id, after) => {
                lemma_after_drop(id, after);
            },
            Op::DropIfCurrent(id, _, after) => {
                lemma_after_drop(id, after);
            },
            _ => {},
        }
    }
}

/// Every task comes to an end. With every step that is given the answer it takes, the task has
/// fewer steps left until it is known which files to share, or as many and less other work. Neither
/// measure falls for ever.
pub proof fn law_every_task_ends(
    s: CoreState,
    ops: Seq<Op>,
    reply: Reply,
    next: CoreState,
    remaining: Seq<Op>,
    step: Step,
)
    requires
        ops.len() > 0,
        crate::task::fits(ops[0].wants(), reply),
        state::steps(s, ops, reply, next, remaining, step),
    ensures
        sharing(remaining) < sharing(ops) || (sharing(remaining) == sharing(ops) && weight(
            remaining,
        ) < weight(ops)),
{
    let op = ops[0];
    let rest = ops.drop_first();
    assert(ops =~= seq![op] + rest);
    lemma_concat(seq![op], rest);
    assert(weight(seq![op]) == op_weight(op) && sharing(seq![op]) == op_sharing(op)) by {
        reveal_with_fuel(weight_of_first, 2);
        reveal_with_fuel(sharing_of_first, 2);
    }
    let put = state::put_before(s, op, reply, state::was_accepted(step));
    lemma_put_before(s, op, reply, state::was_accepted(step));
    lemma_concat(put, rest);
    match (op, reply) {
        (Op::Toggle(id, plugin, enabled), Reply::Disabled(stored)) => {
            let set = choose|set: Arc<PluginSet>|
                (*set)@ == user::toggled(stored@, plugin@, enabled) && remaining
                    == #[trigger] user::apply_disabled(id, set) + rest;
            lemma_concat(user::apply_disabled(id, set), rest);
            reveal_with_fuel(weight_of_first, 4);
            reveal_with_fuel(sharing_of_first, 4);
        },
        _ => {},
    }
}

} // verus!
