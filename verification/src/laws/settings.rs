//! Which plugins are switched off, through whole runs of a task.
use vstd::prelude::*;

use crate::device::{Device, PairState};
use crate::event::ConnectionEvent;
use crate::laws::lemma_remaining_origin;
use crate::plan::network;
use crate::plan::user;
use crate::plugin_interface;
use crate::state;
use crate::state::CoreState;
use crate::task::{Action, Arrival, Discovery, Op, Reply, Step};

verus! {

/// One step of a run: the answer it was given, and what it came to.
pub struct Moment {
    pub reply: Reply,
    pub state: CoreState,
    pub remaining: Seq<Op>,
    pub step: Step,
}

/// Whether these are steps of a task, one right after the other, each given the answer it takes.
pub open spec fn runs(s: CoreState, ops: Seq<Op>, trace: Seq<Moment>) -> bool
    decreases trace.len(),
{
    trace.len() > 0 ==> {
        &&& ops.len() > 0
        &&& crate::task::fits(ops[0].wants(), trace[0].reply)
        &&& state::steps(
            s,
            ops,
            trace[0].reply,
            trace[0].state,
            trace[0].remaining,
            trace[0].step,
        )
        &&& runs(trace[0].state, trace[0].remaining, trace.drop_first())
    }
}

/// The state at the end of a run.
pub open spec fn final_state(s: CoreState, trace: Seq<Moment>) -> CoreState {
    if trace.len() == 0 {
        s
    } else {
        trace.last().state
    }
}

/// The operations that remain at the end of a run.
pub open spec fn final_ops(ops: Seq<Op>, trace: Seq<Moment>) -> Seq<Op> {
    if trace.len() == 0 {
        ops
    } else {
        trace.last().remaining
    }
}

/// Whether neither an operation, nor anything it gives rise to, switches plugins.
pub open spec fn leaves_settings(op: Op) -> bool {
    match op {
        Op::SetDisabled(..)
        | Op::RestoreDisabled(..)
        | Op::Toggle(..)
        | Op::Admit(..)
        | Op::Settle(..) => false,
        _ => true,
    }
}

/// Whether no operation of a task switches plugins.
pub open spec fn all_leave_settings(ops: Seq<Op>) -> bool {
    forall|i: int| 0 <= i < ops.len() ==> leaves_settings(#[trigger] ops[i])
}

/// What such an operation puts before the rest switches no plugin either.
proof fn lemma_put_before_leaves_settings(s: CoreState, op: Op, reply: Reply, accepted: bool)
    requires
        leaves_settings(op),
    ensures
        all_leave_settings(state::put_before(s, op, reply, accepted)),
{
    match (op, reply) {
        (Op::Share(sender), Reply::Shares(Some(files))) => {
            user::lemma_share_files(sender, files@);
        },
        _ => {},
    }
}

/// A task none of whose operations switches plugins leaves all settings as they are, through
/// whatever it gives rise to.
pub proof fn law_settings_stay_unless_switched(s: CoreState, ops: Seq<Op>, trace: Seq<Moment>)
    requires
        all_leave_settings(ops),
        runs(s, ops, trace),
    ensures
        final_state(s, trace).disabled == s.disabled,
    decreases trace.len(),
{
    if trace.len() > 0 {
        let m = trace[0];
        assert(leaves_settings(ops[0]));
        lemma_put_before_leaves_settings(s, ops[0], m.reply, state::was_accepted(m.step));
        assert forall|i: int| 0 <= i < m.remaining.len() implies leaves_settings(
            #[trigger] m.remaining[i],
        ) by {
            lemma_remaining_origin(s, ops, m.reply, m.state, m.remaining, m.step, i);
        }
        law_settings_stay_unless_switched(m.state, m.remaining, trace.drop_first());
        if trace.len() > 1 {
            assert(trace.drop_first().last() == trace.last());
        }
    }
}

/// Whether operations lead to no others.
spec fn plain(ops: Seq<Op>) -> bool {
    forall|i: int| 0 <= i < ops.len() ==> (#[trigger] ops[i]) is Do || ops[i] is Install
}

/// A run that ends goes through operations that lead to no others one by one.
proof fn lemma_through_plain(s: CoreState, head: Seq<Op>, tail: Seq<Op>, trace: Seq<Moment>)
    requires
        plain(head),
        tail.len() > 0,
        runs(s, head + tail, trace),
        final_ops(head + tail, trace).len() == 0,
    ensures
        trace.len() > head.len(),
        runs(
            final_state(s, trace.take(head.len() as int)),
            tail,
            trace.skip(head.len() as int),
        ),
    decreases head.len(),
{
    let ops = head + tail;
    assert(trace.len() > 0);
    if head.len() == 0 {
        assert(ops =~= tail);
        assert(trace.skip(0) =~= trace);
        assert(trace.take(0).len() == 0);
    } else {
        let m = trace[0];
        let rest = trace.drop_first();
        let left = head.drop_first();
        assert(ops[0] == head[0]);
        assert(head[0] is Do || head[0] is Install);
        assert(ops.drop_first() =~= left + tail);
        assert(m.remaining =~= left + tail);
        assert forall|i: int| 0 <= i < left.len() implies (#[trigger] left[i]) is Do || left[i]
            is Install by {
            assert(left[i] == head[i + 1]);
        }
        if rest.len() > 0 {
            assert(rest.last() == trace.last());
        }
        lemma_through_plain(m.state, left, tail, rest);
        assert(rest.skip(left.len() as int) =~= trace.skip(head.len() as int));
        let before = trace.take(head.len() as int);
        let before_rest = rest.take(left.len() as int);
        assert(final_state(m.state, before_rest) == final_state(s, before)) by {
            if left.len() > 0 {
                assert(before_rest.last() == before.last());
            } else {
                assert(before.last() == m);
            }
        }
    }
}

/// Whether exactly these plugins are switched off for a device.
pub open spec fn in_force(s: CoreState, device: Seq<char>, off: Set<Seq<char>>) -> bool {
    forall|plugin: Seq<char>| #[trigger]
        plugin_interface::enabled(s.disabled, device, plugin) == !off.contains(plugin)
}

/// When a connection is let in, the plugins that are stored as switched off for its device are put
/// in force before the task ends: every other plugin is on, whatever was in force before.
pub proof fn law_stored_settings_are_in_force_once_connected(
    s: CoreState,
    arrival: Arrival,
    device: Device,
    trace: Seq<Moment>,
)
    requires
        runs(s, network::settle(arrival, device), trace),
        final_ops(network::settle(arrival, device), trace).len() == 0,
    ensures
        ({
            let at: int = if arrival.pairing_timestamp > 0 {
                5
            } else {
                4
            };
            &&& at < trace.len()
            &&& trace[at].reply matches Reply::Disabled(stored)
            &&& in_force(final_state(s, trace), arrival.id@, stored@)
        }),
{
    let id = arrival.id;
    let record = seq![
        Op::Do(Action::AddOrUpdateDevice(id, device)),
        Op::Do(Action::SetProtocolVersion(id, arrival.protocol_version)),
    ];
    let timestamp = if arrival.pairing_timestamp > 0 {
        seq![Op::Do(Action::SetPairingTimestamp(id, arrival.pairing_timestamp))]
    } else {
        seq![]
    };
    let greetings = if device.pair_state == PairState::Paired {
        network::welcome(id)
    } else {
        seq![]
    };
    let head = record + timestamp + seq![
        Op::Install(id, arrival.conn_id, arrival.handle),
        Op::Do(Action::LoadDisabled(id)),
    ];
    let after = greetings + seq![Op::Publish(ConnectionEvent::Connected((id, device)))];
    let tail = seq![Op::RestoreDisabled(id)] + after;
    assert(network::settle(arrival, device) =~= head + tail);
    lemma_through_plain(s, head, tail, trace);
    let at = head.len() as int;
    let rest = trace.skip(at);
    let m = rest[0];
    assert(m == trace[at]);
    assert(tail[0] == Op::RestoreDisabled(id));
    assert(tail.drop_first() =~= after);
    assert(m.remaining =~= after);
    assert(all_leave_settings(after));
    law_settings_stay_unless_switched(m.state, after, rest.drop_first());
    if rest.len() > 1 {
        assert(rest.drop_first().last() == trace.last());
    } else {
        assert(trace.last() == m);
    }
}

/// Whether the settings of a device are those that were read back in some step of a run.
pub open spec fn restored_in(
    s: CoreState,
    device: Seq<char>,
    trace: Seq<Moment>,
) -> bool {
    exists|at: int|
        {
            &&& 0 <= at < trace.len()
            &&& (#[trigger] trace[at]).reply matches Reply::Disabled(stored)
            &&& in_force(final_state(s, trace), device, stored@)
        }
}

/// A run whose end restored the settings restored them.
proof fn lemma_restored_later(
    s: CoreState,
    later: CoreState,
    device: Seq<char>,
    trace: Seq<Moment>,
    from: int,
)
    requires
        0 <= from < trace.len(),
        restored_in(later, device, trace.skip(from)),
    ensures
        restored_in(s, device, trace),
{
    let rest = trace.skip(from);
    let at = choose|at: int|
        {
            &&& 0 <= at < rest.len()
            &&& (#[trigger] rest[at]).reply matches Reply::Disabled(stored)
            &&& in_force(final_state(later, rest), device, stored@)
        };
    assert(rest.last() == trace.last());
    assert(trace[from + at] == rest[at]);
}

/// Once a connection has arrived and was let in, and its task has run to the end, exactly those
/// plugins are off for the device that were read back as switched off.
pub proof fn law_arrivals_put_stored_settings_in_force(
    s: CoreState,
    arrival: Arrival,
    discovery: Discovery,
    found: Option<Device>,
    trace: Seq<Moment>,
)
    requires
        runs(s, seq![Op::Do(Action::Discover(discovery)), Op::Admit(arrival)], trace),
        final_ops(seq![Op::Do(Action::Discover(discovery)), Op::Admit(arrival)], trace).len() == 0,
        trace.len() > 1,
        trace[1].reply == Reply::Discovered(found),
        crate::laws::pairing::lets_in(network::admitted(arrival, found)),
    ensures
        restored_in(s, arrival.id@, trace),
{
    let head = seq![Op::Do(Action::Discover(discovery))];
    let tail = seq![Op::Admit(arrival)];
    assert(seq![Op::Do(Action::Discover(discovery)), Op::Admit(arrival)] =~= head + tail);
    lemma_through_plain(s, head, tail, trace);
    let rest = trace.skip(1);
    let m = rest[0];
    assert(m == trace[1]);
    assert(tail[0] == Op::Admit(arrival));
    let then = network::admitted(arrival, found);
    assert(m.remaining =~= then);
    assert(rest.drop_first() =~= trace.skip(2));
    assert(then.len() > 0);
    assert(trace.len() > 2);
    assert(trace.skip(2).last() == trace.last());
    let device = found->0;
    let let_in = network::with_certificate(device, arrival.peer_certificate);
    if then == network::settle(arrival, let_in) {
        law_stored_settings_are_in_force_once_connected(
            m.state,
            arrival,
            let_in,
            trace.skip(2),
        );
        lemma_restored_later(s, m.state, arrival.id@, trace, 2);
    } else {
        let save = seq![Op::Do(Action::SavePairState(let_in, PairState::Paired))];
        let settling = seq![Op::Settle(arrival)];
        assert(then =~= save + settling);
        lemma_through_plain(m.state, save, settling, trace.skip(2));
        let settled = trace.skip(2).skip(1);
        assert(settled =~= trace.skip(3));
        let saved = settled[0].reply->Saved_0;
        assert(settling[0] == Op::Settle(arrival));
        assert(settled[0].remaining =~= network::settle(arrival, saved));
        assert(settled.drop_first() =~= trace.skip(4));
        assert(network::settle(arrival, saved).len() > 0);
        assert(trace.len() > 4);
        assert(trace.skip(4).last() == trace.last());
        law_stored_settings_are_in_force_once_connected(
            settled[0].state,
            arrival,
            saved,
            trace.skip(4),
        );
        lemma_restored_later(s, settled[0].state, arrival.id@, trace, 4);
    }
}

} // verus!
