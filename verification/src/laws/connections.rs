//! Connections: every device has at most one, and none ends unnoticed or by mistake.
use tokio::sync::mpsc::UnboundedSender;
use tokio::sync::watch;
use vstd::prelude::*;

use crate::connection;
use crate::connection::{ConnectionHandle, Link};
use crate::device::DeviceId;
use crate::event::TransportEvent;
use crate::laws::isolation;
use crate::plan::network;
use crate::protocol::ProtocolPacket;
use crate::state;
use crate::state::CoreState;
use crate::task::{AfterDrop, Op, Reply, Step};

verus! {

/// Whether no connection in use was ever told to shut down.
pub open spec fn live(s: CoreState) -> bool {
    forall|device: Seq<char>| #[trigger]
        s.writers.contains_key(device) ==> !s.writers[device].told()
}

/// At the start no device has a connection, nor the number of one.
pub proof fn law_a_new_core_is_in_sync(s: CoreState, disabled: Map<Seq<char>, Set<Seq<char>>>)
    requires
        s.is_new(disabled),
    ensures
        s.in_sync(),
        live(s),
{
    assert(s.writers.dom() =~= s.conn_ids.dom());
}

/// Whatever step is taken, a device has a connection exactly if it has the number of one.
pub proof fn law_connections_stay_in_sync(
    s: CoreState,
    ops: Seq<Op>,
    reply: Reply,
    next: CoreState,
    remaining: Seq<Op>,
    step: Step,
)
    requires
        s.in_sync(),
        state::steps(s, ops, reply, next, remaining, step),
    ensures
        next.in_sync(),
{
    assert forall|device: Seq<char>| #[trigger]
        s.writers.dom().contains(device) == s.conn_ids.dom().contains(device) by {}
    assert(next.writers.dom() =~= next.conn_ids.dom());
}

/// A connection in use was never told to shut down, whatever steps are taken, as long as every
/// connection is untold when it is installed.
pub proof fn law_connections_in_use_are_untold(
    s: CoreState,
    ops: Seq<Op>,
    reply: Reply,
    next: CoreState,
    remaining: Seq<Op>,
    step: Step,
)
    requires
        live(s),
        ops.len() > 0 ==> (ops[0] matches Op::Install(_, _, handle) ==> !handle@.told()),
        state::steps(s, ops, reply, next, remaining, step),
    ensures
        live(next),
{
    assert forall|device: Seq<char>| #[trigger]
        next.writers.contains_key(device) implies !next.writers[device].told() by {
        assert(s.writers.contains_key(device) || ops[0] is Install);
    }
}

/// Whether the connection of each device goes with the number that the device has, by some account
/// of which number goes with which channels.
pub open spec fn matched(
    s: CoreState,
    goes_with: spec_fn(u64, UnboundedSender<ProtocolPacket>, watch::Sender<bool>) -> bool,
) -> bool {
    forall|device: Seq<char>| #[trigger]
        s.writers.contains_key(device) ==> s.conn_ids.contains_key(device) && goes_with(
            s.conn_ids[device],
            s.writers[device].writes.channel,
            s.writers[device].shutdown.channel,
        )
}

/// A device never has the connection of one arrival and the number of another: if every connection
/// is installed with the number that goes with it, each device has a connection and a number that
/// go together, whatever steps are taken.
pub proof fn law_connection_and_number_go_together(
    s: CoreState,
    ops: Seq<Op>,
    reply: Reply,
    next: CoreState,
    remaining: Seq<Op>,
    step: Step,
    goes_with: spec_fn(u64, UnboundedSender<ProtocolPacket>, watch::Sender<bool>) -> bool,
)
    requires
        matched(s, goes_with),
        ops.len() > 0 ==> (ops[0] matches Op::Install(_, conn_id, handle) ==> goes_with(
            conn_id,
            handle@.writes.channel,
            handle@.shutdown.channel,
        )),
        state::steps(s, ops, reply, next, remaining, step),
    ensures
        matched(next, goes_with),
{
    assert forall|device: Seq<char>| #[trigger]
        next.writers.contains_key(device) implies next.conn_ids.contains_key(device) && goes_with(
        next.conn_ids[device],
        next.writers[device].writes.channel,
        next.writers[device].shutdown.channel,
    ) by {
        assert(s.writers.contains_key(device) || ops[0] is Install);
    }
}

/// No connection is forgotten or replaced without being told to shut down, once, in the same step.
pub proof fn law_no_connection_is_lost_untold(
    s: CoreState,
    ops: Seq<Op>,
    reply: Reply,
    next: CoreState,
    remaining: Seq<Op>,
    step: Step,
    device: Seq<char>,
)
    requires
        state::steps(s, ops, reply, next, remaining, step),
        s.writers.contains_key(device),
        !next.writers.contains_key(device) || next.writers[device].shutdown
            != s.writers[device].shutdown,
    ensures
        step matches Step::Closed(handle) && handle@ == s.writers[device].shut(),
{
}

/// Only the connection that was dropped or replaced in a step is told to shut down. The accounts of
/// all connections in use after the step show no new signal; one that was just installed has the
/// account that it came with.
pub proof fn law_only_the_former_connection_is_told(
    s: CoreState,
    ops: Seq<Op>,
    reply: Reply,
    next: CoreState,
    remaining: Seq<Op>,
    step: Step,
    device: Seq<char>,
)
    requires
        state::steps(s, ops, reply, next, remaining, step),
        next.writers.contains_key(device),
    ensures
        ({
            ||| s.writers.contains_key(device) && next.writers[device].shutdown
                == s.writers[device].shutdown
            ||| ops.len() > 0 && (ops[0] matches Op::Install(id, _, handle) && id@ == device
                && next.writers[device] == handle@)
        }),
{
}

/// What a step closes is a connection that a device had, and that it has no more.
pub proof fn law_a_closed_connection_was_in_use(
    s: CoreState,
    ops: Seq<Op>,
    reply: Reply,
    next: CoreState,
    remaining: Seq<Op>,
    step: Step,
)
    requires
        state::steps(s, ops, reply, next, remaining, step),
        step is Closed,
    ensures
        exists|id: DeviceId|
            {
                &&& s.writers.contains_key(#[trigger] id@)
                &&& step->Closed_0@ == s.writers[id@].shut()
                &&& !next.writers.contains_key(id@) || (ops[0] matches Op::Install(by, _, handle)
                    && by == id && next.writers[id@] == handle@)
            },
{
    match ops[0] {
        Op::Install(id, _, _) => {
            assert(s.writers.contains_key(id@));
        },
        Op::Drop(id, _) => {
            assert(s.writers.contains_key(id@));
        },
        Op::DropIfCurrent(id, _, _) => {
            assert(s.writers.contains_key(id@));
        },
        _ => {},
    }
}

/// A step that shows nothing, or only asks for something, sends nothing: not to the core, not to
/// the user, not to the media player bridge, and not to any connection, neither packets nor
/// signals.
pub proof fn law_silent_steps_send_nothing(
    s: CoreState,
    ops: Seq<Op>,
    reply: Reply,
    next: CoreState,
    remaining: Seq<Op>,
    step: Step,
    device: Seq<char>,
)
    requires
        state::steps(s, ops, reply, next, remaining, step),
        step is Idle || step is Act || step is WrongReply || step is Finished,
    ensures
        next.events.sent == s.events.sent,
        next.user.sent == s.user.sent,
        next.bridge.sent == s.bridge.sent,
        s.writers.contains_key(device) ==> {
            &&& next.writers.contains_key(device)
            &&& next.writers[device].writes.sent == s.writers[device].writes.sent
            &&& next.writers[device].shutdown == s.writers[device].shutdown
        },
        !(step is Act) ==> {
            &&& next.events == s.events
            &&& next.user == s.user
            &&& next.bridge == s.bridge
            &&& s.writers.contains_key(device) ==> next.writers[device] == s.writers[device]
        },
{
}

/// The connection installed last is the current one, and the only one.
pub proof fn law_the_latest_connection_is_current(
    s: CoreState,
    reply: Reply,
    id: DeviceId,
    conn_id: u64,
    handle: ConnectionHandle,
    other: u64,
)
    ensures
        ({
            let next = state::next_state(s, Op::Install(id, conn_id, handle), reply);
            &&& next.writers.contains_key(id@) && next.writers[id@] == handle@
            &&& connection::is_current(next.conn_ids, id@, other) == (other == conn_id)
        }),
{
}

/// The state after connections were installed for a device, one after the other.
pub open spec fn after_installs(
    s: CoreState,
    id: DeviceId,
    arrivals: Seq<(u64, ConnectionHandle)>,
) -> CoreState
    decreases arrivals.len(),
{
    if arrivals.len() == 0 {
        s
    } else {
        state::next_state(
            after_installs(s, id, arrivals.drop_last()),
            Op::Install(id, arrivals.last().0, arrivals.last().1),
            Reply::Done,
        )
    }
}

/// The connections that were told to shut down meanwhile, in order.
pub open spec fn closed_by_installs(
    s: CoreState,
    id: DeviceId,
    arrivals: Seq<(u64, ConnectionHandle)>,
) -> Seq<Link>
    decreases arrivals.len(),
{
    if arrivals.len() == 0 {
        seq![]
    } else {
        let before = after_installs(s, id, arrivals.drop_last());
        let closed = closed_by_installs(s, id, arrivals.drop_last());
        if before.writers.contains_key(id@) {
            closed.push(before.writers[id@].shut())
        } else {
            closed
        }
    }
}

/// However many connections of a device arrive, in whatever order: the device has the handle and
/// the number of the last, and all others were told to shut down, once each, as was the connection
/// it had before; nothing else changes.
pub proof fn law_of_many_arrivals_one_stays(
    s: CoreState,
    id: DeviceId,
    arrivals: Seq<(u64, ConnectionHandle)>,
)
    requires
        arrivals.len() > 0,
    ensures
        ({
            let next = after_installs(s, id, arrivals);
            let closed = closed_by_installs(s, id, arrivals);
            let former = if s.writers.contains_key(id@) {
                seq![s.writers[id@].shut()]
            } else {
                Seq::<Link>::empty()
            };
            &&& next == (CoreState {
                writers: s.writers.insert(id@, arrivals.last().1@),
                conn_ids: s.conn_ids.insert(id@, arrivals.last().0),
                ..s
            })
            &&& closed == former + Seq::new(
                (arrivals.len() - 1) as nat,
                |i: int| arrivals[i].1@.shut(),
            )
        }),
    decreases arrivals.len(),
{
    let rest = arrivals.drop_last();
    let next = after_installs(s, id, arrivals);
    let closed = closed_by_installs(s, id, arrivals);
    let former = if s.writers.contains_key(id@) {
        seq![s.writers[id@].shut()]
    } else {
        Seq::<Link>::empty()
    };
    if rest.len() > 0 {
        law_of_many_arrivals_one_stays(s, id, rest);
        assert(closed =~= former + Seq::new(
            (arrivals.len() - 1) as nat,
            |i: int| arrivals[i].1@.shut(),
        ));
    } else {
        assert(after_installs(s, id, rest) == s);
        assert(closed_by_installs(s, id, rest) =~= Seq::<Link>::empty());
        assert(closed =~= former + Seq::new(
            (arrivals.len() - 1) as nat,
            |i: int| arrivals[i].1@.shut(),
        ));
    }
    assert(next =~= CoreState {
        writers: s.writers.insert(id@, arrivals.last().1@),
        conn_ids: s.conn_ids.insert(id@, arrivals.last().0),
        ..s
    });
}

/// Dropping the connection of a device that had none before undoes its installation, and dropping
/// once more changes nothing and closes nothing.
pub proof fn law_a_drop_undoes_an_installation(
    s: CoreState,
    reply: Reply,
    id: DeviceId,
    conn_id: u64,
    handle: ConnectionHandle,
    after: AfterDrop,
)
    requires
        !s.writers.contains_key(id@),
        !s.conn_ids.contains_key(id@),
    ensures
        ({
            let installed = state::next_state(s, Op::Install(id, conn_id, handle), reply);
            let dropped = state::next_state(installed, Op::Drop(id, after), reply);
            &&& state::drops(installed, Op::Drop(id, after))
            &&& dropped == s
            &&& !state::drops(dropped, Op::Drop(id, after))
            &&& state::next_state(dropped, Op::Drop(id, after), reply) == dropped
        }),
{
    let installed = state::next_state(s, Op::Install(id, conn_id, handle), reply);
    let dropped = state::next_state(installed, Op::Drop(id, after), reply);
    assert(dropped =~= s);
    assert(state::next_state(dropped, Op::Drop(id, after), reply) =~= dropped);
}

/// Dropping the current connection by its number is dropping it.
pub proof fn law_the_current_connection_is_dropped_either_way(
    s: CoreState,
    reply: Reply,
    accepted: bool,
    step: Step,
    id: DeviceId,
    conn_id: u64,
    after: AfterDrop,
)
    requires
        connection::is_current(s.conn_ids, id@, conn_id),
    ensures
        ({
            let plain = Op::Drop(id, after);
            let by_number = Op::DropIfCurrent(id, conn_id, after);
            &&& state::next_state(s, by_number, reply) == state::next_state(s, plain, reply)
            &&& state::put_before(s, by_number, reply, accepted) == state::put_before(
                s,
                plain,
                reply,
                accepted,
            )
            &&& state::shows(s, by_number, reply, step) == state::shows(s, plain, reply, step)
            &&& !connection::is_current(
                state::next_state(s, by_number, reply).conn_ids,
                id@,
                conn_id,
            )
        }),
{
}

/// Dropping a connection that was replaced, or that is none of this device, changes nothing, tells
/// no connection anything and leads to nothing.
pub proof fn law_a_stale_drop_does_nothing(
    s: CoreState,
    rest: Seq<Op>,
    reply: Reply,
    next: CoreState,
    remaining: Seq<Op>,
    step: Step,
    id: DeviceId,
    conn_id: u64,
    after: AfterDrop,
)
    requires
        !connection::is_current(s.conn_ids, id@, conn_id),
        state::steps(
            s,
            seq![Op::DropIfCurrent(id, conn_id, after)] + rest,
            reply,
            next,
            remaining,
            step,
        ),
    ensures
        next == s,
        remaining == rest,
        step is Idle,
{
    let ops = seq![Op::DropIfCurrent(id, conn_id, after)] + rest;
    assert(ops.drop_first() =~= rest);
    assert(Seq::<Op>::empty() + rest =~= rest);
}

/// After a drop the device has no connection.
pub proof fn law_a_drop_leaves_no_connection(
    s: CoreState,
    reply: Reply,
    id: DeviceId,
    after: AfterDrop,
)
    ensures
        !state::next_state(s, Op::Drop(id, after), reply).writers.contains_key(id@),
        !state::next_state(s, Op::Drop(id, after), reply).conn_ids.contains_key(id@),
{
}

/// A task about a device that has no connection writes no packet to anyone.
pub proof fn law_no_packet_goes_without_a_connection(
    s: CoreState,
    ops: Seq<Op>,
    reply: Reply,
    next: CoreState,
    remaining: Seq<Op>,
    step: Step,
    device: Seq<char>,
    other: Seq<char>,
)
    requires
        !s.writers.contains_key(device),
        isolation::task_about(ops, device),
        state::steps(s, ops, reply, next, remaining, step),
    ensures
        !(step is Offered),
        s.writers.contains_key(other) ==> next.writers.contains_key(other)
            && next.writers[other] == s.writers[other],
{
    if ops.len() > 0 {
        assert(isolation::op_about(ops[0], device));
    }
    if other != device {
        isolation::law_a_task_keeps_to_its_device(s, ops, reply, next, remaining, step, device);
        assert(isolation::agree(s, next, other));
    }
}

/// Events of a connection that is not, or no longer, the current one of its device lead to
/// nothing.
pub proof fn law_stale_events_are_ignored(
    conn_ids: Map<Seq<char>, u64>,
    event: TransportEvent,
    ops: Seq<Op>,
)
    requires
        network::transport_plan(conn_ids, event, ops),
        match event {
            TransportEvent::IncomingPacket { id, via, .. } => !connection::is_current(
                conn_ids,
                id@,
                network::claimed(via),
            ),
            TransportEvent::Disconnected { id, conn_id } => !connection::is_current(
                conn_ids,
                id@,
                conn_id,
            ),
            TransportEvent::PacketSendFailed { id, conn_id, .. } => !connection::is_current(
                conn_ids,
                id@,
                conn_id,
            ),
            _ => false,
        },
    ensures
        ops.len() == 0,
{
}

} // verus!
