//! What comes of an event in the end, through whole runs of its task.
use vstd::prelude::*;

use crate::channel::Flow;
use crate::connection::Link;
use crate::device::{Device, DeviceId, PairState};
use crate::event::{AppEvent, ConnectionEvent, CoreEvent, TransportEvent};
use crate::laws::events;
use crate::laws::operations;
use crate::laws::settings;
use crate::laws::settings::Moment;
use crate::plan::network;
use crate::plan::request;
use crate::plan::user;
use crate::protocol::{MprisRequest, PacketBody, PacketType, ProtocolPacket};
use crate::state;
use crate::state::CoreState;
use crate::task::{Action, Arrival, Greeting, Op, Reply, Step, Then};

verus! {

/// Whether these are the steps of a task from its first operation to its last.
pub open spec fn completes(s: CoreState, ops: Seq<Op>, trace: Seq<Moment>) -> bool {
    settings::runs(s, ops, trace) && settings::final_ops(ops, trace).len() == 0
}

/// The state before a step of a run.
pub open spec fn state_at(s: CoreState, trace: Seq<Moment>, i: int) -> CoreState {
    if i <= 0 {
        s
    } else {
        trace[i - 1].state
    }
}

/// The operations to come before a step of a run.
pub open spec fn ops_at(ops: Seq<Op>, trace: Seq<Moment>, i: int) -> Seq<Op> {
    if i <= 0 {
        ops
    } else {
        trace[i - 1].remaining
    }
}

/// A run goes on step by step as long as operations are to come.
pub(crate) proof fn lemma_moment(s: CoreState, ops: Seq<Op>, trace: Seq<Moment>, i: int)
    requires
        completes(s, ops, trace),
        0 <= i <= trace.len(),
    ensures
        i < trace.len() <==> ops_at(ops, trace, i).len() > 0,
        i < trace.len() ==> crate::task::fits(
            ops_at(ops, trace, i)[0].wants(),
            trace[i].reply,
        ) && state::steps(
            state_at(s, trace, i),
            ops_at(ops, trace, i),
            trace[i].reply,
            trace[i].state,
            trace[i].remaining,
            trace[i].step,
        ),
    decreases i,
{
    if i > 0 {
        let m = trace[0];
        let later = trace.drop_first();
        if later.len() > 0 {
            assert(later.last() == trace.last());
        } else {
            assert(trace.last() == m);
        }
        lemma_moment(m.state, m.remaining, later, i - 1);
        if i - 1 > 0 {
            assert(later[i - 2] == trace[i - 1]);
        }
        if i < trace.len() {
            assert(later[i - 1] == trace[i]);
        }
    }
}

/// The first operation to come is taken off.
pub(crate) proof fn lemma_first_op(ops: Seq<Op>, op: Op)
    requires
        ops.len() > 0,
        ops[0] == op,
    ensures
        ops == seq![op] + ops.drop_first(),
{
    assert(ops =~= seq![op] + ops.drop_first());
}

/// An action is asked for as it stands.
pub(crate) proof fn lemma_do(s: CoreState, ops: Seq<Op>, trace: Seq<Moment>, i: int, action: Action)
    requires
        completes(s, ops, trace),
        0 <= i <= trace.len(),
        ops_at(ops, trace, i).len() > 0,
        ops_at(ops, trace, i)[0] == Op::Do(action),
    ensures
        i < trace.len(),
        trace[i].step == Step::Act(action),
        state_at(s, trace, i + 1) == state_at(s, trace, i),
        ops_at(ops, trace, i + 1) == ops_at(ops, trace, i).drop_first(),
{
    let now = ops_at(ops, trace, i);
    lemma_moment(s, ops, trace, i);
    lemma_first_op(now, Op::Do(action));
    operations::law_what_is_asked_for_is_what_was_to_be_done(
        state_at(s, trace, i),
        now.drop_first(),
        trace[i].state,
        trace[i].remaining,
        trace[i].step,
        action,
        trace[i].reply,
    );
}

/// A packet is sent after a lookup.
pub(crate) proof fn lemma_queue(
    s: CoreState,
    ops: Seq<Op>,
    trace: Seq<Moment>,
    i: int,
    id: DeviceId,
    packet: ProtocolPacket,
    then: Then,
)
    requires
        completes(s, ops, trace),
        0 <= i <= trace.len(),
        ops_at(ops, trace, i).len() > 0,
        ops_at(ops, trace, i)[0] == Op::Queue(id, packet, then),
    ensures
        i + 1 < trace.len(),
        trace[i].step == Step::Act(Action::Lookup(id)),
        state_at(s, trace, i + 1) == state_at(s, trace, i),
        ops_at(ops, trace, i + 1) == seq![Op::Offer(id, packet, then)] + ops_at(
            ops,
            trace,
            i,
        ).drop_first(),
{
    let now = ops_at(ops, trace, i);
    lemma_moment(s, ops, trace, i);
    lemma_first_op(now, Op::Queue(id, packet, then));
    operations::law_a_packet_is_sent_after_a_lookup(
        state_at(s, trace, i),
        now.drop_first(),
        trace[i].state,
        trace[i].remaining,
        trace[i].step,
        id,
        packet,
        then,
        trace[i].reply,
    );
    lemma_moment(s, ops, trace, i + 1);
}

/// The state once a packet was written to the connection of a device and answered.
pub open spec fn wrote(
    s: CoreState,
    id: DeviceId,
    packet: ProtocolPacket,
    taken: bool,
) -> CoreState {
    CoreState {
        writers: s.writers.insert(
            id@,
            Link {
                writes: Flow {
                    sent: s.writers[id@].writes.sent.push(packet),
                    ..s.writers[id@].writes
                },
                answers: s.writers[id@].answers.push(taken),
                ..s.writers[id@]
            },
        ),
        ..s
    }
}

/// A packet that may go is written, and where it is taken its follow-up comes.
pub(crate) proof fn lemma_offer(
    s: CoreState,
    ops: Seq<Op>,
    trace: Seq<Moment>,
    i: int,
    id: DeviceId,
    packet: ProtocolPacket,
    then: Then,
    rest: Seq<Op>,
)
    requires
        completes(s, ops, trace),
        0 <= i < trace.len(),
        ops_at(ops, trace, i) == seq![Op::Offer(id, packet, then)] + rest,
        state_at(s, trace, i).writers.contains_key(id@),
        trace[i].reply matches Reply::Device(found) ==> operations::may_go(
            packet.packet_type,
            found,
        ),
    ensures
        trace[i].reply is Device,
        trace[i].step matches Step::Offered(taken) && state_at(s, trace, i + 1) == wrote(
            state_at(s, trace, i),
            id,
            packet,
            taken,
        ),
        trace[i].step == Step::Offered(true) && then is Nothing ==> ops_at(ops, trace, i + 1)
            == rest,
        trace[i].step == Step::Offered(true) ==> (then matches Then::Accepted(who) ==> ops_at(
            ops,
            trace,
            i + 1,
        ) == seq![Op::Do(Action::SetPaired(who))] + rest),
{
    let now = ops_at(ops, trace, i);
    lemma_moment(s, ops, trace, i);
    assert(now[0] == Op::Offer(id, packet, then));
    let reply = trace[i].reply;
    assert(reply is Device);
    operations::law_a_packet_goes_out_as_it_is(
        state_at(s, trace, i),
        rest,
        trace[i].state,
        trace[i].remaining,
        trace[i].step,
        id,
        packet,
        then,
        reply->Device_0,
    );
    assert(Seq::<Op>::empty() + rest =~= rest);
}

/// A packet that the user, or a part of the program, wants sent, and a ping with the message that the
/// user gave, is written as it is to the connection of the device it is for, once, if the device is
/// connected and the packet may go to it; and if it is taken, that is all. Otherwise nothing is written
/// at all.
pub proof fn law_packets_reach_the_connection(
    s: CoreState,
    ops: Seq<Op>,
    id: DeviceId,
    packet: ProtocolPacket,
    trace: Seq<Moment>,
)
    requires
        ops == user::app_ops(AppEvent::SendPacket(id, packet)) || ops == request::core_ops(
            CoreEvent::SendPacket { device: id, packet },
        ) || (packet.packet_type is Ping && packet.payload_transfer_info is None && (
        packet.body matches PacketBody::Ping(ping) && ping.message matches Some(message) && ops
            == user::app_ops(AppEvent::Ping((id, message))))),
        completes(s, ops, trace),
    ensures
        trace.len() >= 2,
        trace[0].step == Step::Act(Action::Lookup(id)),
        trace[0].state == s,
        trace[1].reply matches Reply::Device(found) && if operations::may_go(
            packet.packet_type,
            found,
        ) && s.writers.contains_key(id@) {
            &&& trace[1].step matches Step::Offered(taken)
            &&& trace[1].state == wrote(s, id, packet, taken)
            &&& taken ==> trace.len() == 2
        } else {
            trace.len() == 2 && trace[1].step is Idle && settings::final_state(s, trace) == s
        },
{
    events::law_packets_are_sent_as_they_are(id, packet);
    if let PacketBody::Ping(ping) = packet.body {
        if let Some(message) = ping.message {
            events::law_a_ping_carries_its_message(id, message);
        }
    }
    let nothing = Seq::<Op>::empty();
    assert(ops == seq![Op::Queue(id, packet, Then::Nothing)]);
    lemma_queue(s, ops, trace, 0, id, packet, Then::Nothing);
    assert(ops.drop_first() =~= nothing);
    lemma_moment(s, ops, trace, 1);
    assert(ops_at(ops, trace, 1)[0] == Op::Offer(id, packet, Then::Nothing));
    assert(trace[1].reply is Device);
    operations::law_a_packet_goes_out_as_it_is(
        s,
        nothing,
        trace[1].state,
        trace[1].remaining,
        trace[1].step,
        id,
        packet,
        Then::Nothing,
        trace[1].reply->Device_0,
    );
    assert(nothing + nothing =~= nothing);
    lemma_moment(s, ops, trace, 2);
}

/// When the user sends a media request, the device that the user named is looked up; if it is known,
/// the task ends with the plugin asked to send to it one packet of its own type, without payload,
/// whose body is the request that the user gave. If it is not known, nothing is sent. The core
/// itself sends nothing and remembers nothing of it.
pub proof fn law_media_requests_reach_the_plugin(
    s: CoreState,
    id: DeviceId,
    request: MprisRequest,
    trace: Seq<Moment>,
)
    requires
        completes(s, user::app_ops(AppEvent::SendMprisRequest((id, request))), trace),
    ensures
        trace.len() == 2,
        trace[0].step == Step::Act(Action::Lookup(id)),
        trace[1].reply matches Reply::Device(found) && match found {
            Some(device) => trace[1].step == Step::Act(
                Action::PluginSend(
                    device,
                    ProtocolPacket {
                        packet_type: PacketType::MprisRequest,
                        body: PacketBody::MprisRequest(request),
                        payload_transfer_info: None,
                    },
                ),
            ),
            None => trace[1].step is Idle,
        },
        settings::final_state(s, trace) == s,
{
    let ops = user::app_ops(AppEvent::SendMprisRequest((id, request)));
    let packet = ProtocolPacket {
        packet_type: PacketType::MprisRequest,
        body: PacketBody::MprisRequest(request),
        payload_transfer_info: None,
    };
    lemma_do(s, ops, trace, 0, Action::Lookup(id));
    lemma_moment(s, ops, trace, 1);
    assert(ops_at(ops, trace, 1) =~= seq![Op::PluginSendTo(packet)] + Seq::<Op>::empty());
    assert(trace[1].reply is Device);
    operations::law_plugins_send_what_they_are_given(
        state_at(s, trace, 1),
        Seq::<Op>::empty(),
        trace[1].state,
        trace[1].remaining,
        trace[1].step,
        packet,
        trace[1].reply->Device_0,
    );
    lemma_moment(s, ops, trace, 2);
}

/// A packet other than a pairing packet and an identity that arrives over the current connection of
/// a device makes the core look the device up. If it is found to be paired, the task ends with
/// exactly one request posted to the core: that this packet was received from this device, with the
/// packet equal to the one that arrived in type, body and payload. Nothing else is sent or changed.
pub proof fn law_packets_of_paired_devices_are_posted_whole(
    s: CoreState,
    addr: String,
    id: DeviceId,
    via: Option<u64>,
    packet: ProtocolPacket,
    ops: Seq<Op>,
    trace: Seq<Moment>,
)
    requires
        network::transport_plan(
            s.conn_ids,
            TransportEvent::IncomingPacket { addr, id, via, packet: Ok(packet) },
            ops,
        ),
        s.conn_ids.contains_key(id@),
        s.conn_ids[id@] == (match via {
            Some(number) => number,
            None => 0,
        }),
        !(packet.packet_type is Pair),
        !(packet.packet_type is Identity),
        completes(s, ops, trace),
    ensures
        trace.len() >= 2,
        trace[0].step == Step::Act(Action::Lookup(id)),
        trace[1].reply is Device,
        (trace[1].reply matches Reply::Device(Some(device)) && device.pair_state
            == PairState::Paired) ==> {
            &&& trace.len() == 3
            &&& trace[2].step is Posted
            &&& settings::final_state(s, trace) == (CoreState {
                events: Flow {
                    sent: s.events.sent.push(
                        CoreEvent::PacketReceived {
                            device: id,
                            packet: ProtocolPacket {
                                packet_type: packet.packet_type,
                                body: packet.body,
                                payload_transfer_info: packet.payload_transfer_info,
                            },
                        },
                    ),
                    ..s.events
                },
                ..s
            })
        },
{
    events::law_packets_come_over_the_current_connection(s.conn_ids, addr, id, via, packet, ops);
    lemma_do(s, ops, trace, 0, Action::Lookup(id));
    lemma_moment(s, ops, trace, 1);
    let nothing = Seq::<Op>::empty();
    assert(ops_at(ops, trace, 1) =~= seq![Op::PacketReceived(id, packet)] + nothing);
    assert(ops_at(ops, trace, 1)[0] == Op::PacketReceived(id, packet));
    assert(trace[1].reply is Device);
    let found = trace[1].reply->Device_0;
    operations::law_packets_of_paired_devices_go_on_whole(
        state_at(s, trace, 1),
        nothing,
        trace[1].state,
        trace[1].remaining,
        trace[1].step,
        id,
        packet,
        found,
    );
    if found is Some && found->0.pair_state == PairState::Paired {
        let event = CoreEvent::PacketReceived { device: id, packet };
        assert(ops_at(ops, trace, 2) == seq![Op::Post(event)] + nothing);
        lemma_moment(s, ops, trace, 2);
        operations::law_what_is_posted_reaches_the_core(
            state_at(s, trace, 2),
            nothing,
            trace[2].state,
            trace[2].remaining,
            trace[2].step,
            event,
            trace[2].reply,
        );
        lemma_moment(s, ops, trace, 3);
    }
}

/// Whether a run, from one of its steps on, consists of sending the acceptance to a device: the
/// device is looked up once more, the acceptance written to its connection if it has one, and where
/// the connection took it the device recorded as paired, and that is the end. Up to the writing
/// nothing was sent or changed.
pub open spec fn sends_acceptance(
    s: CoreState,
    id: DeviceId,
    trace: Seq<Moment>,
    at: int,
) -> bool {
    &&& trace.len() > at + 1
    &&& trace[at].step == Step::Act(Action::Lookup(id))
    &&& trace[at].state == s
    &&& s.writers.contains_key(id@) ==> {
        &&& trace[at + 1].step matches Step::Offered(taken)
        &&& trace[at + 1].state == wrote(s, id, operations::yes(), taken)
        &&& taken ==> {
            &&& trace.len() == at + 3
            &&& trace[at + 2].step == Step::Act(Action::SetPaired(id))
            &&& trace[at + 2].state == trace[at + 1].state
        }
    }
}

/// A run that comes to sending the acceptance sends it.
proof fn lemma_acceptance(s: CoreState, ops: Seq<Op>, trace: Seq<Moment>, at: int, id: DeviceId)
    requires
        completes(s, ops, trace),
        0 <= at <= trace.len(),
        state_at(s, trace, at) == s,
        ops_at(ops, trace, at) == seq![Op::Queue(id, operations::yes(), Then::Accepted(id))],
    ensures
        sends_acceptance(s, id, trace, at),
{
    lemma_queue(s, ops, trace, at, id, operations::yes(), Then::Accepted(id));
    let nothing = Seq::<Op>::empty();
    assert(ops_at(ops, trace, at).drop_first() =~= nothing);
    if s.writers.contains_key(id@) {
        lemma_offer(
            s,
            ops,
            trace,
            at + 1,
            id,
            operations::yes(),
            Then::Accepted(id),
            nothing,
        );
        if trace[at + 1].step == Step::Offered(true) {
            lemma_moment(s, ops, trace, at + 2);
            lemma_do(s, ops, trace, at + 2, Action::SetPaired(id));
            assert(ops_at(ops, trace, at + 3).len() == 0);
            lemma_moment(s, ops, trace, at + 3);
        }
    }
}

/// A run that comes to accepting a device by the clock, or without, does so.
proof fn lemma_decided(
    s: CoreState,
    ops: Seq<Op>,
    trace: Seq<Moment>,
    id: DeviceId,
    device: Device,
)
    requires
        completes(s, ops, trace),
        trace.len() >= 2,
        state_at(s, trace, 2) == s,
        ops_at(ops, trace, 2) == (if device.protocol_version >= 8 && device.pairing_timestamp > 0 {
            seq![
                Op::Do(Action::ReadUnixClock),
                Op::AcceptInTime(id, device.pairing_timestamp),
            ]
        } else {
            seq![Op::Queue(id, operations::yes(), Then::Accepted(id))]
        }) + Seq::<Op>::empty(),
    ensures
        if device.protocol_version < 8 || device.pairing_timestamp == 0 {
            sends_acceptance(s, id, trace, 2)
        } else {
            &&& trace.len() >= 4
            &&& trace[2].step == Step::Act(Action::ReadUnixClock)
            &&& trace[3].reply matches Reply::Time(now)
            &&& device.pairing_timestamp - now <= 1800 && now - device.pairing_timestamp <= 1800
                ==> sends_acceptance(s, id, trace, 4)
        },
{
    let nothing = Seq::<Op>::empty();
    let stated = device.pairing_timestamp;
    let accept = seq![Op::Queue(id, operations::yes(), Then::Accepted(id))];
    assert(accept + nothing =~= accept);
    if device.protocol_version >= 8 && stated > 0 {
        lemma_do(s, ops, trace, 2, Action::ReadUnixClock);
        let now = ops_at(ops, trace, 3);
        assert(now =~= seq![Op::AcceptInTime(id, stated)] + nothing);
        assert(now[0] == Op::AcceptInTime(id, stated));
        lemma_moment(s, ops, trace, 3);
        assert(trace[3].reply is Time);
        operations::law_a_request_in_time_is_accepted(
            s,
            nothing,
            trace[3].state,
            trace[3].remaining,
            trace[3].step,
            id,
            stated,
            trace[3].reply->Time_0,
        );
        let here = trace[3].reply->Time_0;
        if stated - here <= 1800 && here - stated <= 1800 {
            assert(ops_at(ops, trace, 4) == accept);
            lemma_acceptance(s, ops, trace, 4, id);
        }
    } else {
        lemma_acceptance(s, ops, trace, 2, id);
    }
}

/// When the user accepts a device, or wants to pair with it, and the device is found to be asking:
/// where there is no time to compare, because its protocol does not ask for it or it stated none, and
/// where the stated time and the time here are at most half an hour apart, the acceptance is sent,
/// with the recording as paired to follow. It is never a refusal that is sent.
pub proof fn law_requests_in_time_are_accepted(
    s: CoreState,
    event: AppEvent,
    id: DeviceId,
    trace: Seq<Moment>,
)
    requires
        event == AppEvent::AcceptPairing(id) || event == AppEvent::Pair(id),
        completes(s, user::app_ops(event), trace),
    ensures
        trace.len() >= 2,
        trace[0].step == Step::Act(Action::Lookup(id)),
        trace[1].reply is Device,
        (trace[1].reply matches Reply::Device(Some(device)) && device.pair_state
            == PairState::Requested) ==> {
            let device = trace[1].reply->Device_0->0;
            let stated = device.pairing_timestamp;
            if device.protocol_version < 8 || stated == 0 {
                sends_acceptance(s, id, trace, 2)
            } else {
                &&& trace.len() >= 4
                &&& trace[2].step == Step::Act(Action::ReadUnixClock)
                &&& trace[3].reply matches Reply::Time(now)
                &&& stated - now <= 1800 && now - stated <= 1800 ==> sends_acceptance(
                    s,
                    id,
                    trace,
                    4,
                )
            }
        },
{
    let ops = user::app_ops(event);
    let nothing = Seq::<Op>::empty();
    events::law_pairing_begins_with_a_lookup(id);
    lemma_do(s, ops, trace, 0, Action::Lookup(id));
    lemma_moment(s, ops, trace, 1);
    let now = ops_at(ops, trace, 1);
    if event == AppEvent::AcceptPairing(id) {
        assert(now =~= seq![Op::Accept(id)] + nothing);
        assert(now[0] == Op::Accept(id));
        assert(trace[1].reply is Device);
        operations::law_accepting_a_request(
            s,
            nothing,
            trace[1].state,
            trace[1].remaining,
            trace[1].step,
            id,
            trace[1].reply->Device_0,
        );
    } else {
        assert(now =~= seq![Op::PairWanted(id)] + nothing);
        assert(now[0] == Op::PairWanted(id));
        assert(trace[1].reply is Device);
        operations::law_wanting_to_pair(
            s,
            nothing,
            trace[1].state,
            trace[1].remaining,
            trace[1].step,
            id,
            trace[1].reply->Device_0,
        );
    }
    let found = trace[1].reply->Device_0;
    if found is Some && found->0.pair_state == PairState::Requested {
        lemma_decided(s, ops, trace, id, found->0);
    }
}

} // verus!
