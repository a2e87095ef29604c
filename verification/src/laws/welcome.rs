//! What a device meets with when it connects.
use vstd::prelude::*;

use crate::device::{Device, DeviceId, PairState};
use crate::event::ConnectionEvent;
use crate::laws::operations;
use crate::laws::outcomes;
use crate::laws::outcomes::{lemma_do, lemma_first_op, lemma_moment, lemma_offer, lemma_queue};
use crate::laws::settings;
use crate::laws::settings::Moment;
use crate::protocol::{PacketBody, PacketType, ProtocolPacket};
use crate::state::CoreState;
use crate::task::{Action, Arrival, Greeting, Op, Reply, Step, Then};

verus! {

/// The packets that greet a device: for contacts, notifications, conversations, battery, network and
/// keyboard.
pub open spec fn greetings() -> Seq<ProtocolPacket> {
    seq![
        operations::bare(PacketType::ContactsRequestAllUidsTimestamps, PacketBody::Empty),
        operations::bare(PacketType::NotificationRequest, PacketBody::Request),
        operations::bare(PacketType::SmsRequestConversations, PacketBody::Empty),
        operations::bare(PacketType::BatteryRequest, PacketBody::Request),
        operations::bare(PacketType::ConnectivityReportRequest, PacketBody::Empty),
        operations::bare(PacketType::MousePadKeyboardState, PacketBody::KeyboardState),
    ]
}

/// Whether a plugin greets.
pub open spec fn greets(plugin: Seq<char>) -> bool {
    ||| plugin == "contacts"@
    ||| plugin == "notification"@
    ||| plugin == "sms"@
    ||| plugin == "battery"@
    ||| plugin == "connectivity_report"@
    ||| plugin == "mousepad"@
    ||| plugin == "runcommand"@
    ||| plugin == "systemvolume"@
}

/// Whether no obstacle comes up at one step of a run: a device that is looked up or saved is on record
/// as paired, no plugin that greets is stored as switched off, and the connection takes the packets
/// it is offered.
pub open spec fn unhindered(m: Moment) -> bool {
    &&& m.reply matches Reply::Device(found) ==> (found matches Some(device) && device.pair_state
        == PairState::Paired)
    &&& m.reply matches Reply::Saved(device) ==> device.pair_state == PairState::Paired
    &&& m.reply matches Reply::Disabled(stored) ==> forall|plugin: Seq<char>|
        greets(plugin) ==> !(#[trigger] stored@.contains(plugin))
    &&& m.step matches Step::Offered(taken) ==> taken
}

/// Whether no obstacle comes up in a run.
pub open spec fn all_goes_well(trace: Seq<Moment>) -> bool {
    forall|i: int| 0 <= i < trace.len() ==> unhindered(#[trigger] trace[i])
}

/// Whether the program was asked for an action in a run.
pub open spec fn asked(trace: Seq<Moment>, action: Action) -> bool {
    exists|i: int| 0 <= i < trace.len() && (#[trigger] trace[i]).step == Step::Act(action)
}

/// Whether a run ends with a device connected and greeted: its connection is the one that arrived and
/// has been offered the greetings in this order, and nothing else; the program was asked for the state
/// of the battery, the list of commands and the volume control; and the user was told of the device.
pub open spec fn ends_in_welcome(
    s: CoreState,
    arrival: Arrival,
    device: Device,
    trace: Seq<Moment>,
) -> bool {
    let end = settings::final_state(s, trace);
    &&& end.writers.contains_key(arrival.id@)
    &&& end.writers[arrival.id@].writes.channel == arrival.handle@.writes.channel
    &&& end.writers[arrival.id@].writes.sent == arrival.handle@.writes.sent + greetings()
    &&& end.conn_ids.contains_key(arrival.id@)
    &&& end.conn_ids[arrival.id@] == arrival.conn_id
    &&& asked(trace, Action::SendBatteryState(arrival.id))
    &&& asked(trace, Action::SendCommandList(arrival.id))
    &&& asked(trace, Action::StartSystemVolume(arrival.id))
    &&& end.user.sent == s.user.sent.push(ConnectionEvent::Connected((arrival.id, device)))
    &&& end.bridge.sent == s.bridge.sent.push(ConnectionEvent::Connected((arrival.id, device)))
}

/// A greeting on behalf of a plugin that is on leads on to what the plugin asks for.
proof fn lemma_greet(
    s: CoreState,
    ops: Seq<Op>,
    trace: Seq<Moment>,
    i: int,
    id: DeviceId,
    greeting: Greeting,
)
    requires
        outcomes::completes(s, ops, trace),
        0 <= i <= trace.len(),
        outcomes::ops_at(ops, trace, i).len() > 0,
        outcomes::ops_at(ops, trace, i)[0] == Op::Greet(id, greeting),
        !(greeting is MprisPlayers),
        forall|plugin: Seq<char>|
            greets(plugin) ==> #[trigger] operations::is_on(
                outcomes::state_at(s, trace, i),
                id,
                plugin,
            ),
    ensures
        i < trace.len(),
        outcomes::state_at(s, trace, i + 1) == outcomes::state_at(s, trace, i),
        ({
            let rest = outcomes::ops_at(ops, trace, i).drop_first();
            outcomes::ops_at(ops, trace, i + 1) == (match greeting {
                Greeting::Contacts => seq![Op::Queue(id, greetings()[0], Then::Nothing)],
                Greeting::Notification => seq![Op::Queue(id, greetings()[1], Then::Nothing)],
                Greeting::Sms => seq![Op::Queue(id, greetings()[2], Then::Nothing)],
                Greeting::Battery => seq![
                    Op::Queue(id, greetings()[3], Then::Nothing),
                    Op::Do(Action::SendBatteryState(id)),
                ],
                Greeting::Connectivity => seq![Op::Queue(id, greetings()[4], Then::Nothing)],
                Greeting::Mousepad => seq![Op::Queue(id, greetings()[5], Then::Nothing)],
                Greeting::RunCommand => seq![Op::Do(Action::SendCommandList(id))],
                Greeting::SystemVolume => seq![Op::Do(Action::StartSystemVolume(id))],
                Greeting::MprisPlayers => Seq::<Op>::empty(),
            }) + rest
        }),
{
    let now = outcomes::ops_at(ops, trace, i);
    lemma_moment(s, ops, trace, i);
    lemma_first_op(now, Op::Greet(id, greeting));
    operations::law_what_greetings_ask_for(
        outcomes::state_at(s, trace, i),
        now.drop_first(),
        trace[i].state,
        trace[i].remaining,
        trace[i].step,
        id,
        greeting,
        trace[i].reply,
    );
}

/// A packet to a device that is connected and paired is written to its connection.
proof fn lemma_packet(
    s: CoreState,
    ops: Seq<Op>,
    trace: Seq<Moment>,
    i: int,
    id: DeviceId,
    packet: ProtocolPacket,
    rest: Seq<Op>,
)
    requires
        outcomes::completes(s, ops, trace),
        all_goes_well(trace),
        0 <= i <= trace.len(),
        outcomes::ops_at(ops, trace, i) == seq![Op::Queue(id, packet, Then::Nothing)] + rest,
        outcomes::state_at(s, trace, i).writers.contains_key(id@),
    ensures
        i + 2 <= trace.len(),
        outcomes::ops_at(ops, trace, i + 2) == rest,
        outcomes::state_at(s, trace, i + 2) == outcomes::wrote(
            outcomes::state_at(s, trace, i),
            id,
            packet,
            true,
        ),
{
    let now = outcomes::ops_at(ops, trace, i);
    assert(now.drop_first() =~= rest);
    lemma_queue(s, ops, trace, i, id, packet, Then::Nothing);
    assert(unhindered(trace[i + 1]));
    lemma_offer(s, ops, trace, i + 1, id, packet, Then::Nothing, rest);
}

/// A greeting that consists of one packet offers it to the connection.
proof fn lemma_greets_with_packet(
    s: CoreState,
    ops: Seq<Op>,
    trace: Seq<Moment>,
    i: int,
    id: DeviceId,
    greeting: Greeting,
    packet: ProtocolPacket,
)
    requires
        outcomes::completes(s, ops, trace),
        all_goes_well(trace),
        0 <= i <= trace.len(),
        outcomes::ops_at(ops, trace, i).len() > 0,
        outcomes::ops_at(ops, trace, i)[0] == Op::Greet(id, greeting),
        match greeting {
            Greeting::Contacts => packet == greetings()[0],
            Greeting::Notification => packet == greetings()[1],
            Greeting::Sms => packet == greetings()[2],
            Greeting::Connectivity => packet == greetings()[4],
            Greeting::Mousepad => packet == greetings()[5],
            _ => false,
        },
        ready(outcomes::state_at(s, trace, i), id),
    ensures
        i + 3 <= trace.len(),
        outcomes::ops_at(ops, trace, i + 3) == outcomes::ops_at(ops, trace, i).drop_first(),
        outcomes::state_at(s, trace, i + 3) == outcomes::wrote(
            outcomes::state_at(s, trace, i),
            id,
            packet,
            true,
        ),
        ready(outcomes::state_at(s, trace, i + 3), id),
{
    lemma_greet(s, ops, trace, i, id, greeting);
    let rest = outcomes::ops_at(ops, trace, i).drop_first();
    lemma_packet(s, ops, trace, i + 1, id, packet, rest);
    lemma_still_ready(outcomes::state_at(s, trace, i), id, packet);
}

/// Whether a device is connected and all plugins that greet are on for it.
spec fn ready(s: CoreState, id: DeviceId) -> bool {
    &&& s.writers.contains_key(id@)
    &&& forall|plugin: Seq<char>| greets(plugin) ==> #[trigger] operations::is_on(s, id, plugin)
}

/// Writing a packet changes neither.
proof fn lemma_still_ready(s: CoreState, id: DeviceId, packet: ProtocolPacket)
    requires
        ready(s, id),
    ensures
        ready(outcomes::wrote(s, id, packet, true), id),
{
    let next = outcomes::wrote(s, id, packet, true);
    assert forall|plugin: Seq<char>| greets(plugin) implies #[trigger] operations::is_on(
        next,
        id,
        plugin,
    ) by {
        assert(operations::is_on(s, id, plugin));
    }
}

/// The greeting on behalf of the battery offers a packet, and asks for the state of this side's.
proof fn lemma_greets_for_battery(
    s: CoreState,
    ops: Seq<Op>,
    trace: Seq<Moment>,
    i: int,
    id: DeviceId,
)
    requires
        outcomes::completes(s, ops, trace),
        all_goes_well(trace),
        0 <= i <= trace.len(),
        outcomes::ops_at(ops, trace, i).len() > 0,
        outcomes::ops_at(ops, trace, i)[0] == Op::Greet(id, Greeting::Battery),
        ready(outcomes::state_at(s, trace, i), id),
    ensures
        i + 4 <= trace.len(),
        trace[i + 3].step == Step::Act(Action::SendBatteryState(id)),
        outcomes::ops_at(ops, trace, i + 4) == outcomes::ops_at(ops, trace, i).drop_first(),
        outcomes::state_at(s, trace, i + 4) == outcomes::wrote(
            outcomes::state_at(s, trace, i),
            id,
            greetings()[3],
            true,
        ),
        ready(outcomes::state_at(s, trace, i + 4), id),
{
    lemma_greet(s, ops, trace, i, id, Greeting::Battery);
    let rest = outcomes::ops_at(ops, trace, i).drop_first();
    let state_sent = seq![Op::Do(Action::SendBatteryState(id))] + rest;
    assert(outcomes::ops_at(ops, trace, i + 1) =~= seq![
        Op::Queue(id, greetings()[3], Then::Nothing),
    ] + state_sent);
    lemma_packet(s, ops, trace, i + 1, id, greetings()[3], state_sent);
    lemma_do(s, ops, trace, i + 3, Action::SendBatteryState(id));
    assert(state_sent.drop_first() =~= rest);
    lemma_still_ready(outcomes::state_at(s, trace, i), id, greetings()[3]);
}

/// A greeting that consists of an action asks for it.
proof fn lemma_greets_with_action(
    s: CoreState,
    ops: Seq<Op>,
    trace: Seq<Moment>,
    i: int,
    id: DeviceId,
    greeting: Greeting,
    action: Action,
)
    requires
        outcomes::completes(s, ops, trace),
        0 <= i <= trace.len(),
        outcomes::ops_at(ops, trace, i).len() > 0,
        outcomes::ops_at(ops, trace, i)[0] == Op::Greet(id, greeting),
        match greeting {
            Greeting::RunCommand => action == Action::SendCommandList(id),
            Greeting::SystemVolume => action == Action::StartSystemVolume(id),
            _ => false,
        },
        ready(outcomes::state_at(s, trace, i), id),
    ensures
        i + 2 <= trace.len(),
        trace[i + 1].step == Step::Act(action),
        outcomes::ops_at(ops, trace, i + 2) == outcomes::ops_at(ops, trace, i).drop_first(),
        outcomes::state_at(s, trace, i + 2) == outcomes::state_at(s, trace, i),
{
    lemma_greet(s, ops, trace, i, id, greeting);
    let rest = outcomes::ops_at(ops, trace, i).drop_first();
    lemma_do(s, ops, trace, i + 1, action);
    assert((seq![Op::Do(action)] + rest).drop_first() =~= rest);
}

/// The user is told, and that is the end.
proof fn lemma_told(
    s: CoreState,
    ops: Seq<Op>,
    trace: Seq<Moment>,
    i: int,
    event: ConnectionEvent,
)
    requires
        outcomes::completes(s, ops, trace),
        0 <= i <= trace.len(),
        outcomes::ops_at(ops, trace, i) == seq![Op::Publish(event)],
    ensures
        i + 1 == trace.len(),
        ({
            let before = outcomes::state_at(s, trace, i);
            let end = settings::final_state(s, trace);
            &&& end.user.sent == before.user.sent.push(event)
            &&& end.bridge.sent == before.bridge.sent.push(event)
            &&& end.writers == before.writers
            &&& end.conn_ids == before.conn_ids
        }),
{
    let nothing = Seq::<Op>::empty();
    assert(outcomes::ops_at(ops, trace, i) =~= seq![Op::Publish(event)] + nothing);
    lemma_moment(s, ops, trace, i);
    operations::law_what_is_published_reaches_user_and_bridge(
        outcomes::state_at(s, trace, i),
        nothing,
        trace[i].state,
        trace[i].remaining,
        trace[i].step,
        event,
        trace[i].reply,
    );
    lemma_moment(s, ops, trace, i + 1);
}

/// Where a connection is let in, the device is recorded, the connection installed and the stored
/// settings put in force, before anything else.
proof fn lemma_installed(
    s: CoreState,
    ops: Seq<Op>,
    trace: Seq<Moment>,
    from: int,
    arrival: Arrival,
    device: Device,
)
    requires
        outcomes::completes(s, ops, trace),
        0 <= from <= trace.len(),
        operations::settles(
            arrival,
            device,
            outcomes::ops_at(ops, trace, from),
            Seq::<Op>::empty(),
        ),
    ensures
        ({
            let t: int = if arrival.pairing_timestamp > 0 {
                1
            } else {
                0
            };
            let before = outcomes::state_at(s, trace, from);
            let after = outcomes::state_at(s, trace, from + 5 + t);
            &&& from + 5 + t <= trace.len()
            &&& outcomes::ops_at(ops, trace, from + 5 + t) == outcomes::ops_at(
                ops,
                trace,
                from,
            ).skip(5 + t)
            &&& trace[from + 4 + t].reply matches Reply::Disabled(stored)
            &&& after.disabled == before.disabled.insert(arrival.id@, stored@)
            &&& after.writers == before.writers.insert(arrival.id@, arrival.handle@)
            &&& after.conn_ids == before.conn_ids.insert(arrival.id@, arrival.conn_id)
            &&& after.user == before.user
            &&& after.bridge == before.bridge
        }),
{
    let t: int = if arrival.pairing_timestamp > 0 {
        1
    } else {
        0
    };
    let id = arrival.id;
    let all = outcomes::ops_at(ops, trace, from);
    lemma_do(s, ops, trace, from, Action::AddOrUpdateDevice(id, device));
    assert(all.drop_first() =~= all.skip(1));
    lemma_do(s, ops, trace, from + 1, Action::SetProtocolVersion(id, arrival.protocol_version));
    assert(all.skip(1).drop_first() =~= all.skip(2));
    if t == 1 {
        lemma_do(
            s,
            ops,
            trace,
            from + 2,
            Action::SetPairingTimestamp(id, arrival.pairing_timestamp),
        );
        assert(all.skip(2).drop_first() =~= all.skip(3));
    }
    let at = from + 2 + t;
    let now = outcomes::ops_at(ops, trace, at);
    assert(now == all.skip(2 + t));
    let install = Op::Install(id, arrival.conn_id, arrival.handle);
    lemma_moment(s, ops, trace, at);
    lemma_first_op(now, install);
    operations::law_installing_a_connection(
        outcomes::state_at(s, trace, at),
        now.drop_first(),
        trace[at].state,
        trace[at].remaining,
        trace[at].step,
        id,
        arrival.conn_id,
        arrival.handle,
        trace[at].reply,
    );
    assert(all.skip(2 + t).drop_first() =~= all.skip(3 + t));
    lemma_do(s, ops, trace, at + 1, Action::LoadDisabled(id));
    assert(all.skip(3 + t).drop_first() =~= all.skip(4 + t));
    let last = outcomes::ops_at(ops, trace, at + 2);
    lemma_moment(s, ops, trace, at + 2);
    lemma_first_op(last, Op::RestoreDisabled(id));
    let reply = trace[at + 2].reply;
    assert(reply is Disabled);
    operations::law_stored_settings_are_put_in_force(
        outcomes::state_at(s, trace, at + 2),
        last.drop_first(),
        trace[at + 2].state,
        trace[at + 2].remaining,
        trace[at + 2].step,
        id,
        reply->Disabled_0,
    );
    assert(all.skip(4 + t).drop_first() =~= all.skip(5 + t));
}

/// A paired device that is let in is greeted.
proof fn lemma_welcome(
    s: CoreState,
    ops: Seq<Op>,
    trace: Seq<Moment>,
    from: int,
    arrival: Arrival,
    device: Device,
)
    requires
        outcomes::completes(s, ops, trace),
        all_goes_well(trace),
        0 <= from <= trace.len(),
        outcomes::state_at(s, trace, from) == s,
        operations::settles(
            arrival,
            device,
            outcomes::ops_at(ops, trace, from),
            Seq::<Op>::empty(),
        ),
        device.pair_state == PairState::Paired,
    ensures
        ends_in_welcome(s, arrival, device, trace),
{
    let t: int = if arrival.pairing_timestamp > 0 {
        1
    } else {
        0
    };
    let id = arrival.id;
    let all = outcomes::ops_at(ops, trace, from);
    let at = from + 5 + t;
    lemma_installed(s, ops, trace, from, arrival, device);
    let start = outcomes::state_at(s, trace, at);
    assert(unhindered(trace[from + 4 + t]));
    assert(ready(start, id));
    lemma_greets_with_packet(s, ops, trace, at, id, Greeting::Contacts, greetings()[0]);
    assert(all.skip(5 + t).drop_first() =~= all.skip(6 + t));
    lemma_greets_with_packet(s, ops, trace, at + 3, id, Greeting::Notification, greetings()[1]);
    assert(all.skip(6 + t).drop_first() =~= all.skip(7 + t));
    lemma_greets_with_packet(s, ops, trace, at + 6, id, Greeting::Sms, greetings()[2]);
    assert(all.skip(7 + t).drop_first() =~= all.skip(8 + t));
    lemma_greets_for_battery(s, ops, trace, at + 9, id);
    assert(all.skip(8 + t).drop_first() =~= all.skip(9 + t));
    lemma_greets_with_packet(s, ops, trace, at + 13, id, Greeting::Connectivity, greetings()[4]);
    assert(all.skip(9 + t).drop_first() =~= all.skip(10 + t));
    lemma_greets_with_packet(s, ops, trace, at + 16, id, Greeting::Mousepad, greetings()[5]);
    assert(all.skip(10 + t).drop_first() =~= all.skip(11 + t));
    lemma_greets_with_action(
        s,
        ops,
        trace,
        at + 19,
        id,
        Greeting::RunCommand,
        Action::SendCommandList(id),
    );
    assert(all.skip(11 + t).drop_first() =~= all.skip(12 + t));
    lemma_greets_with_action(
        s,
        ops,
        trace,
        at + 21,
        id,
        Greeting::SystemVolume,
        Action::StartSystemVolume(id),
    );
    assert(all.skip(12 + t).drop_first() =~= all.skip(13 + t));
    let told = ConnectionEvent::Connected((id, device));
    assert(all.skip(13 + t) =~= seq![Op::Publish(told)]);
    lemma_told(s, ops, trace, at + 23, told);
    let end = outcomes::state_at(s, trace, at + 23);
    assert(end.writers[id@].writes.sent =~= arrival.handle@.writes.sent + greetings());
    assert(trace[at + 12].step == Step::Act(Action::SendBatteryState(id)));
    assert(trace[at + 20].step == Step::Act(Action::SendCommandList(id)));
    assert(trace[at + 22].step == Step::Act(Action::StartSystemVolume(id)));
}

/// Whether a run ends with a device connected and not greeted: its connection is the one that arrived,
/// nothing was written to it, and the user was told of the device. Recording, installing, settings and
/// telling were all there was.
pub open spec fn ends_without_greeting(
    s: CoreState,
    arrival: Arrival,
    device: Device,
    trace: Seq<Moment>,
    from: int,
) -> bool {
    let end = settings::final_state(s, trace);
    &&& end.writers == s.writers.insert(arrival.id@, arrival.handle@)
    &&& end.conn_ids == s.conn_ids.insert(arrival.id@, arrival.conn_id)
    &&& end.user.sent == s.user.sent.push(ConnectionEvent::Connected((arrival.id, device)))
    &&& end.bridge.sent == s.bridge.sent.push(ConnectionEvent::Connected((arrival.id, device)))
    &&& trace.len() == from + 6 + (if arrival.pairing_timestamp > 0 {
        1int
    } else {
        0int
    })
}

/// A device that is let in without being paired is not greeted.
proof fn lemma_no_welcome(
    s: CoreState,
    ops: Seq<Op>,
    trace: Seq<Moment>,
    from: int,
    arrival: Arrival,
    device: Device,
)
    requires
        outcomes::completes(s, ops, trace),
        0 <= from <= trace.len(),
        outcomes::state_at(s, trace, from) == s,
        operations::settles(
            arrival,
            device,
            outcomes::ops_at(ops, trace, from),
            Seq::<Op>::empty(),
        ),
        device.pair_state != PairState::Paired,
    ensures
        ends_without_greeting(s, arrival, device, trace, from),
{
    let t: int = if arrival.pairing_timestamp > 0 {
        1
    } else {
        0
    };
    let all = outcomes::ops_at(ops, trace, from);
    lemma_installed(s, ops, trace, from, arrival, device);
    let told = ConnectionEvent::Connected((arrival.id, device));
    assert(all.skip(5 + t) =~= seq![Op::Publish(told)]);
    lemma_told(s, ops, trace, from + 5 + t, told);
}

/// Once a device was saved, its connection is let in. If the device is paired, whatever else is on
/// record of it, and nothing hinders it, it is greeted on behalf of contacts, notification, sms,
/// battery, connectivity_report and mousepad by a packet each, and on behalf of battery, runcommand
/// and systemvolume by what the program does. If it is not paired, it is not greeted at all.
pub proof fn law_a_saved_device_is_greeted_if_paired(
    s: CoreState,
    arrival: Arrival,
    device: Device,
    trace: Seq<Moment>,
)
    requires
        outcomes::completes(s, seq![Op::Settle(arrival)], trace),
        trace[0].reply == Reply::Saved(device),
    ensures
        device.pair_state == PairState::Paired && all_goes_well(trace) ==> ends_in_welcome(
            s,
            arrival,
            device,
            trace,
        ),
        device.pair_state != PairState::Paired ==> ends_without_greeting(
            s,
            arrival,
            device,
            trace,
            1,
        ),
{
    let ops = seq![Op::Settle(arrival)];
    let nothing = Seq::<Op>::empty();
    assert(ops =~= ops + nothing);
    lemma_moment(s, ops, trace, 0);
    operations::law_a_saved_device_is_settled(
        s,
        nothing,
        trace[0].state,
        trace[0].remaining,
        trace[0].step,
        arrival,
        device,
    );
    if device.pair_state != PairState::Paired {
        lemma_no_welcome(s, ops, trace, 1, arrival, device);
    } else if all_goes_well(trace) {
        lemma_welcome(s, ops, trace, 1, arrival, device);
    }
}

/// Whether a paired device comes back as it was left: with no older version than it is known for, and
/// with the certificate on record, if there is one.
pub open spec fn comes_back(arrival: Arrival, device: Device) -> bool {
    &&& arrival.protocol_version >= device.protocol_version
    &&& match (device.remote_certificate, arrival.peer_certificate) {
        (Some(stored), Some(peer)) => stored@ == peer@,
        (Some(_), None) => false,
        (None, _) => true,
    }
}

/// The record of a device once its connection is let in: with the certificate that it presented, if
/// it presented one.
pub open spec fn presented(arrival: Arrival, device: Device) -> Device {
    if arrival.peer_certificate is Some {
        Device { remote_certificate: arrival.peer_certificate, ..device }
    } else {
        device
    }
}

/// A paired device that comes back as it was left is greeted, whatever its certificate, version and
/// time, as long as nothing hinders it: where no certificate was on record and it presents one, once
/// it was saved with that, and at once otherwise. A device that is not paired is let in and not
/// greeted, whatever it presents.
pub proof fn law_a_device_that_comes_back_is_greeted(
    s: CoreState,
    arrival: Arrival,
    device: Device,
    trace: Seq<Moment>,
)
    requires
        outcomes::completes(s, seq![Op::Admit(arrival)], trace),
        trace[0].reply == Reply::Discovered(Some(device)),
    ensures
        device.pair_state == PairState::Paired && comes_back(arrival, device) && all_goes_well(
            trace,
        ) ==> if device.remote_certificate is None && arrival.peer_certificate is Some {
            &&& trace[1].step == Step::Act(
                Action::SavePairState(presented(arrival, device), PairState::Paired),
            )
            &&& trace[2].reply matches Reply::Saved(saved)
            &&& ends_in_welcome(s, arrival, saved, trace)
        } else {
            ends_in_welcome(s, arrival, presented(arrival, device), trace)
        },
        device.pair_state != PairState::Paired ==> ends_without_greeting(
            s,
            arrival,
            presented(arrival, device),
            trace,
            1,
        ),
{
    let ops = seq![Op::Admit(arrival)];
    let nothing = Seq::<Op>::empty();
    assert(ops =~= ops + nothing);
    lemma_moment(s, ops, trace, 0);
    operations::law_who_is_let_in(
        s,
        nothing,
        trace[0].state,
        trace[0].remaining,
        trace[0].step,
        arrival,
        Some(device),
    );
    let shown = presented(arrival, device);
    if device.pair_state != PairState::Paired {
        lemma_no_welcome(s, ops, trace, 1, arrival, shown);
    } else if comes_back(arrival, device) && all_goes_well(trace) {
        if device.remote_certificate is None && arrival.peer_certificate is Some {
            lemma_do(s, ops, trace, 1, Action::SavePairState(shown, PairState::Paired));
            let now = outcomes::ops_at(ops, trace, 2);
            assert(now =~= seq![Op::Settle(arrival)] + nothing);
            assert(now[0] == Op::Settle(arrival));
            lemma_moment(s, ops, trace, 2);
            assert(trace[2].reply is Saved);
            let saved = trace[2].reply->Saved_0;
            assert(unhindered(trace[2]));
            operations::law_a_saved_device_is_settled(
                s,
                nothing,
                trace[2].state,
                trace[2].remaining,
                trace[2].step,
                arrival,
                saved,
            );
            lemma_welcome(s, ops, trace, 3, arrival, saved);
        } else {
            lemma_welcome(s, ops, trace, 1, arrival, shown);
        }
    }
}

} // verus!
