//! What each operation is for, stated over a single step: what it asks for, sends, changes and leads
//! to, in terms of what it was given.
use std::sync::Arc;
use tokio::sync::mpsc::UnboundedSender;
use vstd::prelude::*;

use crate::channel::{Flow, Signals};
use crate::connection::{ConnectionHandle, Link};
use crate::device::{Device, DeviceId, PairState};
use crate::event::{ConnectionEvent, CoreEvent, Payload};
use crate::plan::user;
use crate::plugin_set::PluginSet;
use crate::protocol::{MprisRequest, PacketBody, PacketType, Pair, ProtocolPacket};
use crate::state;
use crate::state::CoreState;
use crate::task::{
    Action, AfterDrop, Arrival, Greeting, Job, Op, Reply, SharedFile, Step, Takes, Then,
};

verus! {

/// Whether a step only decides: nothing is sent or remembered, and these operations come before the
/// rest.
pub open spec fn leads_to(
    s: CoreState,
    rest: Seq<Op>,
    next: CoreState,
    remaining: Seq<Op>,
    step: Step,
    ops: Seq<Op>,
) -> bool {
    next == s && step is Idle && remaining == ops + rest
}

/// Whether a step leads to these operations where something holds, and to none otherwise.
pub open spec fn leads_to_if(
    s: CoreState,
    rest: Seq<Op>,
    next: CoreState,
    remaining: Seq<Op>,
    step: Step,
    holds: bool,
    ops: Seq<Op>,
) -> bool {
    leads_to(
        s,
        rest,
        next,
        remaining,
        step,
        if holds {
            ops
        } else {
            Seq::empty()
        },
    )
}

/// Whether a device was found, and in this pair state.
pub open spec fn found_as(found: Option<Device>, state: PairState) -> bool {
    found matches Some(device) && device.pair_state == state
}

/// Whether a step changes what is remembered, and nothing else comes of it.
pub open spec fn only_changes(
    rest: Seq<Op>,
    next: CoreState,
    remaining: Seq<Op>,
    step: Step,
    to: CoreState,
) -> bool {
    next == to && step is Idle && remaining == rest
}

/// Whether a step asks for one action, and nothing else comes of it.
pub open spec fn only_asks(
    s: CoreState,
    rest: Seq<Op>,
    next: CoreState,
    remaining: Seq<Op>,
    step: Step,
    action: Action,
) -> bool {
    next == s && step == Step::Act(action) && remaining == rest
}

/// The answer that refuses pairing, or ends it.
pub open spec fn no() -> ProtocolPacket {
    ProtocolPacket {
        packet_type: PacketType::Pair,
        body: PacketBody::Pair(Pair { pair: false, timestamp: None }),
        payload_transfer_info: None,
    }
}

/// The answer that accepts pairing.
pub open spec fn yes() -> ProtocolPacket {
    ProtocolPacket {
        packet_type: PacketType::Pair,
        body: PacketBody::Pair(Pair { pair: true, timestamp: None }),
        payload_transfer_info: None,
    }
}

/// A packet of a type with a body, and without payload.
pub open spec fn bare(packet_type: PacketType, body: PacketBody) -> ProtocolPacket {
    ProtocolPacket { packet_type, body, payload_transfer_info: None }
}

/// Whether a packet of this type may go to a device that was found like this.
pub open spec fn may_go(packet_type: PacketType, found: Option<Device>) -> bool {
    packet_type is Pair || packet_type is Identity || found_as(found, PairState::Paired)
}

/// Whether a plugin is switched on for a device.
pub open spec fn is_on(s: CoreState, id: DeviceId, plugin: Seq<char>) -> bool {
    !s.disabled.contains_key(id@) || !s.disabled[id@].contains(plugin)
}

/// What is due where a packet could not be sent.
pub open spec fn unsent(then: Then) -> Seq<Op> {
    match then {
        Then::Nothing => Seq::empty(),
        Then::Accepted(id) => seq![
            Op::Do(Action::UpdatePairState(id, PairState::NotPaired)),
            Op::Publish(ConnectionEvent::PairingTimedOut(id)),
        ],
        Then::Requested(id, pair) => seq![
            Op::Do(Action::SendIdentity),
            Op::BeginAttempt(id, pair, false),
        ],
        Then::Unpaired(id) => seq![
            Op::Do(Action::Spawn(Job::UnpairCleanup { device: id, queued: false })),
        ],
        Then::Resync(id) => seq![Op::Drop(id, AfterDrop::StopVolume)],
    }
}

/// Whether a step hands out a connection that was told to shut down, once, and is otherwise as it
/// was.
pub open spec fn tells_to_shut_down(step: Step, link: Link) -> bool {
    step matches Step::Closed(closed) && closed@ == (Link {
        shutdown: Signals { sent: link.shutdown.sent.push(true), ..link.shutdown },
        ..link
    })
}

/// A step takes off the first operation.
proof fn lemma_first(op: Op, rest: Seq<Op>)
    ensures
        (seq![op] + rest).len() > 0,
        (seq![op] + rest)[0] == op,
        (seq![op] + rest).drop_first() == rest,
        Seq::<Op>::empty() + rest == rest,
{
    assert((seq![op] + rest).drop_first() =~= rest);
    assert(Seq::<Op>::empty() + rest =~= rest);
}

/// A device whose connection is gone is called for by announcing this side, exactly if it is on
/// record as paired.
pub proof fn law_a_lost_device_is_called_for_if_paired(
    s: CoreState,
    rest: Seq<Op>,
    next: CoreState,
    remaining: Seq<Op>,
    step: Step,
    id: DeviceId,
    found: Option<Device>,
)
    requires
        state::steps(
            s,
            seq![Op::BroadcastIfPaired(id)] + rest,
            Reply::Device(found),
            next,
            remaining,
            step,
        ),
    ensures
        found_as(found, PairState::Paired) ==> leads_to(
            s,
            rest,
            next,
            remaining,
            step,
            seq![Op::Do(Action::SendIdentity)],
        ),
        !found_as(found, PairState::Paired) ==> leads_to(
            s,
            rest,
            next,
            remaining,
            step,
            Seq::<Op>::empty(),
        ),
{
    lemma_first(Op::BroadcastIfPaired(id), rest);
}

/// Sharing files is opening and sending them, one after the other.
proof fn lemma_shared(
    sender: Arc<UnboundedSender<ProtocolPacket>>,
    files: Seq<SharedFile>,
)
    ensures
        user::share_files(sender, files).len() == 2 * files.len(),
        forall|k: int|
            0 <= k < files.len() ==> user::share_files(sender, files)[2 * k] == Op::Do(
                Action::OpenFile((#[trigger] files[k]).path),
            ) && user::share_files(sender, files)[2 * k + 1] == Op::ShareFile(
                sender,
                files[k].body,
            ),
    decreases files.len(),
{
    if files.len() > 0 {
        let before = files.drop_last();
        lemma_shared(sender, before);
        assert forall|k: int| 0 <= k < files.len() implies user::share_files(sender, files)[2 * k]
            == Op::Do(Action::OpenFile((#[trigger] files[k]).path)) && user::share_files(
            sender,
            files,
        )[2 * k + 1] == Op::ShareFile(sender, files[k].body) by {
            if k < before.len() {
                assert(before[k] == files[k]);
            }
        }
    }
}

/// Every file that was prepared is opened at its own path and shared with its own body, over the
/// connection that is held, in the order of the files; nothing else is done, and where nothing
/// could be prepared nothing is.
pub proof fn law_every_prepared_file_is_opened_and_shared(
    s: CoreState,
    rest: Seq<Op>,
    next: CoreState,
    remaining: Seq<Op>,
    step: Step,
    sender: Arc<UnboundedSender<ProtocolPacket>>,
    shares: Option<Vec<SharedFile>>,
)
    requires
        state::steps(
            s,
            seq![Op::Share(sender)] + rest,
            Reply::Shares(shares),
            next,
            remaining,
            step,
        ),
    ensures
        next == s && step is Idle,
        match shares {
            Some(files) => {
                let n = files@.len();
                &&& remaining.len() == 2 * n + rest.len()
                &&& forall|k: int|
                    0 <= k < n ==> remaining[2 * k] == Op::Do(
                        Action::OpenFile((#[trigger] files@[k]).path),
                    ) && remaining[2 * k + 1] == Op::ShareFile(sender, files@[k].body)
                &&& remaining.skip(2 * n as int) == rest
            },
            None => remaining == rest,
        },
{
    lemma_first(Op::Share(sender), rest);
    if let Some(files) = shares {
        lemma_shared(sender, files@);
        assert(remaining.skip(2 * files@.len() as int) =~= rest);
    }
}

/// A file that was opened is sent over the connection that is held, as the payload of a share
/// packet with the body that was prepared; one that could not be opened is passed over.
pub proof fn law_an_opened_file_is_sent_as_it_was_prepared(
    s: CoreState,
    rest: Seq<Op>,
    next: CoreState,
    remaining: Seq<Op>,
    step: Step,
    sender: Arc<UnboundedSender<ProtocolPacket>>,
    body: PacketBody,
    opened: Option<Payload>,
)
    requires
        state::steps(
            s,
            seq![Op::ShareFile(sender, body)] + rest,
            Reply::Opened(opened),
            next,
            remaining,
            step,
        ),
    ensures
        match opened {
            Some(payload) => leads_to(
                s,
                rest,
                next,
                remaining,
                step,
                seq![
                    Op::Do(
                        Action::SendPayload {
                            sender,
                            packet: bare(PacketType::ShareRequest, body),
                            payload,
                        },
                    ),
                ],
            ),
            None => leads_to(s, rest, next, remaining, step, Seq::<Op>::empty()),
        },
{
    lemma_first(Op::ShareFile(sender, body), rest);
}

/// Whether a connection is installed as it should be. The device is recorded as it is and with the
/// version and time that its peer stated; the connection installed under its number; the stored
/// settings read and put in force; and only then, exactly if the device is paired, whatever else is
/// on record of it, is it greeted on behalf of each plugin that greets; and in the end the user is
/// told of the device.
pub open spec fn settles(
    arrival: Arrival,
    device: Device,
    remaining: Seq<Op>,
    rest: Seq<Op>,
) -> bool {
    let id = arrival.id;
    let t: int = if arrival.pairing_timestamp > 0 {
        1
    } else {
        0
    };
    let g: int = if device.pair_state == PairState::Paired {
        8
    } else {
        0
    };
    &&& remaining.len() == 6 + t + g + rest.len()
    &&& remaining[0] == Op::Do(Action::AddOrUpdateDevice(id, device))
    &&& remaining[1] == Op::Do(Action::SetProtocolVersion(id, arrival.protocol_version))
    &&& t == 1 ==> remaining[2] == Op::Do(
        Action::SetPairingTimestamp(id, arrival.pairing_timestamp),
    )
    &&& remaining[2 + t] == Op::Install(id, arrival.conn_id, arrival.handle)
    &&& remaining[3 + t] == Op::Do(Action::LoadDisabled(id))
    &&& remaining[4 + t] == Op::RestoreDisabled(id)
    &&& g == 8 ==> {
        &&& remaining[5 + t] == Op::Greet(id, Greeting::Contacts)
        &&& remaining[6 + t] == Op::Greet(id, Greeting::Notification)
        &&& remaining[7 + t] == Op::Greet(id, Greeting::Sms)
        &&& remaining[8 + t] == Op::Greet(id, Greeting::Battery)
        &&& remaining[9 + t] == Op::Greet(id, Greeting::Connectivity)
        &&& remaining[10 + t] == Op::Greet(id, Greeting::Mousepad)
        &&& remaining[11 + t] == Op::Greet(id, Greeting::RunCommand)
        &&& remaining[12 + t] == Op::Greet(id, Greeting::SystemVolume)
    }
    &&& remaining[5 + t + g] == Op::Publish(ConnectionEvent::Connected((id, device)))
    &&& remaining.skip(6 + t + g) == rest
}

/// Once a device was saved, its connection is installed, and the device greeted if it is paired.
pub proof fn law_a_saved_device_is_settled(
    s: CoreState,
    rest: Seq<Op>,
    next: CoreState,
    remaining: Seq<Op>,
    step: Step,
    arrival: Arrival,
    device: Device,
)
    requires
        state::steps(
            s,
            seq![Op::Settle(arrival)] + rest,
            Reply::Saved(device),
            next,
            remaining,
            step,
        ),
    ensures
        next == s && step is Idle,
        settles(arrival, device, remaining, rest),
{
    lemma_first(Op::Settle(arrival), rest);
    let t: int = if arrival.pairing_timestamp > 0 {
        1
    } else {
        0
    };
    let g: int = if device.pair_state == PairState::Paired {
        8
    } else {
        0
    };
    assert(remaining.skip(6 + t + g) =~= rest);
}

/// A peer of which no record could be made is turned away, as is a paired device with an older
/// protocol version than it is known for. A paired device with another certificate than the one on
/// record, or with none, loses that certificate and its pairing. A paired device without a
/// certificate on record is saved with the one it presents, and then settled. Every other device is
/// settled at once, with the certificate it presents, or with the one on record where it presents
/// none.
pub proof fn law_who_is_let_in(
    s: CoreState,
    rest: Seq<Op>,
    next: CoreState,
    remaining: Seq<Op>,
    step: Step,
    arrival: Arrival,
    found: Option<Device>,
)
    requires
        state::steps(
            s,
            seq![Op::Admit(arrival)] + rest,
            Reply::Discovered(found),
            next,
            remaining,
            step,
        ),
    ensures
        next == s && step is Idle,
        match found {
            None => remaining == rest,
            Some(device) => {
                let paired = device.pair_state == PairState::Paired;
                let older = arrival.protocol_version < device.protocol_version;
                let same = match (device.remote_certificate, arrival.peer_certificate) {
                    (Some(stored), Some(peer)) => stored@ == peer@,
                    (Some(_), None) => false,
                    (None, _) => true,
                };
                let shown = if arrival.peer_certificate is Some {
                    Device { remote_certificate: arrival.peer_certificate, ..device }
                } else {
                    device
                };
                if paired && older {
                    remaining == rest
                } else if paired && !same {
                    remaining == seq![
                        Op::Do(
                            Action::AddOrUpdateDevice(
                                arrival.id,
                                Device { remote_certificate: None, ..device },
                            ),
                        ),
                        Op::Do(Action::UpdatePairState(arrival.id, PairState::NotPaired)),
                        Op::Do(Action::CleanUp(arrival.id)),
                    ] + rest
                } else if paired && device.remote_certificate is None
                    && arrival.peer_certificate is Some {
                    remaining == seq![
                        Op::Do(Action::SavePairState(shown, PairState::Paired)),
                        Op::Settle(arrival),
                    ] + rest
                } else {
                    settles(arrival, shown, remaining, rest)
                }
            },
        },
{
    lemma_first(Op::Admit(arrival), rest);
    let t: int = if arrival.pairing_timestamp > 0 {
        1
    } else {
        0
    };
    if let Some(device) = found {
        let g: int = if device.pair_state == PairState::Paired {
            8
        } else {
            0
        };
        if remaining.len() == 6 + t + g + rest.len() {
            assert(remaining.skip(6 + t + g) =~= rest);
        }
    }
}

/// A pairing request is handed on with the packet as it came and with what is on record of the
/// device. A refusal ends a pairing, data and connection with it, or one under way; of a device
/// that is not paired, and of one that is unknown, it means nothing.
pub proof fn law_pair_packets_go_by_the_pair_state(
    s: CoreState,
    rest: Seq<Op>,
    next: CoreState,
    remaining: Seq<Op>,
    step: Step,
    id: DeviceId,
    pair: Pair,
    packet: ProtocolPacket,
    found: Option<Device>,
)
    requires
        state::steps(
            s,
            seq![Op::PairReceived(id, pair, packet)] + rest,
            Reply::Device(found),
            next,
            remaining,
            step,
        ),
    ensures
        match found {
            None => leads_to(s, rest, next, remaining, step, Seq::<Op>::empty()),
            Some(device) => if pair.pair {
                leads_to(
                    s,
                    rest,
                    next,
                    remaining,
                    step,
                    seq![
                        Op::Do(
                            Action::HandlePairRequest {
                                device_id: device.device_id,
                                name: device.name,
                                address: device.address,
                                packet,
                            },
                        ),
                        Op::PairAsked(id, device.name),
                    ],
                )
            } else if device.pair_state == PairState::Paired {
                leads_to(
                    s,
                    rest,
                    next,
                    remaining,
                    step,
                    seq![
                        Op::ForgetAttempt(id),
                        Op::Do(Action::UpdatePairState(id, PairState::NotPaired)),
                        Op::Do(Action::CleanUp(id)),
                        Op::Drop(id, AfterDrop::StopVolume),
                    ],
                )
            } else if device.pair_state == PairState::NotPaired {
                leads_to(s, rest, next, remaining, step, Seq::<Op>::empty())
            } else {
                leads_to(
                    s,
                    rest,
                    next,
                    remaining,
                    step,
                    seq![
                        Op::ForgetAttempt(id),
                        Op::Do(Action::UpdatePairState(id, PairState::NotPaired)),
                        Op::Publish(ConnectionEvent::PairingTimedOut(id)),
                    ],
                )
            },
        },
{
    lemma_first(Op::PairReceived(id, pair, packet), rest);
}

/// The user is shown a pairing request with the name of the device, and a watch is set over it,
/// exactly if it is new.
pub proof fn law_new_pairing_requests_are_shown(
    s: CoreState,
    rest: Seq<Op>,
    next: CoreState,
    remaining: Seq<Op>,
    step: Step,
    id: DeviceId,
    name: String,
    new: bool,
)
    requires
        state::steps(
            s,
            seq![Op::PairAsked(id, name)] + rest,
            Reply::NewRequest(new),
            next,
            remaining,
            step,
        ),
    ensures
        new ==> leads_to(
            s,
            rest,
            next,
            remaining,
            step,
            seq![
                Op::Publish(ConnectionEvent::PairingRequested((id, name))),
                Op::Do(Action::Spawn(Job::IncomingPairTimeout(id))),
            ],
        ),
        !new ==> leads_to(s, rest, next, remaining, step, Seq::<Op>::empty()),
{
    lemma_first(Op::PairAsked(id, name), rest);
}

/// A packet of a paired device goes on to the plugins as it came: type, body and payload. One of
/// any other device goes nowhere: the pairing attempt is forgotten, the device made sure not to
/// count as paired, its volume control stopped, and the device told or dropped by the clock.
pub proof fn law_packets_of_paired_devices_go_on_whole(
    s: CoreState,
    rest: Seq<Op>,
    next: CoreState,
    remaining: Seq<Op>,
    step: Step,
    id: DeviceId,
    packet: ProtocolPacket,
    found: Option<Device>,
)
    requires
        state::steps(
            s,
            seq![Op::PacketReceived(id, packet)] + rest,
            Reply::Device(found),
            next,
            remaining,
            step,
        ),
    ensures
        found_as(found, PairState::Paired) ==> leads_to(
            s,
            rest,
            next,
            remaining,
            step,
            seq![Op::Post(CoreEvent::PacketReceived { device: id, packet })],
        ),
        !found_as(found, PairState::Paired) ==> leads_to(
            s,
            rest,
            next,
            remaining,
            step,
            seq![
                Op::ForgetAttempt(id),
                Op::Do(Action::Lookup(id)),
                Op::Disown(id),
                Op::Do(Action::StopSystemVolume(id)),
                Op::Do(Action::ReadMonotonicClock),
                Op::Resync(id),
            ],
        ),
{
    lemma_first(Op::PacketReceived(id, packet), rest);
}

/// A stranger is recorded as not paired, unless it is already, or unknown.
pub proof fn law_strangers_are_put_on_record_as_such(
    s: CoreState,
    rest: Seq<Op>,
    next: CoreState,
    remaining: Seq<Op>,
    step: Step,
    id: DeviceId,
    found: Option<Device>,
)
    requires
        state::steps(s, seq![Op::Disown(id)] + rest, Reply::Device(found), next, remaining, step),
    ensures
        match found {
            Some(device) => if device.pair_state == PairState::NotPaired {
                leads_to(s, rest, next, remaining, step, Seq::<Op>::empty())
            } else {
                leads_to(
                    s,
                    rest,
                    next,
                    remaining,
                    step,
                    seq![Op::Do(Action::UpdatePairState(id, PairState::NotPaired))],
                )
            },
            None => leads_to(s, rest, next, remaining, step, Seq::<Op>::empty()),
        },
{
    lemma_first(Op::Disown(id), rest);
}

/// A pairing that is under way, from either side, is ended: the attempt forgotten, the device
/// recorded as not paired, the user told. Anything else is left alone.
pub proof fn law_only_a_pairing_under_way_can_fail(
    s: CoreState,
    rest: Seq<Op>,
    next: CoreState,
    remaining: Seq<Op>,
    step: Step,
    id: DeviceId,
    found: Option<Device>,
)
    requires
        state::steps(
            s,
            seq![Op::FailPairing(id)] + rest,
            Reply::Device(found),
            next,
            remaining,
            step,
        ),
    ensures
        leads_to_if(
            s,
            rest,
            next,
            remaining,
            step,
            found_as(found, PairState::Requesting) || found_as(found, PairState::Requested),
            seq![
                Op::ForgetAttempt(id),
                Op::Do(Action::UpdatePairState(id, PairState::NotPaired)),
                Op::Publish(ConnectionEvent::PairingTimedOut(id)),
            ],
        ),
{
    lemma_first(Op::FailPairing(id), rest);
}

/// A device that is no longer trusted loses its certificate, and nothing else of its record.
pub proof fn law_distrust_forgets_the_certificate_only(
    s: CoreState,
    rest: Seq<Op>,
    next: CoreState,
    remaining: Seq<Op>,
    step: Step,
    id: DeviceId,
    found: Option<Device>,
)
    requires
        state::steps(s, seq![Op::Distrust(id)] + rest, Reply::Device(found), next, remaining, step),
    ensures
        match found {
            Some(device) => leads_to(
                s,
                rest,
                next,
                remaining,
                step,
                seq![
                    Op::Do(
                        Action::AddOrUpdateDevice(
                            id,
                            Device { remote_certificate: None, ..device },
                        ),
                    ),
                ],
            ),
            None => leads_to(s, rest, next, remaining, step, Seq::<Op>::empty()),
        },
{
    lemma_first(Op::Distrust(id), rest);
}

/// The user wants to pair. An unknown device is called for and the user told that nothing came of
/// it. Of a paired one the user is told that it is paired. One that is asking is accepted, by the
/// clock where there is a time to compare. Any other is asked, with the time.
pub proof fn law_wanting_to_pair(
    s: CoreState,
    rest: Seq<Op>,
    next: CoreState,
    remaining: Seq<Op>,
    step: Step,
    id: DeviceId,
    found: Option<Device>,
)
    requires
        state::steps(
            s,
            seq![Op::PairWanted(id)] + rest,
            Reply::Device(found),
            next,
            remaining,
            step,
        ),
    ensures
        match found {
            None => leads_to(
                s,
                rest,
                next,
                remaining,
                step,
                seq![
                    Op::Do(Action::SendIdentity),
                    Op::Publish(ConnectionEvent::PairingTimedOut(id)),
                ],
            ),
            Some(device) => if device.pair_state == PairState::Paired {
                leads_to(
                    s,
                    rest,
                    next,
                    remaining,
                    step,
                    seq![Op::Publish(ConnectionEvent::PairStateChanged((id, PairState::Paired)))],
                )
            } else if device.pair_state != PairState::Requested {
                leads_to(
                    s,
                    rest,
                    next,
                    remaining,
                    step,
                    seq![Op::Do(Action::ReadUnixClock), Op::AskToPair(id)],
                )
            } else if device.protocol_version >= 8 && device.pairing_timestamp > 0 {
                leads_to(
                    s,
                    rest,
                    next,
                    remaining,
                    step,
                    seq![
                        Op::Do(Action::ReadUnixClock),
                        Op::AcceptInTime(id, device.pairing_timestamp),
                    ],
                )
            } else {
                leads_to(
                    s,
                    rest,
                    next,
                    remaining,
                    step,
                    seq![Op::Queue(id, yes(), Then::Accepted(id))],
                )
            },
        },
{
    lemma_first(Op::PairWanted(id), rest);
}

/// A request to pair records the time and carries it; the watch over it repeats the same request.
pub proof fn law_a_request_carries_the_time_it_was_made(
    s: CoreState,
    rest: Seq<Op>,
    next: CoreState,
    remaining: Seq<Op>,
    step: Step,
    id: DeviceId,
    now: u64,
)
    requires
        state::steps(s, seq![Op::AskToPair(id)] + rest, Reply::Time(now), next, remaining, step),
    ensures
        leads_to(s, rest, next, remaining, step, seq![
            Op::Do(Action::SetPairingTimestamp(id, now)),
            Op::Queue(
                id,
                bare(
                    PacketType::Pair,
                    PacketBody::Pair(Pair { pair: true, timestamp: Some(now) }),
                ),
                Then::Requested(id, Pair { pair: true, timestamp: Some(now) }),
            ),
        ]),
{
    lemma_first(Op::AskToPair(id), rest);
}

/// Only a device that is asking can be accepted; of any other the user is told that nothing came of
/// it. Where the protocol asks for it and the device stated a time, the clock is read first;
/// otherwise the acceptance is sent, and the device recorded as paired if it gets out.
pub proof fn law_accepting_a_request(
    s: CoreState,
    rest: Seq<Op>,
    next: CoreState,
    remaining: Seq<Op>,
    step: Step,
    id: DeviceId,
    found: Option<Device>,
)
    requires
        state::steps(s, seq![Op::Accept(id)] + rest, Reply::Device(found), next, remaining, step),
    ensures
        match found {
            None => leads_to(
                s,
                rest,
                next,
                remaining,
                step,
                seq![Op::Publish(ConnectionEvent::PairingTimedOut(id))],
            ),
            Some(device) => if device.pair_state != PairState::Requested {
                leads_to(
                    s,
                    rest,
                    next,
                    remaining,
                    step,
                    seq![Op::Publish(ConnectionEvent::PairingTimedOut(id))],
                )
            } else if device.protocol_version >= 8 && device.pairing_timestamp > 0 {
                leads_to(
                    s,
                    rest,
                    next,
                    remaining,
                    step,
                    seq![
                        Op::Do(Action::ReadUnixClock),
                        Op::AcceptInTime(id, device.pairing_timestamp),
                    ],
                )
            } else {
                leads_to(
                    s,
                    rest,
                    next,
                    remaining,
                    step,
                    seq![Op::Queue(id, yes(), Then::Accepted(id))],
                )
            },
        },
{
    lemma_first(Op::Accept(id), rest);
}

/// A request is accepted exactly if the stated time and the time here are at most half an hour
/// apart, whichever is ahead: then the acceptance is sent to that device, with the recording as
/// paired to follow, and nothing else happens. Otherwise it is refused: the refusal is sent, the
/// device recorded as not paired, the user told.
pub proof fn law_a_request_in_time_is_accepted(
    s: CoreState,
    rest: Seq<Op>,
    next: CoreState,
    remaining: Seq<Op>,
    step: Step,
    id: DeviceId,
    phone_ts: u64,
    now: u64,
)
    requires
        state::steps(
            s,
            seq![Op::AcceptInTime(id, phone_ts)] + rest,
            Reply::Time(now),
            next,
            remaining,
            step,
        ),
    ensures
        phone_ts - now <= 1800 && now - phone_ts <= 1800 ==> leads_to(
            s,
            rest,
            next,
            remaining,
            step,
            seq![Op::Queue(id, yes(), Then::Accepted(id))],
        ),
        (phone_ts - now > 1800 || now - phone_ts > 1800) ==> leads_to(
            s,
            rest,
            next,
            remaining,
            step,
            seq![
                Op::Queue(id, no(), Then::Nothing),
                Op::Do(Action::UpdatePairState(id, PairState::NotPaired)),
                Op::Publish(ConnectionEvent::PairingTimedOut(id)),
            ],
        ),
{
    lemma_first(Op::AcceptInTime(id, phone_ts), rest);
}

/// A device that is asking is sent the refusal and recorded as not paired; of any other the user is
/// told that nothing came of it.
pub proof fn law_refusing_a_request(
    s: CoreState,
    rest: Seq<Op>,
    next: CoreState,
    remaining: Seq<Op>,
    step: Step,
    id: DeviceId,
    found: Option<Device>,
)
    requires
        state::steps(s, seq![Op::Refuse(id)] + rest, Reply::Device(found), next, remaining, step),
    ensures
        found_as(found, PairState::Requested) ==> leads_to(
            s,
            rest,
            next,
            remaining,
            step,
            seq![
                Op::Queue(id, no(), Then::Nothing),
                Op::Do(Action::UpdatePairState(id, PairState::NotPaired)),
            ],
        ),
        !found_as(found, PairState::Requested) ==> leads_to(
            s,
            rest,
            next,
            remaining,
            step,
            seq![Op::Publish(ConnectionEvent::PairingTimedOut(id))],
        ),
{
    lemma_first(Op::Refuse(id), rest);
}

/// A request that the user left open is refused when its time is up; one that was answered is left
/// alone.
pub proof fn law_a_request_left_open_is_refused(
    s: CoreState,
    rest: Seq<Op>,
    next: CoreState,
    remaining: Seq<Op>,
    step: Step,
    id: DeviceId,
    found: Option<Device>,
)
    requires
        state::steps(
            s,
            seq![Op::IncomingTimeout(id)] + rest,
            Reply::Device(found),
            next,
            remaining,
            step,
        ),
    ensures
        found_as(found, PairState::Requested) ==> leads_to(
            s,
            rest,
            next,
            remaining,
            step,
            seq![
                Op::Post(CoreEvent::SendPacket { device: id, packet: no() }),
                Op::Do(Action::UpdatePairState(id, PairState::NotPaired)),
                Op::Publish(ConnectionEvent::PairingTimedOut(id)),
            ],
        ),
        !found_as(found, PairState::Requested) ==> leads_to(
            s,
            rest,
            next,
            remaining,
            step,
            Seq::<Op>::empty(),
        ),
{
    lemma_first(Op::IncomingTimeout(id), rest);
}

/// A request of this side that is still unanswered when its time is up is withdrawn: the peer is
/// told, the device recorded as not paired, the attempt forgotten, the user told. Where the request
/// had been sent at once and was answered, the attempt is over.
pub proof fn law_an_unanswered_request_is_withdrawn(
    s: CoreState,
    rest: Seq<Op>,
    next: CoreState,
    remaining: Seq<Op>,
    step: Step,
    id: DeviceId,
    sent_at_once: bool,
    found: Option<Device>,
)
    requires
        state::steps(
            s,
            seq![Op::FinalTimeout(id, sent_at_once)] + rest,
            Reply::Device(found),
            next,
            remaining,
            step,
        ),
    ensures
        match found {
            None => leads_to(s, rest, next, remaining, step, Seq::<Op>::empty()),
            Some(device) => if device.pair_state == PairState::Requesting {
                leads_to(
                    s,
                    rest,
                    next,
                    remaining,
                    step,
                    seq![
                        Op::Post(CoreEvent::SendPacket { device: id, packet: no() }),
                        Op::Do(Action::UpdatePairState(id, PairState::NotPaired)),
                        Op::ForgetAttempt(id),
                        Op::Publish(ConnectionEvent::PairingTimedOut(id)),
                    ],
                )
            } else if sent_at_once {
                leads_to(s, rest, next, remaining, step, seq![Op::ForgetAttempt(id)])
            } else {
                leads_to(s, rest, next, remaining, step, Seq::<Op>::empty())
            },
        },
{
    lemma_first(Op::FinalTimeout(id, sent_at_once), rest);
}

/// The program is asked for the action as it stands.
pub proof fn law_what_is_asked_for_is_what_was_to_be_done(
    s: CoreState,
    rest: Seq<Op>,
    next: CoreState,
    remaining: Seq<Op>,
    step: Step,
    action: Action,
    reply: Reply,
)
    requires
        state::steps(s, seq![Op::Do(action)] + rest, reply, next, remaining, step),
    ensures
        only_asks(s, rest, next, remaining, step, action),
{
    lemma_first(Op::Do(action), rest);
}

/// The attempt with a device is forgotten, and nothing else.
pub proof fn law_forgetting_an_attempt(
    s: CoreState,
    rest: Seq<Op>,
    next: CoreState,
    remaining: Seq<Op>,
    step: Step,
    id: DeviceId,
    reply: Reply,
)
    requires
        state::steps(s, seq![Op::ForgetAttempt(id)] + rest, reply, next, remaining, step),
    ensures
        only_changes(
            rest,
            next,
            remaining,
            step,
            CoreState { attempts: s.attempts.remove(id@), ..s },
        ),
{
    lemma_first(Op::ForgetAttempt(id), rest);
}

/// When a device was last told that it is not paired is forgotten, and nothing else.
pub proof fn law_clearing_a_notice(
    s: CoreState,
    rest: Seq<Op>,
    next: CoreState,
    remaining: Seq<Op>,
    step: Step,
    id: DeviceId,
    reply: Reply,
)
    requires
        state::steps(s, seq![Op::ClearResync(id)] + rest, reply, next, remaining, step),
    ensures
        only_changes(
            rest,
            next,
            remaining,
            step,
            CoreState { last_sent: s.last_sent.remove(id@), ..s },
        ),
{
    lemma_first(Op::ClearResync(id), rest);
}

/// An event is sent as it is, once to the user and once to the media player bridge, and nowhere
/// else.
pub proof fn law_what_is_published_reaches_user_and_bridge(
    s: CoreState,
    rest: Seq<Op>,
    next: CoreState,
    remaining: Seq<Op>,
    step: Step,
    event: ConnectionEvent,
    reply: Reply,
)
    requires
        state::steps(s, seq![Op::Publish(event)] + rest, reply, next, remaining, step),
    ensures
        step is Published && remaining == rest,
        next == (CoreState {
            user: Flow { sent: s.user.sent.push(event), ..s.user },
            bridge: Flow { sent: s.bridge.sent.push(event), ..s.bridge },
            ..s
        }),
{
    lemma_first(Op::Publish(event), rest);
}

/// A request is sent as it is, once, to the core itself, and nowhere else.
pub proof fn law_what_is_posted_reaches_the_core(
    s: CoreState,
    rest: Seq<Op>,
    next: CoreState,
    remaining: Seq<Op>,
    step: Step,
    event: CoreEvent,
    reply: Reply,
)
    requires
        state::steps(s, seq![Op::Post(event)] + rest, reply, next, remaining, step),
    ensures
        step is Posted && remaining == rest,
        next == (CoreState {
            events: Flow { sent: s.events.sent.push(event), ..s.events },
            ..s
        }),
{
    lemma_first(Op::Post(event), rest);
}

/// A connection is installed under its number for its device; the one it replaces, if any, is told
/// to shut down, and no other.
pub proof fn law_installing_a_connection(
    s: CoreState,
    rest: Seq<Op>,
    next: CoreState,
    remaining: Seq<Op>,
    step: Step,
    id: DeviceId,
    conn_id: u64,
    handle: ConnectionHandle,
    reply: Reply,
)
    requires
        state::steps(
            s,
            seq![Op::Install(id, conn_id, handle)] + rest,
            reply,
            next,
            remaining,
            step,
        ),
    ensures
        remaining == rest,
        next == (CoreState {
            writers: s.writers.insert(id@, handle@),
            conn_ids: s.conn_ids.insert(id@, conn_id),
            ..s
        }),
        if s.writers.contains_key(id@) {
            tells_to_shut_down(step, s.writers[id@])
        } else {
            step is Idle
        },
{
    lemma_first(Op::Install(id, conn_id, handle), rest);
}

/// A greeting asks for what its plugin needs exactly if that plugin is switched on for the device:
/// contacts for the list of contacts, notifications for the notifications, messages for the
/// conversations, the battery for its state, and this side's state is sent in turn, connectivity
/// for the report; the keyboard state and the command list are sent, the volume control started,
/// and the media players asked for.
pub proof fn law_what_greetings_ask_for(
    s: CoreState,
    rest: Seq<Op>,
    next: CoreState,
    remaining: Seq<Op>,
    step: Step,
    id: DeviceId,
    greeting: Greeting,
    reply: Reply,
)
    requires
        state::steps(s, seq![Op::Greet(id, greeting)] + rest, reply, next, remaining, step),
    ensures
        match greeting {
            Greeting::Contacts => leads_to_if(
                s,
                rest,
                next,
                remaining,
                step,
                is_on(s, id, "contacts"@),
                seq![
                    Op::Queue(
                        id,
                        bare(PacketType::ContactsRequestAllUidsTimestamps, PacketBody::Empty),
                        Then::Nothing,
                    ),
                ],
            ),
            Greeting::Notification => leads_to_if(
                s,
                rest,
                next,
                remaining,
                step,
                is_on(s, id, "notification"@),
                seq![
                    Op::Queue(
                        id,
                        bare(PacketType::NotificationRequest, PacketBody::Request),
                        Then::Nothing,
                    ),
                ],
            ),
            Greeting::Sms => leads_to_if(
                s,
                rest,
                next,
                remaining,
                step,
                is_on(s, id, "sms"@),
                seq![
                    Op::Queue(
                        id,
                        bare(PacketType::SmsRequestConversations, PacketBody::Empty),
                        Then::Nothing,
                    ),
                ],
            ),
            Greeting::Battery => leads_to_if(
                s,
                rest,
                next,
                remaining,
                step,
                is_on(s, id, "battery"@),
                seq![
                    Op::Queue(
                        id,
                        bare(PacketType::BatteryRequest, PacketBody::Request),
                        Then::Nothing,
                    ),
                    Op::Do(Action::SendBatteryState(id)),
                ],
            ),
            Greeting::Connectivity => leads_to_if(
                s,
                rest,
                next,
                remaining,
                step,
                is_on(s, id, "connectivity_report"@),
                seq![
                    Op::Queue(
                        id,
                        bare(PacketType::ConnectivityReportRequest, PacketBody::Empty),
                        Then::Nothing,
                    ),
                ],
            ),
            Greeting::Mousepad => leads_to_if(
                s,
                rest,
                next,
                remaining,
                step,
                is_on(s, id, "mousepad"@),
                seq![
                    Op::Queue(
                        id,
                        bare(PacketType::MousePadKeyboardState, PacketBody::KeyboardState),
                        Then::Nothing,
                    ),
                ],
            ),
            Greeting::RunCommand => leads_to_if(
                s,
                rest,
                next,
                remaining,
                step,
                is_on(s, id, "runcommand"@),
                seq![Op::Do(Action::SendCommandList(id))],
            ),
            Greeting::SystemVolume => leads_to_if(
                s,
                rest,
                next,
                remaining,
                step,
                is_on(s, id, "systemvolume"@),
                seq![Op::Do(Action::StartSystemVolume(id))],
            ),
            Greeting::MprisPlayers => leads_to_if(
                s,
                rest,
                next,
                remaining,
                step,
                is_on(s, id, "mpris"@),
                seq![
                    Op::Queue(
                        id,
                        bare(
                            PacketType::MprisRequest,
                            PacketBody::MprisRequest(
                                MprisRequest {
                                    player: None,
                                    request_now_playing: None,
                                    request_player_list: Some(true),
                                    request_volume: None,
                                    seek: None,
                                    set_loop_status: None,
                                    set_position: None,
                                    set_shuffle: None,
                                    set_volume: None,
                                    action: None,
                                    album_art_url: None,
                                },
                            ),
                        ),
                        Then::Nothing,
                    ),
                ],
            ),
        },
{
    lemma_first(Op::Greet(id, greeting), rest);
}

/// Before a packet is sent the device is looked up; the packet and what is to follow on it stay as
/// they are.
pub proof fn law_a_packet_is_sent_after_a_lookup(
    s: CoreState,
    rest: Seq<Op>,
    next: CoreState,
    remaining: Seq<Op>,
    step: Step,
    id: DeviceId,
    packet: ProtocolPacket,
    then: Then,
    reply: Reply,
)
    requires
        state::steps(s, seq![Op::Queue(id, packet, then)] + rest, reply, next, remaining, step),
    ensures
        next == s,
        step == Step::Act(Action::Lookup(id)),
        remaining == seq![Op::Offer(id, packet, then)] + rest,
{
    lemma_first(Op::Queue(id, packet, then), rest);
}

/// A packet is written, as it is, to the connection of its device and to no other, exactly if the
/// device is connected and the packet may go to a device like this. The step reports what the
/// connection answered. A packet that was taken has its follow-up; a connection that refused it is
/// dropped and the user told; and a packet that was refused, or not written, has the follow-up of
/// one that was not sent.
pub proof fn law_a_packet_goes_out_as_it_is(
    s: CoreState,
    rest: Seq<Op>,
    next: CoreState,
    remaining: Seq<Op>,
    step: Step,
    id: DeviceId,
    packet: ProtocolPacket,
    then: Then,
    found: Option<Device>,
)
    requires
        state::steps(
            s,
            seq![Op::Offer(id, packet, then)] + rest,
            Reply::Device(found),
            next,
            remaining,
            step,
        ),
    ensures
        if may_go(packet.packet_type, found) && s.writers.contains_key(id@) {
            &&& step matches Step::Offered(taken)
            &&& next == (CoreState {
                writers: s.writers.insert(
                    id@,
                    Link {
                        writes: Flow {
                            sent: s.writers[id@].writes.sent.push(packet),
                            ..s.writers[id@].writes
                        },
                        answers: s.writers[id@].answers.push(taken),
                        ..s.writers[id@]
                    },
                ),
                ..s
            })
            &&& remaining == (if taken {
                match then {
                    Then::Nothing => Seq::empty(),
                    Then::Accepted(who) => seq![Op::Do(Action::SetPaired(who))],
                    Then::Requested(who, pair) => seq![Op::BeginAttempt(who, pair, true)],
                    Then::Unpaired(who) => seq![
                        Op::Do(Action::Spawn(Job::UnpairCleanup { device: who, queued: true })),
                    ],
                    Then::Resync(who) => seq![Op::Do(Action::Spawn(Job::DropLater(who)))],
                }
            } else {
                seq![
                    Op::Drop(id, AfterDrop::Nothing),
                    Op::Do(Action::StopSystemVolume(id)),
                    Op::Do(Action::Lookup(id)),
                    Op::BroadcastIfPaired(id),
                    Op::Publish(ConnectionEvent::Disconnected(id)),
                ] + unsent(then)
            }) + rest
        } else {
            leads_to(s, rest, next, remaining, step, unsent(then))
        },
{
    lemma_first(Op::Offer(id, packet, then), rest);
    assert(s.written(id@, packet).answered(id@, true).writers =~= s.writers.insert(
        id@,
        s.writers[id@].with(packet).answered(true),
    ));
    assert(s.written(id@, packet).answered(id@, false).writers =~= s.writers.insert(
        id@,
        s.writers[id@].with(packet).answered(false),
    ));
    match then {
        Then::Nothing => {},
        Then::Accepted(_) => {},
        Then::Requested(_, _) => {},
        Then::Unpaired(_) => {},
        Then::Resync(_) => {},
    }
}

/// What is due once the connection of a device was dropped.
pub open spec fn dropped(id: DeviceId, after: AfterDrop) -> Seq<Op> {
    match after {
        AfterDrop::Nothing => Seq::empty(),
        AfterDrop::StopVolume => seq![Op::Do(Action::StopSystemVolume(id))],
        AfterDrop::Tell => seq![
            Op::Do(Action::StopSystemVolume(id)),
            Op::Publish(ConnectionEvent::Disconnected(id)),
        ],
        AfterDrop::Broadcast => seq![
            Op::Do(Action::StopSystemVolume(id)),
            Op::Do(Action::Lookup(id)),
            Op::BroadcastIfPaired(id),
            Op::Publish(ConnectionEvent::Disconnected(id)),
        ],
    }
}

/// Whether a step forgets the connection of a device and its number, and, exactly if there was one,
/// tells it to shut down and does what is due then.
pub open spec fn lets_go(
    s: CoreState,
    id: DeviceId,
    after: AfterDrop,
    rest: Seq<Op>,
    next: CoreState,
    remaining: Seq<Op>,
    step: Step,
) -> bool {
    &&& next == (CoreState {
        writers: s.writers.remove(id@),
        conn_ids: s.conn_ids.remove(id@),
        ..s
    })
    &&& if s.writers.contains_key(id@) {
        remaining == dropped(id, after) + rest && tells_to_shut_down(step, s.writers[id@])
    } else {
        remaining == rest && step is Idle
    }
}

/// The connection of a device and its number are forgotten, and the connection, if there was one,
/// told to shut down; what is due then follows exactly if there was one.
pub proof fn law_dropping_a_connection(
    s: CoreState,
    rest: Seq<Op>,
    next: CoreState,
    remaining: Seq<Op>,
    step: Step,
    id: DeviceId,
    after: AfterDrop,
    reply: Reply,
)
    requires
        state::steps(s, seq![Op::Drop(id, after)] + rest, reply, next, remaining, step),
    ensures
        lets_go(s, id, after, rest, next, remaining, step),
{
    lemma_first(Op::Drop(id, after), rest);
}

/// A connection is dropped by its number exactly if it is the one its device has.
pub proof fn law_dropping_a_connection_by_its_number(
    s: CoreState,
    rest: Seq<Op>,
    next: CoreState,
    remaining: Seq<Op>,
    step: Step,
    id: DeviceId,
    conn_id: u64,
    after: AfterDrop,
    reply: Reply,
)
    requires
        state::steps(
            s,
            seq![Op::DropIfCurrent(id, conn_id, after)] + rest,
            reply,
            next,
            remaining,
            step,
        ),
    ensures
        if s.conn_ids.contains_key(id@) && s.conn_ids[id@] == conn_id {
            lets_go(s, id, after, rest, next, remaining, step)
        } else {
            only_changes(rest, next, remaining, step, s)
        },
{
    lemma_first(Op::DropIfCurrent(id, conn_id, after), rest);
}

/// A packet is handed to its plugin as it came and with the device as it was found; of an unknown
/// device nobody takes packets.
pub proof fn law_packets_are_dispatched_as_they_came(
    s: CoreState,
    rest: Seq<Op>,
    next: CoreState,
    remaining: Seq<Op>,
    step: Step,
    packet: ProtocolPacket,
    found: Option<Device>,
)
    requires
        state::steps(
            s,
            seq![Op::DispatchTo(packet)] + rest,
            Reply::Device(found),
            next,
            remaining,
            step,
        ),
    ensures
        match found {
            Some(device) => only_asks(
                s,
                rest,
                next,
                remaining,
                step,
                Action::Dispatch(device, packet),
            ),
            None => only_changes(rest, next, remaining, step, s),
        },
{
    lemma_first(Op::DispatchTo(packet), rest);
}

/// A plugin is asked to send the packet as it is, to the device as it was found; to an unknown
/// device nothing is sent.
pub proof fn law_plugins_send_what_they_are_given(
    s: CoreState,
    rest: Seq<Op>,
    next: CoreState,
    remaining: Seq<Op>,
    step: Step,
    packet: ProtocolPacket,
    found: Option<Device>,
)
    requires
        state::steps(
            s,
            seq![Op::PluginSendTo(packet)] + rest,
            Reply::Device(found),
            next,
            remaining,
            step,
        ),
    ensures
        match found {
            Some(device) => only_asks(
                s,
                rest,
                next,
                remaining,
                step,
                Action::PluginSend(device, packet),
            ),
            None => only_changes(rest, next, remaining, step, s),
        },
{
    lemma_first(Op::PluginSendTo(packet), rest);
}

/// A payload and its packet are sent as they are, over the connection of the device, exactly if the
/// device is connected and the packet may go to a device like this; otherwise the payload is let go
/// of.
pub proof fn law_payloads_go_with_their_packet(
    s: CoreState,
    rest: Seq<Op>,
    next: CoreState,
    remaining: Seq<Op>,
    step: Step,
    id: DeviceId,
    packet: ProtocolPacket,
    payload: Payload,
    found: Option<Device>,
)
    requires
        state::steps(
            s,
            seq![Op::PayloadGate(id, packet, payload)] + rest,
            Reply::Device(found),
            next,
            remaining,
            step,
        ),
    ensures
        remaining == rest,
        if may_go(packet.packet_type, found) && s.writers.contains_key(id@) {
            &&& step matches Step::Act(Action::SendPayload { sender, packet: p, payload: y })
            &&& *sender == s.writers[id@].writes.channel && p == packet && y == payload
            &&& next == (CoreState {
                writers: s.writers.insert(
                    id@,
                    Link {
                        writes: Flow {
                            copies: s.writers[id@].writes.copies + 1,
                            ..s.writers[id@].writes
                        },
                        ..s.writers[id@]
                    },
                ),
                ..s
            })
        } else {
            next == s && step == Step::Act(Action::DiscardPayload(payload))
        },
{
    lemma_first(Op::PayloadGate(id, packet, payload), rest);
}

/// Files are prepared, all of them and no others, exactly if the device is connected and was found
/// to be paired; what is prepared goes over its connection.
pub proof fn law_files_go_to_paired_devices(
    s: CoreState,
    rest: Seq<Op>,
    next: CoreState,
    remaining: Seq<Op>,
    step: Step,
    id: DeviceId,
    files: Vec<String>,
    found: Option<Device>,
)
    requires
        state::steps(
            s,
            seq![Op::ShareGate(id, files)] + rest,
            Reply::Device(found),
            next,
            remaining,
            step,
        ),
    ensures
        if found_as(found, PairState::Paired) && s.writers.contains_key(id@) {
            &&& step == Step::Act(Action::PrepareShare(files))
            &&& remaining.len() == rest.len() + 1
            &&& remaining[0] matches Op::Share(sender)
            &&& *sender == s.writers[id@].writes.channel
            &&& remaining.skip(1) == rest
            &&& next == (CoreState {
                writers: s.writers.insert(
                    id@,
                    Link {
                        writes: Flow {
                            copies: s.writers[id@].writes.copies + 1,
                            ..s.writers[id@].writes
                        },
                        ..s.writers[id@]
                    },
                ),
                ..s
            })
        } else {
            only_changes(rest, next, remaining, step, s)
        },
{
    lemma_first(Op::ShareGate(id, files), rest);
    if remaining.len() == rest.len() + 1 {
        assert(remaining.skip(1) =~= rest);
    }
}

/// A stranger is told that it is not paired exactly if it was never told, or two seconds have
/// passed since; that is then recorded. Otherwise its connection is dropped at once.
pub proof fn law_strangers_are_told_by_the_clock(
    s: CoreState,
    rest: Seq<Op>,
    next: CoreState,
    remaining: Seq<Op>,
    step: Step,
    id: DeviceId,
    now: u64,
)
    requires
        state::steps(s, seq![Op::Resync(id)] + rest, Reply::Time(now), next, remaining, step),
    ensures
        step is Idle,
        if !s.last_sent.contains_key(id@) || now - s.last_sent[id@] >= 2_000_000_000 {
            &&& next == (CoreState { last_sent: s.last_sent.insert(id@, now), ..s })
            &&& remaining == seq![Op::Queue(id, no(), Then::Resync(id))] + rest
        } else {
            next == s && remaining == seq![Op::Drop(id, AfterDrop::StopVolume)] + rest
        },
{
    lemma_first(Op::Resync(id), rest);
}

/// A pairing attempt gets the number after that of the attempt before, or the first; the device is
/// recorded as asked and the attempt watched over under its number, with the request that was made.
pub proof fn law_attempts_are_numbered(
    s: CoreState,
    rest: Seq<Op>,
    next: CoreState,
    remaining: Seq<Op>,
    step: Step,
    id: DeviceId,
    pair: Pair,
    queued: bool,
    reply: Reply,
)
    requires
        state::steps(
            s,
            seq![Op::BeginAttempt(id, pair, queued)] + rest,
            reply,
            next,
            remaining,
            step,
        ),
    ensures
        step is Idle,
        next.attempts.contains_key(id@),
        next == (CoreState {
            attempts: s.attempts.insert(id@, next.attempts[id@]),
            ..s
        }),
        if !s.attempts.contains_key(id@) {
            next.attempts[id@] == 1
        } else if s.attempts[id@] < u64::MAX {
            next.attempts[id@] == s.attempts[id@] + 1
        } else {
            next.attempts[id@] == 0
        },
        remaining == seq![
            Op::Do(Action::UpdatePairState(id, PairState::Requesting)),
            Op::Do(
                Action::Spawn(
                    Job::PairWatch { device: id, attempt: next.attempts[id@], queued, pair },
                ),
            ),
        ] + rest,
{
    lemma_first(Op::BeginAttempt(id, pair, queued), rest);
}

/// Whether a set of plugins that are off differs from another by one plugin at most, and that is now
/// as it should be.
pub open spec fn switched(
    before: Set<Seq<char>>,
    plugin: Seq<char>,
    on: bool,
    after: Set<Seq<char>>,
) -> bool {
    &&& after.contains(plugin) == !on
    &&& forall|other: Seq<char>|
        other != plugin ==> #[trigger] after.contains(other) == before.contains(other)
}

/// When a plugin is switched, the stored set with that plugin taken out or added, and no other
/// change, is saved, put in force for the device, and the connection dropped.
pub proof fn law_a_switched_plugin_is_saved_and_put_in_force(
    s: CoreState,
    rest: Seq<Op>,
    next: CoreState,
    remaining: Seq<Op>,
    step: Step,
    id: DeviceId,
    plugin: String,
    on: bool,
    stored: PluginSet,
)
    requires
        state::steps(
            s,
            seq![Op::Toggle(id, plugin, on)] + rest,
            Reply::Disabled(stored),
            next,
            remaining,
            step,
        ),
    ensures
        next == s && step is Idle,
        exists|set: Arc<PluginSet>| #[trigger]
            switched(stored@, plugin@, on, (*set)@) && remaining == seq![
                Op::Do(Action::SaveDisabled(id, set)),
                Op::SetDisabled(id, set),
                Op::Drop(id, AfterDrop::StopVolume),
            ] + rest,
{
    lemma_first(Op::Toggle(id, plugin, on), rest);
    let set = choose|set: Arc<PluginSet>|
        (*set)@ == user::toggled(stored@, plugin@, on) && remaining
            == #[trigger] user::apply_disabled(id, set) + rest;
    assert(switched(stored@, plugin@, on, (*set)@));
}

/// The plugins given are those that are off for the device from now on, and no others.
pub proof fn law_settings_are_put_in_force(
    s: CoreState,
    rest: Seq<Op>,
    next: CoreState,
    remaining: Seq<Op>,
    step: Step,
    id: DeviceId,
    set: Arc<PluginSet>,
    reply: Reply,
)
    requires
        state::steps(s, seq![Op::SetDisabled(id, set)] + rest, reply, next, remaining, step),
    ensures
        only_changes(
            rest,
            next,
            remaining,
            step,
            CoreState { disabled: s.disabled.insert(id@, (*set)@), ..s },
        ),
{
    lemma_first(Op::SetDisabled(id, set), rest);
}

/// The plugins that were read back as off are those that are off for the device from now on, and no
/// others.
pub proof fn law_stored_settings_are_put_in_force(
    s: CoreState,
    rest: Seq<Op>,
    next: CoreState,
    remaining: Seq<Op>,
    step: Step,
    id: DeviceId,
    stored: PluginSet,
)
    requires
        state::steps(
            s,
            seq![Op::RestoreDisabled(id)] + rest,
            Reply::Disabled(stored),
            next,
            remaining,
            step,
        ),
    ensures
        only_changes(
            rest,
            next,
            remaining,
            step,
            CoreState { disabled: s.disabled.insert(id@, stored@), ..s },
        ),
{
    lemma_first(Op::RestoreDisabled(id), rest);
}

/// A watch goes on exactly if its attempt is the latest with its device, and ends otherwise.
pub proof fn law_a_superseded_watch_ends(
    s: CoreState,
    rest: Seq<Op>,
    next: CoreState,
    remaining: Seq<Op>,
    step: Step,
    id: DeviceId,
    attempt: u64,
    reply: Reply,
)
    requires
        state::steps(s, seq![Op::CheckAttempt(id, attempt)] + rest, reply, next, remaining, step),
    ensures
        next == s && step is Idle,
        if s.attempts.contains_key(id@) && s.attempts[id@] == attempt {
            remaining == rest
        } else {
            remaining.len() == 0
        },
{
    lemma_first(Op::CheckAttempt(id, attempt), rest);
}

/// A pairing request that is tried again is written, as it was made, to the connection of the
/// device if there is one. If the connection took it, its time runs for half a minute; if not, it
/// is tried again after half a second, as often as tries are left.
pub proof fn law_a_request_is_tried_again_until_sent(
    s: CoreState,
    rest: Seq<Op>,
    next: CoreState,
    remaining: Seq<Op>,
    step: Step,
    id: DeviceId,
    pair: Pair,
    retries: u32,
    reply: Reply,
)
    requires
        state::steps(s, seq![Op::Poll(id, pair, retries)] + rest, reply, next, remaining, step),
    ensures
        s.writers.contains_key(id@) ==> {
            &&& step matches Step::Offered(taken)
            &&& next == (CoreState {
                writers: s.writers.insert(
                    id@,
                    Link {
                        writes: Flow {
                            sent: s.writers[id@].writes.sent.push(
                                bare(PacketType::Pair, PacketBody::Pair(pair)),
                            ),
                            ..s.writers[id@].writes
                        },
                        answers: s.writers[id@].answers.push(taken),
                        ..s.writers[id@]
                    },
                ),
                ..s
            })
        },
        !s.writers.contains_key(id@) ==> next == s && step is Idle,
        remaining == (if step == Step::Offered(true) {
            seq![Op::Do(Action::Sleep(30_000))]
        } else if retries > 0 {
            seq![Op::Do(Action::Sleep(500)), Op::Poll(id, pair, (retries - 1) as u32)]
        } else {
            Seq::empty()
        }) + rest,
{
    lemma_first(Op::Poll(id, pair, retries), rest);
    let packet = bare(PacketType::Pair, PacketBody::Pair(pair));
    assert(s.written(id@, packet).answered(id@, true).writers =~= s.writers.insert(
        id@,
        s.writers[id@].with(packet).answered(true),
    ));
    assert(s.written(id@, packet).answered(id@, false).writers =~= s.writers.insert(
        id@,
        s.writers[id@].with(packet).answered(false),
    ));
}

/// Whether an operation can do with this answer. Most take any; the others need to know of a device,
/// of a new record, of a saved one, whether a request is new, of files or a payload, of settings, or
/// the time.
pub open spec fn can_do_with(op: Op, reply: Reply) -> bool {
    match op {
        Op::Offer(..)
        | Op::BroadcastIfPaired(..)
        | Op::DispatchTo(..)
        | Op::PayloadGate(..)
        | Op::ShareGate(..)
        | Op::PluginSendTo(..)
        | Op::PairReceived(..)
        | Op::PacketReceived(..)
        | Op::Disown(..)
        | Op::FailPairing(..)
        | Op::Distrust(..)
        | Op::PairWanted(..)
        | Op::Accept(..)
        | Op::Refuse(..)
        | Op::IncomingTimeout(..)
        | Op::FinalTimeout(..) => reply is Device,
        Op::Admit(..) => reply is Discovered,
        Op::Settle(..) => reply is Saved,
        Op::PairAsked(..) => reply is NewRequest,
        Op::Share(..) => reply is Shares,
        Op::ShareFile(..) => reply is Opened,
        Op::Toggle(..) | Op::RestoreDisabled(..) => reply is Disabled,
        Op::Resync(..) | Op::AskToPair(..) | Op::AcceptInTime(..) => reply is Time,
        _ => true,
    }
}

/// A step is refused, and changes nothing, exactly if the operation cannot do with the answer; and a
/// task that is at its end stays there.
pub proof fn law_unfit_answers_are_refused(
    s: CoreState,
    ops: Seq<Op>,
    reply: Reply,
    next: CoreState,
    remaining: Seq<Op>,
    step: Step,
)
    requires
        state::steps(s, ops, reply, next, remaining, step),
    ensures
        step is Finished <==> ops.len() == 0,
        step is WrongReply <==> ops.len() > 0 && !can_do_with(ops[0], reply),
        step is Finished || step is WrongReply ==> next == s && remaining == ops,
        step matches Step::WrongReply(back) ==> back == reply,
{
}

/// An answer fits where any will do, and otherwise where it is of the very kind that is asked for.
pub proof fn law_answers_fit_by_their_kind(takes: Takes, reply: Reply)
    ensures
        crate::task::fits(takes, reply) <==> match takes {
            Takes::Anything => true,
            Takes::Device => reply is Device,
            Takes::Discovered => reply is Discovered,
            Takes::Saved => reply is Saved,
            Takes::NewRequest => reply is NewRequest,
            Takes::Shares => reply is Shares,
            Takes::Opened => reply is Opened,
            Takes::Disabled => reply is Disabled,
            Takes::Time => reply is Time,
        },
{
}

} // verus!
