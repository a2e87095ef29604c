//! What the parts of the program ask of the core.
use vstd::prelude::*;

use crate::device::PairState;
use crate::event::{ConnectionEvent, CoreEvent};
use crate::plan;
use crate::plan::lookup_op;
use crate::task::{Action, Greeting, Op, Then};

verus! {

/// What a request to the core leads to.
pub open spec fn core_ops(event: CoreEvent) -> Seq<Op> {
    match event {
        CoreEvent::PacketReceived { device, packet } => seq![
            plan::lookup(device),
            Op::DispatchTo(packet),
        ],
        CoreEvent::DeviceDiscovered(_) => seq![],
        CoreEvent::DevicePaired((id, device)) => seq![
            Op::ForgetAttempt(id),
            Op::ClearResync(id),
            Op::Greet(id, Greeting::Contacts),
            Op::Greet(id, Greeting::Sms),
            Op::Greet(id, Greeting::MprisPlayers),
            Op::Publish(ConnectionEvent::DevicePaired((id, device))),
        ],
        CoreEvent::DevicePairCancelled(id) => seq![
            Op::ForgetAttempt(id),
            Op::ClearResync(id),
            Op::Do(Action::StopSystemVolume(id)),
            Op::Publish(ConnectionEvent::PairStateChanged((id, PairState::NotPaired))),
        ],
        CoreEvent::DevicePairStateChanged((id, state)) => {
            let settled = if state == PairState::NotPaired || state == PairState::Paired {
                seq![Op::ForgetAttempt(id), Op::ClearResync(id)]
            } else {
                seq![]
            };
            let volume = if state == PairState::NotPaired {
                seq![Op::Do(Action::StopSystemVolume(id))]
            } else {
                seq![]
            };
            settled + volume + seq![Op::Publish(ConnectionEvent::PairStateChanged((id, state)))]
        },
        CoreEvent::SendPacket { device, packet } => seq![Op::Queue(device, packet, Then::Nothing)],
        CoreEvent::SendPaylod { device, packet, payload } => seq![
            plan::lookup(device),
            Op::PayloadGate(device, packet, payload),
        ],
        CoreEvent::Error(_) => seq![],
    }
}

/// Decides what a request to the core leads to.
pub fn plan_core(event: CoreEvent) -> (ops: Vec<Op>)
    ensures
        ops@ == core_ops(event),
{
    match event {
        CoreEvent::PacketReceived { device, packet } => vec![
            Op::Do(Action::Lookup(device)),
            Op::DispatchTo(packet),
        ],
        CoreEvent::DeviceDiscovered(_) => Vec::new(),
        CoreEvent::DevicePaired((id, device)) => vec![
            Op::ForgetAttempt(id.duplicate()),
            Op::ClearResync(id.duplicate()),
            Op::Greet(id.duplicate(), Greeting::Contacts),
            Op::Greet(id.duplicate(), Greeting::Sms),
            Op::Greet(id.duplicate(), Greeting::MprisPlayers),
            Op::Publish(ConnectionEvent::DevicePaired((id, device))),
        ],
        CoreEvent::DevicePairCancelled(id) => vec![
            Op::ForgetAttempt(id.duplicate()),
            Op::ClearResync(id.duplicate()),
            Op::Do(Action::StopSystemVolume(id.duplicate())),
            Op::Publish(ConnectionEvent::PairStateChanged((id, PairState::NotPaired))),
        ],
        CoreEvent::DevicePairStateChanged((id, state)) => {
            let mut ops: Vec<Op> = Vec::new();
            if matches!(state, PairState::NotPaired | PairState::Paired) {
                ops.push(Op::ForgetAttempt(id.duplicate()));
                ops.push(Op::ClearResync(id.duplicate()));
            }
            if matches!(state, PairState::NotPaired) {
                ops.push(Op::Do(Action::StopSystemVolume(id.duplicate())));
            }
            ops.push(Op::Publish(ConnectionEvent::PairStateChanged((id, state))));
            assert(ops@ =~= core_ops(event));
            ops
        },
        CoreEvent::SendPacket { device, packet } => vec![Op::Queue(device, packet, Then::Nothing)],
        CoreEvent::SendPaylod { device, packet, payload } => vec![
            lookup_op(&device),
            Op::PayloadGate(device, packet, payload),
        ],
        CoreEvent::Error(_) => Vec::new(),
    }
}

} // verus!
