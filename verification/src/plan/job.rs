//! Work that runs beside the rest.
use vstd::prelude::*;

use crate::connection::{
    pair_false_packet, PAIRING_TIMEOUT_SECS, UNPAIRED_RESYNC_DROP_DELAY,
};
use crate::device::{Device, DeviceId, PairState};
use crate::event::CoreEvent;
use crate::plan;
use crate::plan::{joined, lookup_op, timed_out_op, unpair_op};
use crate::protocol::Pair;
use crate::task::{Action, AfterDrop, Job, Op};

verus! {

/// How long an unpaired device keeps its connection after the notice, in milliseconds.
pub const UNPAIR_DROP_DELAY: u64 = 250;

/// How long the watch over a pairing request waits between two tries to send it, in milliseconds.
pub const PAIR_POLL_INTERVAL: u64 = 500;

/// How often the watch over a pairing request tries again after the first try.
pub const PAIR_POLL_RETRIES: u32 = 29;

/// The waiting time for an answer to a pairing request, in milliseconds.
pub open spec fn pairing_timeout_ms() -> u64 {
    (PAIRING_TIMEOUT_SECS * 1000) as u64
}

/// The watch over a request that was sent at once: it waits for an answer, and gives up.
pub open spec fn watch_sent(id: DeviceId, attempt: u64) -> Seq<Op> {
    seq![
        Op::Do(Action::Sleep(pairing_timeout_ms())),
        Op::CheckAttempt(id, attempt),
        plan::lookup(id),
        Op::FinalTimeout(id, true),
    ]
}

/// The watch over a request that could not be sent at once: it tries to send it, waits for an
/// answer if that succeeds, and gives up.
pub open spec fn watch_unsent(id: DeviceId, attempt: u64, pair: Pair) -> Seq<Op> {
    seq![
        Op::Do(Action::Sleep(PAIR_POLL_INTERVAL)),
        Op::Poll(id, pair, PAIR_POLL_RETRIES),
        Op::CheckAttempt(id, attempt),
        plan::lookup(id),
        Op::FinalTimeout(id, false),
    ]
}

/// What a job consists of.
pub open spec fn job_ops(job: Job) -> Seq<Op> {
    match job {
        Job::IncomingPairTimeout(id) => seq![
            Op::Do(Action::Sleep(pairing_timeout_ms())),
            plan::lookup(id),
            Op::IncomingTimeout(id),
        ],
        Job::DropLater(id) => seq![
            Op::Do(Action::Sleep(UNPAIRED_RESYNC_DROP_DELAY)),
            Op::Drop(id, AfterDrop::Nothing),
        ],
        Job::UnpairCleanup { device: id, queued } => {
            let wait = if queued {
                seq![Op::Do(Action::Sleep(UNPAIR_DROP_DELAY))]
            } else {
                seq![]
            };
            wait + seq![Op::Do(Action::CleanUp(id)), Op::Drop(id, AfterDrop::StopVolume)]
        },
        Job::PairWatch { device: id, attempt, queued, pair } => if queued {
            watch_sent(id, attempt)
        } else {
            watch_unsent(id, attempt, pair)
        },
    }
}

/// Decides what a job consists of.
pub fn plan_job(job: Job) -> (ops: Vec<Op>)
    ensures
        ops@ == job_ops(job),
{
    let timeout: u64 = PAIRING_TIMEOUT_SECS * 1000;
    match job {
        Job::IncomingPairTimeout(id) => vec![
            Op::Do(Action::Sleep(timeout)),
            lookup_op(&id),
            Op::IncomingTimeout(id),
        ],
        Job::DropLater(id) => vec![
            Op::Do(Action::Sleep(UNPAIRED_RESYNC_DROP_DELAY)),
            Op::Drop(id, AfterDrop::Nothing),
        ],
        Job::UnpairCleanup { device: id, queued } => {
            let wait = if queued {
                vec![Op::Do(Action::Sleep(UNPAIR_DROP_DELAY))]
            } else {
                Vec::new()
            };
            joined(
                wait,
                vec![
                    Op::Do(Action::CleanUp(id.duplicate())),
                    Op::Drop(id, AfterDrop::StopVolume),
                ],
            )
        },
        Job::PairWatch { device: id, attempt, queued, pair } => if queued {
            vec![
                Op::Do(Action::Sleep(timeout)),
                Op::CheckAttempt(id.duplicate(), attempt),
                lookup_op(&id),
                Op::FinalTimeout(id, true),
            ]
        } else {
            vec![
                Op::Do(Action::Sleep(PAIR_POLL_INTERVAL)),
                Op::Poll(id.duplicate(), pair, PAIR_POLL_RETRIES),
                Op::CheckAttempt(id.duplicate(), attempt),
                lookup_op(&id),
                Op::FinalTimeout(id, false),
            ]
        },
    }
}

/// Refuse a peer's request that the user left unanswered.
pub open spec fn incoming_timeout(id: DeviceId, found: Option<Device>) -> Seq<Op> {
    if crate::device::pair_state_of(found) == Some(PairState::Requested) {
        seq![
            Op::Post(
                CoreEvent::SendPacket { device: id, packet: crate::connection::pair_false() },
            ),
            plan::unpair(id),
            plan::tell_timed_out(id),
        ]
    } else {
        seq![]
    }
}

/// Decides whether a peer's request was left unanswered.
pub fn plan_incoming_timeout(id: DeviceId, found: Option<Device>) -> (ops: Vec<Op>)
    ensures
        ops@ == incoming_timeout(id, found),
{
    let requested = match found {
        Some(device) => matches!(device.pair_state, PairState::Requested),
        None => false,
    };
    if requested {
        vec![
            Op::Post(
                CoreEvent::SendPacket { device: id.duplicate(), packet: pair_false_packet() },
            ),
            unpair_op(&id),
            timed_out_op(&id),
        ]
    } else {
        Vec::new()
    }
}

/// What follows on a try to send a pairing request.
pub open spec fn after_poll(id: DeviceId, pair: Pair, retries: u32, sent: bool) -> Seq<Op> {
    if sent {
        seq![Op::Do(Action::Sleep(pairing_timeout_ms()))]
    } else if retries > 0 {
        seq![
            Op::Do(Action::Sleep(PAIR_POLL_INTERVAL)),
            Op::Poll(id, pair, (retries - 1) as u32),
        ]
    } else {
        seq![]
    }
}

/// Decides what follows on a try to send a pairing request.
pub fn plan_after_poll(id: DeviceId, pair: Pair, retries: u32, sent: bool) -> (ops: Vec<Op>)
    ensures
        ops@ == after_poll(id, pair, retries, sent),
{
    if sent {
        vec![Op::Do(Action::Sleep(PAIRING_TIMEOUT_SECS * 1000))]
    } else if retries > 0 {
        vec![Op::Do(Action::Sleep(PAIR_POLL_INTERVAL)), Op::Poll(id, pair, retries - 1)]
    } else {
        Vec::new()
    }
}

/// Give up on a request that is still unanswered. An attempt whose request was sent at once, and
/// which was settled meanwhile, is over.
pub open spec fn final_timeout(id: DeviceId, sent_at_once: bool, found: Option<Device>) -> Seq<Op> {
    match crate::device::pair_state_of(found) {
        Some(PairState::Requesting) => seq![
            Op::Post(
                CoreEvent::SendPacket { device: id, packet: crate::connection::pair_false() },
            ),
            plan::unpair(id),
            Op::ForgetAttempt(id),
            plan::tell_timed_out(id),
        ],
        Some(_) => if sent_at_once {
            seq![Op::ForgetAttempt(id)]
        } else {
            seq![]
        },
        None => seq![],
    }
}

/// Decides whether to give up on a request.
pub fn plan_final_timeout(id: DeviceId, sent_at_once: bool, found: Option<Device>) -> (ops: Vec<Op>)
    ensures
        ops@ == final_timeout(id, sent_at_once, found),
{
    match found {
        Some(device) => match device.pair_state {
            PairState::Requesting => vec![
                Op::Post(
                    CoreEvent::SendPacket { device: id.duplicate(), packet: pair_false_packet() },
                ),
                unpair_op(&id),
                Op::ForgetAttempt(id.duplicate()),
                timed_out_op(&id),
            ],
            _ => if sent_at_once {
                vec![Op::ForgetAttempt(id)]
            } else {
                Vec::new()
            },
        },
        None => Vec::new(),
    }
}

} // verus!
