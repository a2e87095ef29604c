//! What a device is asked for, or sent, when it becomes available.
use vstd::prelude::*;

use crate::device::DeviceId;
use crate::plan;
use crate::plan::just_queue_op;
use crate::protocol::{MprisRequest, PacketBody, PacketType};
use crate::task::{Action, Greeting, Op};

verus! {

/// The plugin that a greeting belongs to.
pub open spec fn greeting_plugin(greeting: Greeting) -> Seq<char> {
    match greeting {
        Greeting::Contacts => "contacts"@,
        Greeting::Notification => "notification"@,
        Greeting::Sms => "sms"@,
        Greeting::Battery => "battery"@,
        Greeting::Connectivity => "connectivity_report"@,
        Greeting::Mousepad => "mousepad"@,
        Greeting::RunCommand => "runcommand"@,
        Greeting::SystemVolume => "systemvolume"@,
        Greeting::MprisPlayers => "mpris"@,
    }
}

/// The plugin that a greeting belongs to.
pub fn plugin_for_greeting(greeting: Greeting) -> (plugin: &'static str)
    ensures
        plugin@ == greeting_plugin(greeting),
{
    match greeting {
        Greeting::Contacts => "contacts",
        Greeting::Notification => "notification",
        Greeting::Sms => "sms",
        Greeting::Battery => "battery",
        Greeting::Connectivity => "connectivity_report",
        Greeting::Mousepad => "mousepad",
        Greeting::RunCommand => "runcommand",
        Greeting::SystemVolume => "systemvolume",
        Greeting::MprisPlayers => "mpris",
    }
}

/// What a greeting consists of.
pub open spec fn greeting_ops(id: DeviceId, greeting: Greeting) -> Seq<Op> {
    match greeting {
        Greeting::Contacts => seq![
            plan::just_queue(id, PacketType::ContactsRequestAllUidsTimestamps, PacketBody::Empty),
        ],
        Greeting::Notification => seq![
            plan::just_queue(id, PacketType::NotificationRequest, PacketBody::Request),
        ],
        Greeting::Sms => seq![
            plan::just_queue(id, PacketType::SmsRequestConversations, PacketBody::Empty),
        ],
        Greeting::Battery => seq![
            plan::just_queue(id, PacketType::BatteryRequest, PacketBody::Request),
            Op::Do(Action::SendBatteryState(id)),
        ],
        Greeting::Connectivity => seq![
            plan::just_queue(id, PacketType::ConnectivityReportRequest, PacketBody::Empty),
        ],
        Greeting::Mousepad => seq![
            plan::just_queue(id, PacketType::MousePadKeyboardState, PacketBody::KeyboardState),
        ],
        Greeting::RunCommand => seq![Op::Do(Action::SendCommandList(id))],
        Greeting::SystemVolume => seq![Op::Do(Action::StartSystemVolume(id))],
        Greeting::MprisPlayers => seq![
            plan::just_queue(
                id,
                PacketType::MprisRequest,
                PacketBody::MprisRequest(
                    MprisRequest { request_player_list: Some(true), ..MprisRequest::nothing() },
                ),
            ),
        ],
    }
}

/// Decides what a greeting consists of.
pub fn plan_greeting(id: DeviceId, greeting: Greeting) -> (ops: Vec<Op>)
    ensures
        ops@ == greeting_ops(id, greeting),
{
    match greeting {
        Greeting::Contacts => vec![
            just_queue_op(id, PacketType::ContactsRequestAllUidsTimestamps, PacketBody::Empty),
        ],
        Greeting::Notification => vec![
            just_queue_op(id, PacketType::NotificationRequest, PacketBody::Request),
        ],
        Greeting::Sms => vec![
            just_queue_op(id, PacketType::SmsRequestConversations, PacketBody::Empty),
        ],
        Greeting::Battery => vec![
            just_queue_op(id.duplicate(), PacketType::BatteryRequest, PacketBody::Request),
            Op::Do(Action::SendBatteryState(id)),
        ],
        Greeting::Connectivity => vec![
            just_queue_op(id, PacketType::ConnectivityReportRequest, PacketBody::Empty),
        ],
        Greeting::Mousepad => vec![
            just_queue_op(id, PacketType::MousePadKeyboardState, PacketBody::KeyboardState),
        ],
        Greeting::RunCommand => vec![Op::Do(Action::SendCommandList(id))],
        Greeting::SystemVolume => vec![Op::Do(Action::StartSystemVolume(id))],
        Greeting::MprisPlayers => vec![
            just_queue_op(
                id,
                PacketType::MprisRequest,
                PacketBody::MprisRequest(MprisRequest::player_list()),
            ),
        ],
    }
}

} // verus!
