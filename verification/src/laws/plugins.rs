//! Plugins and what is kept about devices.
use std::sync::Arc;
use vstd::prelude::*;

use crate::device::{Device, DeviceId};
use crate::kdeconnect::KdeConnectCore;
use crate::plan::greeting;
use crate::plan::user;
use crate::plugin_interface;
use crate::plugin_interface::{PayloadAction, PayloadKind, PayloadProgress, Plugin};
use crate::plugin_set::PluginSet;
use crate::plugins::digitizer::DigitizerSession;
use crate::plugins::sftp::Sftp;
use crate::protocol::{PacketBody, PacketKey, PacketType, Pair, ProtocolPacket};
use crate::state;
use crate::state::CoreState;
use crate::storage;
use crate::storage::{Chore, Found, Place};
use crate::task::{Greeting, Op, Reply};

verus! {

/// Packets of the core, and packets of unknown types, are never held back, whatever is switched
/// off.
pub proof fn law_core_packets_are_never_held_back(
    disabled: Map<Seq<char>, Set<Seq<char>>>,
    device: Seq<char>,
    packet_type: PacketType,
)
    requires
        packet_type is Identity || packet_type is Pair || packet_type is Unknown,
    ensures
        !plugin_interface::held_back(disabled, device, packet_type),
{
}

/// For a device of which nothing was ever switched off, everything is on.
pub proof fn law_plugins_are_on_unless_switched_off(
    disabled: Map<Seq<char>, Set<Seq<char>>>,
    device: Seq<char>,
    plugin: Seq<char>,
    packet_type: PacketType,
)
    requires
        !disabled.contains_key(device),
    ensures
        plugin_interface::enabled(disabled, device, plugin),
        !plugin_interface::held_back(disabled, device, packet_type),
{
}

/// Switching a plugin on or off takes effect for that plugin and that device, and for no other
/// plugin and no other device.
pub proof fn law_switching_a_plugin(
    s: CoreState,
    reply: Reply,
    id: DeviceId,
    plugin: Seq<char>,
    on: bool,
    stored: Set<Seq<char>>,
    set: Arc<PluginSet>,
    other_plugin: Seq<char>,
    other_device: Seq<char>,
)
    requires
        (*set)@ == user::toggled(stored, plugin, on),
    ensures
        ({
            let next = state::next_state(s, Op::SetDisabled(id, set), reply);
            &&& plugin_interface::enabled(next.disabled, id@, plugin) == on
            &&& other_plugin != plugin ==> plugin_interface::enabled(
                next.disabled,
                id@,
                other_plugin,
            ) == !stored.contains(other_plugin)
            &&& other_device != id@ ==> plugin_interface::enabled(
                next.disabled,
                other_device,
                other_plugin,
            ) == plugin_interface::enabled(s.disabled, other_device, other_plugin)
        }),
{
}

/// A device is greeted on behalf of a plugin exactly if the plugin is switched on for it.
pub proof fn law_greetings_go_by_what_is_switched_on(
    s: CoreState,
    id: DeviceId,
    greeting: Greeting,
    reply: Reply,
    accepted: bool,
)
    ensures
        state::put_before(s, Op::Greet(id, greeting), reply, accepted).len() > 0
            <==> plugin_interface::enabled(s.disabled, id@, greeting::greeting_plugin(greeting)),
{
}

/// A payload that goes with a packet which no plugin announces is never announced, and nobody waits
/// for a peer to fetch it: whatever progress is reported, the transfer goes no further than finding
/// out the port.
pub proof fn law_unsupported_payloads_are_dropped(
    packet_type: PacketType,
    progress: PayloadProgress,
)
    requires
        !(packet_type is Mpris),
        !(packet_type is ShareRequest),
    ensures
        match plugin_interface::payload_step(packet_type, progress) {
            Some(action) => action is Listen || action is ReadAddress,
            None => true,
        },
        progress is AddressKnown || progress is Announced ==> plugin_interface::payload_step(
            packet_type,
            progress,
        ) is None,
{
}

/// A transfer of a payload ends at the first failure.
pub proof fn law_a_failed_transfer_ends(packet_type: PacketType, progress: PayloadProgress)
    requires
        progress is ListenerFailed || progress is AddressUnknown || progress is PeerFailed
            || progress is HandshakeFailed || progress is CopyFailed || progress is FlushFailed,
    ensures
        plugin_interface::payload_step(packet_type, progress) is None,
{
}

/// Cleaning up after a device looks at, or removes, an entry right after finding it only if its name
/// begins with the identifier of the device; every other entry is passed over.
pub proof fn law_cleaning_up_passes_over_other_entries(
    device_id: Seq<char>,
    place: Place,
    stem: Option<&str>,
)
    ensures
        storage::chore(device_id, place, Found::Entry(stem)) == Chore::NextEntry <==> !storage::belongs(
            device_id,
            stem,
        ),
        place == Place::Config && storage::belongs(device_id, stem) ==> storage::chore(
            device_id,
            place,
            Found::Entry(stem),
        ) == Chore::RemoveFile,
{
}

/// An entry that is named exactly like the device belongs to it.
pub proof fn law_the_device_s_own_entry_belongs_to_it(device_id: &str)
    ensures
        storage::belongs(device_id@, Some(device_id)),
{
    assert(device_id@ =~= device_id@.subrange(0, device_id@.len() as int));
}

/// Whether an entry belongs to a device is settled by the first characters of its name alone: they are
/// the identifier of the device. An entry whose name is no text belongs to none.
pub proof fn law_entries_belong_by_their_first_characters(device_id: Seq<char>, stem: Option<&str>)
    ensures
        storage::belongs(device_id, stem) <==> (stem matches Some(text) && text@.len()
            >= device_id.len() && forall|i: int|
            0 <= i < device_id.len() ==> text@[i] == #[trigger] device_id[i]),
{
    if let Some(text) = stem {
        if text@.len() >= device_id.len() && forall|i: int|
            0 <= i < device_id.len() ==> text@[i] == #[trigger] device_id[i] {
            assert(device_id =~= text@.subrange(0, device_id.len() as int));
        }
        if storage::belongs(device_id, stem) {
            let start = text@.subrange(0, device_id.len() as int);
            assert(start == device_id);
            assert forall|i: int| 0 <= i < device_id.len() implies text@[i]
                == #[trigger] device_id[i] by {
                assert(start[i] == text@[i]);
            }
        }
    }
}

/// Cleaning up begins with the config files. In each place it goes on from entry to entry; of the
/// config files it removes the device's own, and of the cache whatever of the device's own is there,
/// each in the way that fits it. The cache comes after the config files, and the end after the cache;
/// a place that cannot be read is the end of all.
pub proof fn law_cleaning_up_goes_through_both_places(
    device_id: Seq<char>,
    place: Place,
    stem: Option<&str>,
    is_directory: bool,
)
    ensures
        storage::chore(device_id, place, Found::Start) == Chore::Open(Place::Config),
        storage::chore(device_id, place, Found::Opened) == Chore::NextEntry,
        storage::chore(device_id, place, Found::Removed) == Chore::NextEntry,
        storage::chore(device_id, place, Found::Unreadable) == Chore::GiveUp,
        storage::chore(device_id, place, Found::Directory(is_directory)) == (if is_directory {
            Chore::RemoveDirectory
        } else {
            Chore::RemoveFile
        }),
        storage::belongs(device_id, stem) ==> storage::chore(device_id, place, Found::Entry(stem))
            == (if place == Place::Config {
            Chore::RemoveFile
        } else {
            Chore::LookAt
        }),
        storage::chore(device_id, place, Found::End) == storage::chore(
            device_id,
            place,
            Found::NoPlace,
        ),
        storage::chore(device_id, Place::Config, Found::End) == Chore::Open(Place::Cache),
        storage::chore(device_id, Place::Cache, Found::End) == Chore::Finish,
{
}

/// The port that a step announces, and on behalf of which plugin.
pub open spec fn announces(action: Option<PayloadAction>, kind: PayloadKind, port: u16) -> bool {
    action matches Some(PayloadAction::Announce(by, info)) && by == kind && info.port == port
}

/// Album art is announced by the media player plugin and a shared file by the sharing plugin, as soon
/// as the port of the listener is known. The port announced is the port learned, whatever it is; so
/// different ports are announced as different.
pub proof fn law_the_port_announced_is_the_port_learned(port: u16, other: u16)
    ensures
        ({
            let art = plugin_interface::payload_step(
                PacketType::Mpris,
                PayloadProgress::AddressKnown(port),
            );
            let file = plugin_interface::payload_step(
                PacketType::ShareRequest,
                PayloadProgress::AddressKnown(port),
            );
            &&& announces(art, PayloadKind::Mpris, port)
            &&& announces(file, PayloadKind::ShareRequest, port)
            &&& other != port ==> !announces(art, PayloadKind::Mpris, other) && !announces(
                file,
                PayloadKind::ShareRequest,
                other,
            )
        }),
{
}

/// A transfer of album art or of a shared file goes on while all goes well: the listener, its port,
/// the announcement, the peer, the handshake, the copy, the flush, the end of the stream and the
/// report, one step after the other and none left out. Nothing follows on the report.
pub proof fn law_a_transfer_goes_on_while_all_goes_well(packet_type: PacketType, port: u16)
    requires
        packet_type is Mpris || packet_type is ShareRequest,
    ensures
        plugin_interface::payload_step(packet_type, PayloadProgress::Requested) == Some(
            PayloadAction::Listen,
        ),
        plugin_interface::payload_step(packet_type, PayloadProgress::ListenerReady) == Some(
            PayloadAction::ReadAddress,
        ),
        plugin_interface::payload_step(packet_type, PayloadProgress::AddressKnown(port)) matches Some(
            PayloadAction::Announce(..),
        ),
        plugin_interface::payload_step(packet_type, PayloadProgress::Announced) == Some(
            PayloadAction::Accept,
        ),
        plugin_interface::payload_step(packet_type, PayloadProgress::PeerConnected) == Some(
            PayloadAction::Handshake,
        ),
        plugin_interface::payload_step(packet_type, PayloadProgress::Secured) == Some(
            PayloadAction::Copy,
        ),
        plugin_interface::payload_step(packet_type, PayloadProgress::Copied) == Some(
            PayloadAction::Flush,
        ),
        plugin_interface::payload_step(packet_type, PayloadProgress::Flushed) == Some(
            PayloadAction::Shutdown,
        ),
        plugin_interface::payload_step(packet_type, PayloadProgress::StreamClosed) == Some(
            PayloadAction::ReportDone,
        ),
        plugin_interface::payload_step(packet_type, PayloadProgress::Reported) is None,
{
}

/// A payload that no plugin announces gets a listener and its port, and nothing after that.
pub proof fn law_other_payloads_get_a_listener_only(
    packet_type: PacketType,
    progress: PayloadProgress,
)
    requires
        !(packet_type is Mpris),
        !(packet_type is ShareRequest),
    ensures
        plugin_interface::payload_step(packet_type, progress) == (if progress is Requested {
            Some(PayloadAction::Listen)
        } else if progress is ListenerReady {
            Some(PayloadAction::ReadAddress)
        } else {
            None
        }),
{
}

/// What succeeds, and what fails, is what was to be done.
pub proof fn law_progress_comes_of_its_step(progress: PayloadProgress, action: PayloadAction)
    ensures
        plugin_interface::comes_of(action, progress) <==> match progress {
            PayloadProgress::Requested => false,
            PayloadProgress::ListenerReady | PayloadProgress::ListenerFailed => action is Listen,
            PayloadProgress::AddressKnown(_) | PayloadProgress::AddressUnknown => action
                is ReadAddress,
            PayloadProgress::Announced => action is Announce,
            PayloadProgress::PeerConnected | PayloadProgress::PeerFailed => action is Accept,
            PayloadProgress::Secured | PayloadProgress::HandshakeFailed => action is Handshake,
            PayloadProgress::Copied | PayloadProgress::CopyFailed => action is Copy,
            PayloadProgress::Flushed | PayloadProgress::FlushFailed => action is Flush,
            PayloadProgress::StreamClosed => action is Shutdown,
            PayloadProgress::Reported => action is ReportDone,
        },
{
}

/// Whether packets of these types are held back exactly where this plugin is switched off for the
/// device.
pub open spec fn belong_to(
    disabled: Map<Seq<char>, Set<Seq<char>>>,
    device: Seq<char>,
    types: Seq<PacketType>,
    plugin: Seq<char>,
) -> bool {
    forall|i: int|
        0 <= i < types.len() ==> plugin_interface::plugin_of(#[trigger] types[i]) == Some(plugin)
            && plugin_interface::held_back(disabled, device, types[i]) == (disabled.contains_key(
            device,
        ) && disabled[device].contains(plugin))
}

/// Every packet but those of the core and of unknown types belongs to a plugin, and is held back
/// exactly where that plugin is switched off for the device, whatever else is switched off.
pub proof fn law_packets_are_held_back_with_their_plugin(
    disabled: Map<Seq<char>, Set<Seq<char>>>,
    device: Seq<char>,
)
    ensures
        belong_to(
            disabled,
            device,
            seq![PacketType::Battery, PacketType::BatteryRequest],
            "battery"@,
        ),
        belong_to(
            disabled,
            device,
            seq![PacketType::Clipboard, PacketType::ClipboardConnect],
            "clipboard"@,
        ),
        belong_to(
            disabled,
            device,
            seq![PacketType::ConnectivityReport, PacketType::ConnectivityReportRequest],
            "connectivity_report"@,
        ),
        belong_to(
            disabled,
            device,
            seq![PacketType::Digitizer, PacketType::DigitizerSession],
            "digitizer"@,
        ),
        belong_to(
            disabled,
            device,
            seq![
                PacketType::ContactsResponseUidsTimestamps,
                PacketType::ContactsResponseVcards,
                PacketType::ContactsRequestAllUidsTimestamps,
                PacketType::ContactsRequestVcardsByUid,
            ],
            "contacts"@,
        ),
        belong_to(disabled, device, seq![PacketType::FindMyPhoneRequest], "findmyphone"@),
        belong_to(disabled, device, seq![PacketType::Mpris, PacketType::MprisRequest], "mpris"@),
        belong_to(
            disabled,
            device,
            seq![
                PacketType::Notification,
                PacketType::NotificationAction,
                PacketType::NotificationReply,
                PacketType::NotificationRequest,
            ],
            "notification"@,
        ),
        belong_to(disabled, device, seq![PacketType::Ping], "ping"@),
        belong_to(
            disabled,
            device,
            seq![PacketType::RunCommand, PacketType::RunCommandRequest],
            "runcommand"@,
        ),
        belong_to(
            disabled,
            device,
            seq![PacketType::ShareRequest, PacketType::ShareRequestUpdate],
            "share"@,
        ),
        belong_to(disabled, device, seq![PacketType::Sftp, PacketType::SftpRequest], "sftp"@),
        belong_to(
            disabled,
            device,
            seq![
                PacketType::SmsMessages,
                PacketType::SmsRequest,
                PacketType::SmsRequestConversations,
                PacketType::SmsRequestConversation,
                PacketType::SmsAttachmentFile,
                PacketType::SmsRequestAttachment,
            ],
            "sms"@,
        ),
        belong_to(
            disabled,
            device,
            seq![PacketType::SystemVolume, PacketType::SystemVolumeRequest],
            "systemvolume"@,
        ),
        belong_to(
            disabled,
            device,
            seq![
                PacketType::MousePadEcho,
                PacketType::MousePadKeyboardState,
                PacketType::MousePadRequest,
            ],
            "mousepad"@,
        ),
        belong_to(disabled, device, seq![PacketType::Presenter], "presenter"@),
        belong_to(
            disabled,
            device,
            seq![PacketType::Telephony, PacketType::TelephonyRequestMute],
            "telephony"@,
        ),
        belong_to(disabled, device, seq![PacketType::Lock, PacketType::LockRequest], "lock"@),
{
}

/// Packets of the core and of unknown types, whatever their name, belong to no plugin.
pub proof fn law_core_packets_belong_to_no_plugin(packet_type: PacketType)
    requires
        packet_type is Identity || packet_type is Pair || packet_type is Unknown,
    ensures
        plugin_interface::plugin_of(packet_type) is None,
{
}

/// A plugin is on for a device unless it, by its own name, is off for that very device.
pub proof fn law_a_plugin_is_off_where_it_is_named(
    disabled: Map<Seq<char>, Set<Seq<char>>>,
    device: Seq<char>,
    plugin: Seq<char>,
)
    ensures
        plugin_interface::enabled(disabled, device, plugin) <==> !disabled.contains_key(device)
            || !disabled[device].contains(plugin),
{
}

/// Two packet types have the same handler exactly if they are the same; unknown types are told apart
/// by their names.
pub proof fn law_types_are_told_apart(a: PacketType, b: PacketType)
    ensures
        a.key() == b.key() <==> match (a, b) {
            (PacketType::Unknown(name), PacketType::Unknown(other)) => name@ == other@,
            _ => a == b,
        },
{
}

/// A list of identifiers has the text of each of them, in order.
pub proof fn law_identifiers_keep_their_order(names: Seq<String>)
    ensures
        crate::plugin_set::texts(names).len() == names.len(),
        forall|i: int|
            0 <= i < names.len() ==> crate::plugin_set::texts(names)[i] == (#[trigger] names[i])@,
{
}

/// Packets are made of what they are given, and carry no payload; a pairing packet says what it is
/// given.
pub proof fn law_packets_are_made_of_what_they_are_given(
    packet_type: PacketType,
    body: PacketBody,
    pair: Pair,
)
    ensures
        crate::protocol::packet(packet_type, body) == (ProtocolPacket {
            packet_type,
            body,
            payload_transfer_info: None,
        }),
        crate::protocol::pair_packet_of(pair) == (ProtocolPacket {
            packet_type: PacketType::Pair,
            body: PacketBody::Pair(pair),
            payload_transfer_info: None,
        }),
{
}

/// Where the plugins and handlers of a core are the same as before, so are the names of the plugins, in
/// order, and the handler of every packet type.
pub proof fn law_plugins_and_handlers_stay<H>(now: KdeConnectCore<H>, before: KdeConnectCore<H>)
    requires
        now.same_plugins(before),
    ensures
        now.registry().plugin_names() == before.registry().plugin_names(),
        forall|key: PacketKey| #[trigger]
            now.registry().handler(key) == before.registry().handler(key),
{
}

/// The two plugins that only take note go by their own names, whatever their packets hold.
pub proof fn law_plugins_go_by_their_names(session: DigitizerSession, offer: Sftp)
    ensures
        session.name() == "digitizer-session"@,
        offer.name() == "kdeconnect.sftp"@,
{
}

/// Devices that are paired and not connected are called for once a minute.
pub proof fn law_devices_are_called_for_once_a_minute()
    ensures
        storage::RECONNECT_INTERVAL_SECS == 60,
{
}

/// The pair state that is known of a device is the one on record, and none where there is no record.
pub proof fn law_the_pair_state_is_the_one_on_record(device: Device)
    ensures
        crate::device::pair_state_of(Some(device)) == Some(device.pair_state),
        crate::device::pair_state_of(None) is None,
{
}

} // verus!
