//! The registry of plugins: who handles which packet, and what is switched off for whom.
use std::sync::Arc;
use vstd::prelude::*;

use crate::device::{Device, DeviceId};
use crate::device_map::DeviceMap;
use crate::plugin_set::PluginSet;
use crate::protocol::{PacketKey, PacketPayloadTransferInfo, PacketType, ProtocolPacket};

verus! {

/// A plugin, known to the registry by its identifier.
pub trait Plugin: Sync + Send {
    /// The identifier, as contracts speak of it. A type that is not verified leaves it open.
    open spec fn name(&self) -> Seq<char> {
        vstd::pervasive::arbitrary()
    }

    /// The identifier.
    fn id(&self) -> (id: &'static str)
        ensures
            id@ == self.name(),
    ;
}

/// The plugin that a packet belongs to, by the identifier used in settings. Packets of the core
/// and of unknown types belong to none, and are never held back.
pub open spec fn plugin_of(packet_type: PacketType) -> Option<Seq<char>> {
    match packet_type {
        PacketType::Battery | PacketType::BatteryRequest => Some("battery"@),
        PacketType::Clipboard | PacketType::ClipboardConnect => Some("clipboard"@),
        PacketType::ConnectivityReport | PacketType::ConnectivityReportRequest => Some(
            "connectivity_report"@,
        ),
        PacketType::Digitizer | PacketType::DigitizerSession => Some("digitizer"@),
        PacketType::ContactsResponseUidsTimestamps
        | PacketType::ContactsResponseVcards
        | PacketType::ContactsRequestAllUidsTimestamps
        | PacketType::ContactsRequestVcardsByUid => Some("contacts"@),
        PacketType::FindMyPhoneRequest => Some("findmyphone"@),
        PacketType::Mpris | PacketType::MprisRequest => Some("mpris"@),
        PacketType::Notification
        | PacketType::NotificationAction
        | PacketType::NotificationReply
        | PacketType::NotificationRequest => Some("notification"@),
        PacketType::Ping => Some("ping"@),
        PacketType::RunCommand | PacketType::RunCommandRequest => Some("runcommand"@),
        PacketType::ShareRequest | PacketType::ShareRequestUpdate => Some("share"@),
        PacketType::Sftp | PacketType::SftpRequest => Some("sftp"@),
        PacketType::SmsMessages
        | PacketType::SmsRequest
        | PacketType::SmsRequestConversations
        | PacketType::SmsRequestConversation
        | PacketType::SmsAttachmentFile
        | PacketType::SmsRequestAttachment => Some("sms"@),
        PacketType::SystemVolume | PacketType::SystemVolumeRequest => Some("systemvolume"@),
        PacketType::MousePadEcho
        | PacketType::MousePadKeyboardState
        | PacketType::MousePadRequest => Some("mousepad"@),
        PacketType::Presenter => Some("presenter"@),
        PacketType::Telephony | PacketType::TelephonyRequestMute => Some("telephony"@),
        PacketType::Lock | PacketType::LockRequest => Some("lock"@),
        PacketType::Identity | PacketType::Pair | PacketType::Unknown(_) => None,
    }
}

/// The plugin that a packet belongs to, by the identifier used in settings. Packets of the core
/// and of unknown types belong to none, and are never held back.
pub fn packet_plugin_id(packet_type: &PacketType) -> (id: Option<&'static str>)
    ensures
        match id {
            Some(text) => plugin_of(*packet_type) == Some(text@),
            None => plugin_of(*packet_type) is None,
        },
{
    match packet_type {
        PacketType::Battery | PacketType::BatteryRequest => Some("battery"),
        PacketType::Clipboard | PacketType::ClipboardConnect => Some("clipboard"),
        PacketType::ConnectivityReport | PacketType::ConnectivityReportRequest => Some(
            "connectivity_report",
        ),
        PacketType::Digitizer | PacketType::DigitizerSession => Some("digitizer"),
        PacketType::ContactsResponseUidsTimestamps
        | PacketType::ContactsResponseVcards
        | PacketType::ContactsRequestAllUidsTimestamps
        | PacketType::ContactsRequestVcardsByUid => Some("contacts"),
        PacketType::FindMyPhoneRequest => Some("findmyphone"),
        PacketType::Mpris | PacketType::MprisRequest => Some("mpris"),
        PacketType::Notification
        | PacketType::NotificationAction
        | PacketType::NotificationReply
        | PacketType::NotificationRequest => Some("notification"),
        PacketType::Ping => Some("ping"),
        PacketType::RunCommand | PacketType::RunCommandRequest => Some("runcommand"),
        PacketType::ShareRequest | PacketType::ShareRequestUpdate => Some("share"),
        PacketType::Sftp | PacketType::SftpRequest => Some("sftp"),
        PacketType::SmsMessages
        | PacketType::SmsRequest
        | PacketType::SmsRequestConversations
        | PacketType::SmsRequestConversation
        | PacketType::SmsAttachmentFile
        | PacketType::SmsRequestAttachment => Some("sms"),
        PacketType::SystemVolume | PacketType::SystemVolumeRequest => Some("systemvolume"),
        PacketType::MousePadEcho
        | PacketType::MousePadKeyboardState
        | PacketType::MousePadRequest => Some("mousepad"),
        PacketType::Presenter => Some("presenter"),
        PacketType::Telephony | PacketType::TelephonyRequestMute => Some("telephony"),
        PacketType::Lock | PacketType::LockRequest => Some("lock"),
        PacketType::Identity | PacketType::Pair | PacketType::Unknown(_) => None,
    }
}

/// Whether a plugin is switched on for a device: unless it is in the set kept for the device.
pub open spec fn enabled(
    disabled: Map<Seq<char>, Set<Seq<char>>>,
    device: Seq<char>,
    plugin: Seq<char>,
) -> bool {
    !(disabled.contains_key(device) && disabled[device].contains(plugin))
}

/// Whether a packet is held back because its plugin is switched off for the device.
pub open spec fn held_back(
    disabled: Map<Seq<char>, Set<Seq<char>>>,
    device: Seq<char>,
    packet_type: PacketType,
) -> bool {
    match plugin_of(packet_type) {
        Some(plugin) => !enabled(disabled, device, plugin),
        None => false,
    }
}

/// The packet types in a list of handlers, in order.
spec fn keys<H>(entries: Seq<(PacketType, H)>) -> Seq<PacketKey> {
    entries.map_values(|entry: (PacketType, H)| entry.0.key())
}

/// The packet handlers, at most one for each type of packet.
#[verifier::reject_recursive_types(H)]
struct HandlerTable<H> {
    entries: Vec<(PacketType, H)>,
}

impl<H> HandlerTable<H> {
    #[verifier::type_invariant]
    spec fn distinct(self) -> bool {
        keys(self.entries@).no_duplicates()
    }

    /// The handler for a type.
    spec fn handler(self, key: PacketKey) -> Option<H> {
        if keys(self.entries@).contains(key) {
            Some(self.entries@[keys(self.entries@).index_of(key)].1)
        } else {
            None
        }
    }

    /// A table without handlers.
    fn new() -> (table: HandlerTable<H>)
        ensures
            forall|key: PacketKey| table.handler(key) is None,
    {
        HandlerTable { entries: Vec::new() }
    }

    /// Where the handler for a type stands, or the number of handlers.
    fn position(&self, packet_type: &PacketType) -> (at: usize)
        ensures
            at <= self.entries@.len(),
            at < self.entries@.len() ==> keys(self.entries@)[at as int] == packet_type.key(),
            (at < self.entries@.len()) == keys(self.entries@).contains(packet_type.key()),
    {
        let mut i: usize = 0;
        while i < self.entries.len()
            invariant
                i <= self.entries@.len(),
                forall|j: int| 0 <= j < i ==> keys(self.entries@)[j] != packet_type.key(),
            decreases self.entries@.len() - i,
        {
            if self.entries[i].0.same_type(packet_type) {
                assert(keys(self.entries@)[i as int] == packet_type.key());
                return i;
            }
            assert(keys(self.entries@)[i as int] != packet_type.key());
            i = i + 1;
        }
        i
    }

    /// The handler for a type.
    fn find(&self, packet_type: &PacketType) -> (found: Option<&H>)
        ensures
            match found {
                Some(handler) => self.handler(packet_type.key()) == Some(*handler),
                None => self.handler(packet_type.key()) is None,
            },
    {
        let at = self.position(packet_type);
        if at < self.entries.len() {
            proof {
                use_type_invariant(self);
            }
            Some(&self.entries[at].1)
        } else {
            None
        }
    }

    /// Makes a handler the one for a type, in place of the one before.
    fn insert(&mut self, packet_type: PacketType, handler: H)
        ensures
            final(self).handler(packet_type.key()) == Some(handler),
            forall|key: PacketKey|
                key != packet_type.key() ==> final(self).handler(key) == old(self).handler(key),
    {
        proof {
            use_type_invariant(&*self);
        }
        let ghost changed = packet_type.key();
        let ghost before = self.entries@;
        let at = self.position(&packet_type);
        let known = at < self.entries.len();
        let mut entries = Vec::new();
        std::mem::swap(&mut entries, &mut self.entries);
        if known {
            entries[at] = (packet_type, handler);
        } else {
            entries.push((packet_type, handler));
        }
        proof {
            let after = entries@;
            if known {
                assert(keys(after) =~= keys(before));
            } else {
                assert(keys(after) =~= keys(before).push(changed));
            }
            assert(keys(after)[at as int] == changed);
            assert(keys(after).no_duplicates());
            assert forall|key: PacketKey| key != changed implies keys(after).contains(key)
                == keys(before).contains(key) && (keys(before).contains(key) ==> after[keys(
                after,
            ).index_of(key)] == before[keys(before).index_of(key)]) by {
                if keys(before).contains(key) {
                    let i = keys(before).index_of(key);
                    assert(keys(after)[i] == key);
                    assert(keys(after).index_of(key) == i);
                }
            }
        }
        self.entries = entries;
    }
}

/// What becomes of a received packet.
pub enum Dispatch<'a, H> {
    /// Its plugin, named here, is switched off for the device.
    Disabled(&'static str),
    /// This handler takes it.
    Handler(&'a H),
    /// Nobody takes it.
    Unhandled,
}

/// The plugins that can send a packet on request.
#[derive(Clone, Copy, Debug, PartialEq, Eq, Structural)]
pub enum SendRoute {
    Ping,
    MprisRequest,
}

/// The plugins that can announce a payload.
#[derive(Clone, Copy, Debug, PartialEq, Eq, Structural)]
pub enum PayloadKind {
    /// Album art.
    Mpris,
    /// A shared file.
    ShareRequest,
}

/// How far the transfer of a payload has come.
#[derive(Clone, Copy, Debug)]
pub enum PayloadProgress {
    Requested,
    ListenerReady,
    ListenerFailed,
    AddressKnown(u16),
    AddressUnknown,
    Announced,
    PeerConnected,
    PeerFailed,
    Secured,
    HandshakeFailed,
    Copied,
    CopyFailed,
    Flushed,
    FlushFailed,
    StreamClosed,
    Reported,
}

/// What the transfer of a payload needs done next.
#[derive(Clone, Copy, Debug)]
pub enum PayloadAction {
    /// Open a listener on a free port.
    Listen,
    /// Find out the port of the listener.
    ReadAddress,
    /// Tell the peer where the payload waits.
    Announce(PayloadKind, PacketPayloadTransferInfo),
    /// Wait for the peer, no longer holding up the caller.
    Accept,
    /// Secure the connection.
    Handshake,
    /// Copy the payload into it.
    Copy,
    Flush,
    /// Close the stream.
    Shutdown,
    /// Report that the payload was sent in full.
    ReportDone,
}

/// Who announces a payload that goes with a packet of this type.
pub open spec fn payload_kind(packet_type: PacketType) -> Option<PayloadKind> {
    match packet_type {
        PacketType::Mpris => Some(PayloadKind::Mpris),
        PacketType::ShareRequest => Some(PayloadKind::ShareRequest),
        _ => None,
    }
}

/// The step of a transfer that follows on the progress made; none where the transfer has ended,
/// which it does at the first failure, and where nobody announces the payload as soon as there
/// would be something to announce.
pub open spec fn payload_step(packet_type: PacketType, progress: PayloadProgress) -> Option<
    PayloadAction,
> {
    match (progress, payload_kind(packet_type)) {
        (PayloadProgress::Requested, _) => Some(PayloadAction::Listen),
        (PayloadProgress::ListenerReady, _) => Some(PayloadAction::ReadAddress),
        (PayloadProgress::AddressKnown(port), Some(kind)) => Some(
            PayloadAction::Announce(kind, PacketPayloadTransferInfo { port }),
        ),
        (PayloadProgress::Announced, Some(_)) => Some(PayloadAction::Accept),
        (PayloadProgress::PeerConnected, Some(_)) => Some(PayloadAction::Handshake),
        (PayloadProgress::Secured, Some(_)) => Some(PayloadAction::Copy),
        (PayloadProgress::Copied, Some(_)) => Some(PayloadAction::Flush),
        (PayloadProgress::Flushed, Some(_)) => Some(PayloadAction::Shutdown),
        (PayloadProgress::StreamClosed, Some(_)) => Some(PayloadAction::ReportDone),
        _ => None,
    }
}

/// The progress that can come of a step: it succeeds or it fails.
pub open spec fn comes_of(action: PayloadAction, progress: PayloadProgress) -> bool {
    match action {
        PayloadAction::Listen => progress is ListenerReady || progress is ListenerFailed,
        PayloadAction::ReadAddress => progress is AddressKnown || progress is AddressUnknown,
        PayloadAction::Announce(_, _) => progress is Announced,
        PayloadAction::Accept => progress is PeerConnected || progress is PeerFailed,
        PayloadAction::Handshake => progress is Secured || progress is HandshakeFailed,
        PayloadAction::Copy => progress is Copied || progress is CopyFailed,
        PayloadAction::Flush => progress is Flushed || progress is FlushFailed,
        PayloadAction::Shutdown => progress is StreamClosed,
        PayloadAction::ReportDone => progress is Reported,
    }
}

/// A plugin of any kind.
pub struct PluginHandle {
    pub plugin: Arc<dyn Plugin>,
}

/// The plugins, the packet handlers, and the plugins that are switched off for each device.
#[verifier::reject_recursive_types(H)]
pub struct PluginRegistry<H> {
    plugins: Vec<PluginHandle>,
    handlers: HandlerTable<H>,
    disabled: DeviceMap<Arc<PluginSet>>,
}

impl<H> PluginRegistry<H> {
    /// The identifiers of the registered plugins, in the order in which they came.
    pub closed spec fn plugin_names(self) -> Seq<Seq<char>> {
        Seq::new(self.plugins@.len(), |i: int| self.plugins@[i].plugin.name())
    }

    /// The handler for a packet type.
    pub closed spec fn handler(self, key: PacketKey) -> Option<H> {
        self.handlers.handler(key)
    }

    /// The sets of plugins that are switched off, by device.
    pub closed spec fn disabled(self) -> Map<Seq<char>, Set<Seq<char>>> {
        self.disabled@
    }

    /// A registry in which nothing is registered and nothing switched off.
    pub fn new() -> (registry: PluginRegistry<H>)
        ensures
            registry.plugin_names() == Seq::<Seq<char>>::empty(),
            forall|key: PacketKey| registry.handler(key) is None,
            registry.disabled() == Map::<Seq<char>, Set<Seq<char>>>::empty(),
    {
        let registry = PluginRegistry {
            plugins: Vec::new(),
            handlers: HandlerTable::new(),
            disabled: DeviceMap::new(),
        };
        assert(registry.plugin_names() =~= Seq::<Seq<char>>::empty());
        registry
    }

    /// A registry with the plugins that every service has, in their order: running commands,
    /// sharing, messages.
    pub fn standard(
        run_command: PluginHandle,
        share: PluginHandle,
        sms: PluginHandle,
    ) -> (registry: PluginRegistry<H>)
        ensures
            registry.plugin_names() == seq![
                run_command.plugin.name(),
                share.plugin.name(),
                sms.plugin.name(),
            ],
            forall|key: PacketKey| registry.handler(key) is None,
            registry.disabled() == Map::<Seq<char>, Set<Seq<char>>>::empty(),
    {
        let mut registry = PluginRegistry::new();
        registry.register(run_command);
        registry.register(share);
        registry.register(sms);
        registry
    }

    /// Adds a plugin.
    pub fn register(&mut self, handle: PluginHandle)
        ensures
            final(self).plugin_names() == old(self).plugin_names().push(handle.plugin.name()),
            forall|key: PacketKey| final(self).handler(key) == old(self).handler(key),
            final(self).disabled() == old(self).disabled(),
    {
        self.plugins.push(handle);
        assert(self.plugin_names() =~= old(self).plugin_names().push(handle.plugin.name()));
    }

    /// Makes a handler the one for a packet type, in place of the one before.
    pub fn register_handler(&mut self, packet_type: PacketType, handler: H)
        ensures
            final(self).plugin_names() == old(self).plugin_names(),
            final(self).handler(packet_type.key()) == Some(handler),
            forall|key: PacketKey|
                key != packet_type.key() ==> final(self).handler(key) == old(self).handler(key),
            final(self).disabled() == old(self).disabled(),
    {
        self.handlers.insert(packet_type, handler);
    }

    /// Sets which plugins are switched off for a device, in place of what was set before.
    pub fn set_device_disabled(&mut self, device_id: DeviceId, disabled: Arc<PluginSet>)
        ensures
            final(self).plugin_names() == old(self).plugin_names(),
            forall|key: PacketKey| final(self).handler(key) == old(self).handler(key),
            final(self).disabled() == old(self).disabled().insert(device_id@, (*disabled)@),
    {
        self.disabled.insert(device_id, disabled);
    }

    /// Whether a plugin is switched on for a device.
    pub fn is_plugin_enabled(&self, device_id: &DeviceId, plugin_id: &str) -> (on: bool)
        ensures
            on == enabled(self.disabled(), device_id@, plugin_id@),
    {
        match self.disabled.get(device_id) {
            Some(set) => !set.contains(plugin_id),
            None => true,
        }
    }

    /// Decides what becomes of a packet received from a device. Whether the packet is held back
    /// is settled before any handler is looked for.
    pub fn dispatch(&self, device: &Device, packet: &ProtocolPacket) -> (fate: Dispatch<'_, H>)
        ensures
            match fate {
                Dispatch::Disabled(plugin) => held_back(
                    self.disabled(),
                    device.device_id@,
                    packet.packet_type,
                ) && plugin_of(packet.packet_type) == Some(plugin@),
                Dispatch::Handler(handler) => !held_back(
                    self.disabled(),
                    device.device_id@,
                    packet.packet_type,
                ) && self.handler(packet.packet_type.key()) == Some(*handler),
                Dispatch::Unhandled => !held_back(
                    self.disabled(),
                    device.device_id@,
                    packet.packet_type,
                ) && self.handler(packet.packet_type.key()) is None,
            },
    {
        if let Some(plugin_id) = packet_plugin_id(&packet.packet_type) {
            if !self.is_plugin_enabled(&device.device_id, plugin_id) {
                return Dispatch::Disabled(plugin_id);
            }
        }
        match self.handlers.find(&packet.packet_type) {
            Some(handler) => Dispatch::Handler(handler),
            None => Dispatch::Unhandled,
        }
    }

    /// The plugin that sends a packet of this type on request; none for all other types.
    pub fn send(&self, packet: &ProtocolPacket) -> (route: Option<SendRoute>)
        ensures
            route == (match packet.packet_type {
                PacketType::Ping => Some(SendRoute::Ping),
                PacketType::MprisRequest => Some(SendRoute::MprisRequest),
                _ => None,
            }),
    {
        match packet.packet_type {
            PacketType::Ping => Some(SendRoute::Ping),
            PacketType::MprisRequest => Some(SendRoute::MprisRequest),
            _ => None,
        }
    }

    /// Decides the next step in the transfer of a payload that goes with a packet of this type.
    /// The transfer ends at the first failure; a payload that no plugin announces ends it before
    /// anything is sent.
    pub fn send_payload(&self, packet_type: &PacketType, progress: PayloadProgress) -> (next: Option<
        PayloadAction,
    >)
        ensures
            next == payload_step(*packet_type, progress),
    {
        let kind = match packet_type {
            PacketType::Mpris => Some(PayloadKind::Mpris),
            PacketType::ShareRequest => Some(PayloadKind::ShareRequest),
            _ => None,
        };
        match (progress, kind) {
            (PayloadProgress::Requested, _) => Some(PayloadAction::Listen),
            (PayloadProgress::ListenerReady, _) => Some(PayloadAction::ReadAddress),
            (PayloadProgress::AddressKnown(port), Some(kind)) => Some(
                PayloadAction::Announce(kind, PacketPayloadTransferInfo { port }),
            ),
            (PayloadProgress::Announced, Some(_)) => Some(PayloadAction::Accept),
            (PayloadProgress::PeerConnected, Some(_)) => Some(PayloadAction::Handshake),
            (PayloadProgress::Secured, Some(_)) => Some(PayloadAction::Copy),
            (PayloadProgress::Copied, Some(_)) => Some(PayloadAction::Flush),
            (PayloadProgress::Flushed, Some(_)) => Some(PayloadAction::Shutdown),
            (PayloadProgress::StreamClosed, Some(_)) => Some(PayloadAction::ReportDone),
            _ => None,
        }
    }

    /// The identifiers of the registered plugins, in order.
    pub fn list_plugins(&self) -> (ids: Vec<String>)
        ensures
            crate::plugin_set::texts(ids@) == self.plugin_names(),
    {
        let mut ids: Vec<String> = Vec::new();
        let mut i: usize = 0;
        while i < self.plugins.len()
            invariant
                i <= self.plugins@.len(),
                ids@.len() == i,
                forall|j: int| 0 <= j < i ==> (#[trigger] ids@[j])@ == self.plugins@[j].plugin.name(),
            decreases self.plugins@.len() - i,
        {
            ids.push(self.plugins[i].plugin.id().to_owned());
            i = i + 1;
        }
        assert(crate::plugin_set::texts(ids@) =~= self.plugin_names());
        ids
    }
}

} // verus!
