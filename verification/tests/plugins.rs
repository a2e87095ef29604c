//! The registry of plugins and the plugins' own packets.
use std::sync::Arc;

use kdeconnect_core::device::{Device, DeviceId, PairState};
use kdeconnect_core::plugin_interface::{
    packet_plugin_id, Dispatch, PayloadAction, PayloadKind, PayloadProgress, Plugin, PluginHandle,
    PluginRegistry, SendRoute,
};
use kdeconnect_core::plugin_set::PluginSet;
use kdeconnect_core::plugins::digitizer::DigitizerSession;
use kdeconnect_core::plugins::sftp::Sftp;
use kdeconnect_core::protocol::{PacketBody, PacketType, ProtocolPacket};

fn id(text: &str) -> DeviceId {
    DeviceId(text.to_string())
}

fn device(text: &str) -> Device {
    Device {
        device_id: id(text),
        name: "phone".to_string(),
        device_type: "phone".to_string(),
        address: "10.0.0.2".to_string(),
        incoming_capabilities: Arc::new(Vec::new()),
        outgoing_capabilities: Arc::new(Vec::new()),
        pair_state: PairState::Paired,
        protocol_version: 8,
        pairing_timestamp: 0,
        remote_certificate: None,
    }
}

fn packet(packet_type: PacketType) -> ProtocolPacket {
    ProtocolPacket::new(packet_type, PacketBody::Empty)
}

fn set(names: &[&str]) -> Arc<PluginSet> {
    Arc::new(PluginSet::from_names(
        names.iter().map(|name| name.to_string()).collect(),
    ))
}

#[test]
fn every_packet_type_belongs_to_its_plugin() {
    let expected = [
        (PacketType::Battery, Some("battery")),
        (PacketType::BatteryRequest, Some("battery")),
        (PacketType::Clipboard, Some("clipboard")),
        (PacketType::ClipboardConnect, Some("clipboard")),
        (PacketType::ConnectivityReport, Some("connectivity_report")),
        (
            PacketType::ConnectivityReportRequest,
            Some("connectivity_report"),
        ),
        (PacketType::ContactsRequestAllUidsTimestamps, Some("contacts")),
        (PacketType::ContactsRequestVcardsByUid, Some("contacts")),
        (PacketType::ContactsResponseUidsTimestamps, Some("contacts")),
        (PacketType::ContactsResponseVcards, Some("contacts")),
        (PacketType::Digitizer, Some("digitizer")),
        (PacketType::DigitizerSession, Some("digitizer")),
        (PacketType::FindMyPhoneRequest, Some("findmyphone")),
        (PacketType::Identity, None),
        (PacketType::Lock, Some("lock")),
        (PacketType::LockRequest, Some("lock")),
        (PacketType::MousePadEcho, Some("mousepad")),
        (PacketType::MousePadKeyboardState, Some("mousepad")),
        (PacketType::MousePadRequest, Some("mousepad")),
        (PacketType::Mpris, Some("mpris")),
        (PacketType::MprisRequest, Some("mpris")),
        (PacketType::Notification, Some("notification")),
        (PacketType::NotificationAction, Some("notification")),
        (PacketType::NotificationReply, Some("notification")),
        (PacketType::NotificationRequest, Some("notification")),
        (PacketType::Pair, None),
        (PacketType::Ping, Some("ping")),
        (PacketType::Presenter, Some("presenter")),
        (PacketType::RunCommand, Some("runcommand")),
        (PacketType::RunCommandRequest, Some("runcommand")),
        (PacketType::Sftp, Some("sftp")),
        (PacketType::SftpRequest, Some("sftp")),
        (PacketType::ShareRequest, Some("share")),
        (PacketType::ShareRequestUpdate, Some("share")),
        (PacketType::SmsAttachmentFile, Some("sms")),
        (PacketType::SmsMessages, Some("sms")),
        (PacketType::SmsRequest, Some("sms")),
        (PacketType::SmsRequestAttachment, Some("sms")),
        (PacketType::SmsRequestConversation, Some("sms")),
        (PacketType::SmsRequestConversations, Some("sms")),
        (PacketType::SystemVolume, Some("systemvolume")),
        (PacketType::SystemVolumeRequest, Some("systemvolume")),
        (PacketType::Telephony, Some("telephony")),
        (PacketType::TelephonyRequestMute, Some("telephony")),
        (PacketType::Unknown("kdeconnect.other".to_string()), None),
    ];
    for (i, (packet_type, plugin)) in expected.iter().enumerate() {
        assert_eq!(packet_plugin_id(packet_type), *plugin, "{packet_type:?}");
        for (j, (other, _)) in expected.iter().enumerate() {
            assert_eq!(packet_type.same_type(other), i == j);
        }
    }
}

#[test]
fn plugins_are_listed_in_the_order_they_came() {
    let mut registry = PluginRegistry::<u8>::new();
    assert!(registry.list_plugins().is_empty());
    registry.register(PluginHandle {
        plugin: Arc::new(Sftp::default()),
    });
    registry.register(PluginHandle {
        plugin: Arc::new(DigitizerSession::default()),
    });
    assert_eq!(
        registry.list_plugins(),
        ["kdeconnect.sftp", "digitizer-session"]
    );
}

#[test]
fn the_standard_plugins_come_in_their_order() {
    struct Named(&'static str);
    impl Plugin for Named {
        fn id(&self) -> &'static str {
            self.0
        }
    }
    let handle = |name| PluginHandle {
        plugin: Arc::new(Named(name)),
    };
    let registry =
        PluginRegistry::<u8>::standard(handle("runcommand"), handle("share"), handle("sms"));
    assert_eq!(registry.list_plugins(), ["runcommand", "share", "sms"]);
}

#[test]
fn packets_go_to_the_handler_registered_last() {
    let mut registry = PluginRegistry::new();
    registry.register_handler(PacketType::Battery, 1u8);
    registry.register_handler(PacketType::Ping, 2u8);
    registry.register_handler(PacketType::Battery, 3u8);
    registry.register_handler(PacketType::Unknown("x".to_string()), 4u8);
    let handler = |packet_type: PacketType| match registry
        .dispatch(&device("a"), &packet(packet_type))
    {
        Dispatch::Handler(handler) => Some(*handler),
        Dispatch::Unhandled => None,
        Dispatch::Disabled(plugin) => panic!("{plugin} is off"),
    };
    assert_eq!(handler(PacketType::Battery), Some(3));
    assert_eq!(handler(PacketType::Ping), Some(2));
    assert_eq!(handler(PacketType::Unknown("x".to_string())), Some(4));
    assert_eq!(handler(PacketType::Unknown("y".to_string())), None);
    assert_eq!(handler(PacketType::Lock), None);
}

#[test]
fn packets_of_a_plugin_that_is_off_are_held_back() {
    let mut registry = PluginRegistry::new();
    registry.register_handler(PacketType::Battery, 1u8);
    registry.set_device_disabled(id("a"), set(&["battery", "sms"]));
    assert!(matches!(
        registry.dispatch(&device("a"), &packet(PacketType::Battery)),
        Dispatch::Disabled("battery")
    ));
    assert!(matches!(
        registry.dispatch(&device("a"), &packet(PacketType::SmsRequest)),
        Dispatch::Disabled("sms")
    ));
    assert!(matches!(
        registry.dispatch(&device("b"), &packet(PacketType::Battery)),
        Dispatch::Handler(1)
    ));
    registry.set_device_disabled(id("a"), set(&["sms"]));
    assert!(matches!(
        registry.dispatch(&device("a"), &packet(PacketType::Battery)),
        Dispatch::Handler(1)
    ));
}

#[test]
fn core_packets_are_never_held_back() {
    let mut registry = PluginRegistry::new();
    registry.register_handler(PacketType::Pair, 1u8);
    registry.register_handler(PacketType::Identity, 2u8);
    registry.set_device_disabled(id("a"), set(&["pair", "identity", "Pair", "Identity"]));
    assert!(matches!(
        registry.dispatch(&device("a"), &packet(PacketType::Pair)),
        Dispatch::Handler(1)
    ));
    assert!(matches!(
        registry.dispatch(&device("a"), &packet(PacketType::Identity)),
        Dispatch::Handler(2)
    ));
}

#[test]
fn only_pings_and_media_requests_are_sent_by_plugins() {
    let registry = PluginRegistry::<u8>::new();
    assert_eq!(
        registry.send(&packet(PacketType::Ping)),
        Some(SendRoute::Ping)
    );
    assert_eq!(
        registry.send(&packet(PacketType::MprisRequest)),
        Some(SendRoute::MprisRequest)
    );
    assert_eq!(registry.send(&packet(PacketType::Mpris)), None);
    assert_eq!(registry.send(&packet(PacketType::Pair)), None);
}

#[test]
fn a_payload_is_announced_and_then_sent() {
    let registry = PluginRegistry::<u8>::new();
    let next = |progress| registry.send_payload(&PacketType::ShareRequest, progress);
    assert!(matches!(
        next(PayloadProgress::Requested),
        Some(PayloadAction::Listen)
    ));
    assert!(matches!(
        next(PayloadProgress::ListenerReady),
        Some(PayloadAction::ReadAddress)
    ));
    match next(PayloadProgress::AddressKnown(1739)) {
        Some(PayloadAction::Announce(kind, info)) => {
            assert_eq!(kind, PayloadKind::ShareRequest);
            assert_eq!(info.port, 1739);
        }
        other => panic!("{other:?}"),
    }
    assert!(matches!(
        next(PayloadProgress::Announced),
        Some(PayloadAction::Accept)
    ));
    assert!(matches!(
        next(PayloadProgress::PeerConnected),
        Some(PayloadAction::Handshake)
    ));
    assert!(matches!(
        next(PayloadProgress::Secured),
        Some(PayloadAction::Copy)
    ));
    assert!(matches!(
        next(PayloadProgress::Copied),
        Some(PayloadAction::Flush)
    ));
    assert!(matches!(
        next(PayloadProgress::Flushed),
        Some(PayloadAction::Shutdown)
    ));
    assert!(matches!(
        next(PayloadProgress::StreamClosed),
        Some(PayloadAction::ReportDone)
    ));
    assert!(next(PayloadProgress::Reported).is_none());
}

#[test]
fn a_transfer_ends_at_the_first_failure() {
    let registry = PluginRegistry::<u8>::new();
    for progress in [
        PayloadProgress::ListenerFailed,
        PayloadProgress::AddressUnknown,
        PayloadProgress::PeerFailed,
        PayloadProgress::HandshakeFailed,
        PayloadProgress::CopyFailed,
        PayloadProgress::FlushFailed,
    ] {
        assert!(registry.send_payload(&PacketType::Mpris, progress).is_none());
    }
}

#[test]
fn a_payload_that_nobody_announces_is_dropped() {
    let registry = PluginRegistry::<u8>::new();
    let progress = PayloadProgress::AddressKnown(1739);
    assert!(registry
        .send_payload(&PacketType::Battery, progress)
        .is_none());
    assert!(registry
        .send_payload(&PacketType::Battery, PayloadProgress::Announced)
        .is_none());
    assert!(matches!(
        registry.send_payload(&PacketType::Mpris, progress),
        Some(PayloadAction::Announce(PayloadKind::Mpris, _))
    ));
}

#[test]
fn packets_of_single_plugins_start_empty() {
    let session = DigitizerSession::default();
    assert_eq!(session.id(), "digitizer-session");
    assert!(session.action.is_none());
    assert!(session.width.is_none());
    assert!(session.height.is_none());
    session.received_packet();

    let sftp = Sftp::default();
    assert_eq!(sftp.id(), "kdeconnect.sftp");
    assert!(sftp.ip.is_none());
    assert!(sftp.port.is_none());
    assert!(sftp.multi_paths.is_empty());
    assert!(sftp.path_names.is_empty());
    assert!(sftp.error_message.is_none());
    sftp.received_packet(&device("a"));
}

#[test]
fn a_plugin_set_holds_each_name_once() {
    let mut names = PluginSet::from_names(vec![
        "sms".to_string(),
        "ping".to_string(),
        "sms".to_string(),
    ]);
    assert_eq!(names.names(), &["sms", "ping"]);
    names.insert("ping".to_string());
    names.insert("lock".to_string());
    assert_eq!(names.names(), &["sms", "ping", "lock"]);
    names.remove("sms");
    names.remove("absent");
    assert!(!names.contains("sms"));
    assert!(names.contains("lock"));
    assert_eq!(names.names(), &["ping", "lock"]);
    assert!(PluginSet::new().names().is_empty());
}
