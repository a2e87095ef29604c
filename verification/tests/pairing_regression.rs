//! Pairing and reconnecting must not disturb other devices or newer connections.
use std::collections::HashMap;
use std::future::Future;
use std::sync::Arc;
use std::time::Duration;

use kdeconnect_core::connection::{
    install_connection, is_current_connection, packet_allowed_for_pair_state, pair_false_packet,
    remove_connection, remove_connection_if_current, remove_pairing_attempt, sender_to,
    write_packet, ConnectionHandle, UnpairedResyncLimiter, UNPAIRED_RESYNC_INTERVAL,
};
use kdeconnect_core::device::{DeviceId, PairState};
use kdeconnect_core::device_map::DeviceMap;
use kdeconnect_core::protocol::{PacketBody, PacketType, ProtocolPacket};
use tokio::sync::{mpsc, watch, Mutex};
use tokio::time::timeout;

fn block_on<F: Future>(future: F) -> F::Output {
    tokio::runtime::Builder::new_current_thread()
        .enable_time()
        .build()
        .unwrap()
        .block_on(future)
}

fn test_device_id(suffix: &str) -> DeviceId {
    DeviceId(format!("pairing-regression-{suffix}"))
}

fn test_connection_handle() -> (
    ConnectionHandle,
    watch::Receiver<bool>,
    mpsc::UnboundedReceiver<ProtocolPacket>,
) {
    let (write_tx, write_rx) = mpsc::unbounded_channel();
    let (shutdown_tx, shutdown_rx) = watch::channel(false);
    (
        ConnectionHandle::new(write_tx, shutdown_tx),
        shutdown_rx,
        write_rx,
    )
}

#[test]
fn replacing_device_connection_shuts_down_only_the_previous_link() {
    block_on(async {
        let mut writer_map = DeviceMap::new();
        let mut conn_id_map = DeviceMap::new();
        let device_id = test_device_id("replace-one");

        let (first, mut first_shutdown, _first_rx) = test_connection_handle();
        let (second, second_shutdown, mut second_rx) = test_connection_handle();

        let id = device_id.duplicate();
        assert!(install_connection(&mut writer_map, &mut conn_id_map, id, 1, first).is_none());
        let id = device_id.duplicate();
        assert!(install_connection(&mut writer_map, &mut conn_id_map, id, 2, second).is_some());

        first_shutdown.changed().await.unwrap();
        assert!(*first_shutdown.borrow());
        assert!(!*second_shutdown.borrow());
        assert!(is_current_connection(&conn_id_map, &device_id, 2));
        assert!(!is_current_connection(&conn_id_map, &device_id, 1));

        let sender = sender_to(&mut writer_map, &device_id).unwrap();
        let pkt = ProtocolPacket::new(PacketType::Ping, PacketBody::Empty);
        sender.send(pkt).unwrap();
        assert!(matches!(
            second_rx.recv().await.unwrap().packet_type,
            PacketType::Ping
        ));
    });
}

#[test]
fn stale_disconnect_cannot_remove_newer_connection() {
    block_on(async {
        let mut writer_map = DeviceMap::new();
        let mut conn_id_map = DeviceMap::new();
        let device_id = test_device_id("stale-disconnect");

        let (first, mut first_shutdown, _first_rx) = test_connection_handle();
        let (second, mut second_shutdown, _second_rx) = test_connection_handle();

        let id = device_id.duplicate();
        install_connection(&mut writer_map, &mut conn_id_map, id, 10, first);
        let id = device_id.duplicate();
        install_connection(&mut writer_map, &mut conn_id_map, id, 11, second);
        first_shutdown.changed().await.unwrap();

        let removed =
            remove_connection_if_current(&mut writer_map, &mut conn_id_map, &device_id, 10);
        assert!(removed.is_none());
        assert!(writer_map.contains_key(&device_id));
        assert!(!*second_shutdown.borrow());
        assert!(
            timeout(Duration::from_millis(25), second_shutdown.changed())
                .await
                .is_err()
        );
        assert!(is_current_connection(&conn_id_map, &device_id, 11));
    });
}

#[test]
fn dropping_connection_shuts_down_only_that_device() {
    block_on(async {
        let mut writer_map = DeviceMap::new();
        let mut conn_id_map = DeviceMap::new();
        let first_id = test_device_id("drop-first");
        let second_id = test_device_id("drop-second");

        let (first, mut first_shutdown, _first_rx) = test_connection_handle();
        let (second, second_shutdown, _second_rx) = test_connection_handle();

        let id = first_id.duplicate();
        install_connection(&mut writer_map, &mut conn_id_map, id, 1, first);
        let id = second_id.duplicate();
        install_connection(&mut writer_map, &mut conn_id_map, id, 1, second);

        assert!(remove_connection(&mut writer_map, &mut conn_id_map, &first_id).is_some());
        first_shutdown.changed().await.unwrap();
        assert!(*first_shutdown.borrow());
        assert!(!writer_map.contains_key(&first_id));
        assert!(!is_current_connection(&conn_id_map, &first_id, 1));

        assert!(writer_map.contains_key(&second_id));
        assert!(is_current_connection(&conn_id_map, &second_id, 1));
        assert!(!*second_shutdown.borrow());
    });
}

#[test]
fn repeated_reconnect_churn_is_isolated_across_devices() {
    block_on(async {
        let maps = Arc::new(Mutex::new((
            DeviceMap::<ConnectionHandle>::new(),
            DeviceMap::<u64>::new(),
        )));
        let ids = vec![
            test_device_id("churn-a"),
            test_device_id("churn-b"),
            test_device_id("churn-c"),
        ];
        let mut tasks = Vec::new();
        for id in &ids {
            let maps = maps.clone();
            let id = id.duplicate();
            tasks.push(tokio::spawn(async move {
                for conn_id in 0..25 {
                    let (handle, _shutdown, _rx) = test_connection_handle();
                    let mut guard = maps.lock().await;
                    let (writer_map, conn_id_map) = &mut *guard;
                    install_connection(writer_map, conn_id_map, id.duplicate(), conn_id, handle);
                    drop(guard);
                    tokio::task::yield_now().await;
                }
            }));
        }
        for task in tasks {
            task.await.unwrap();
        }
        let guard = maps.lock().await;
        assert_eq!(guard.0.len(), ids.len());
        for id in ids {
            assert!(is_current_connection(&guard.1, &id, 24));
        }
    });
}

#[test]
fn concurrent_replacements_keep_writer_and_conn_id_in_sync() {
    block_on(async {
        let maps = Arc::new(Mutex::new((
            DeviceMap::<ConnectionHandle>::new(),
            DeviceMap::<u64>::new(),
        )));
        let device_id = test_device_id("same-device-race");
        let mut receivers = HashMap::new();
        let mut shutdowns = HashMap::new();
        let mut tasks = Vec::new();
        for conn_id in 0..50 {
            let (handle, shutdown_rx, rx) = test_connection_handle();
            receivers.insert(conn_id, rx);
            shutdowns.insert(conn_id, shutdown_rx);
            let maps = maps.clone();
            let id = device_id.duplicate();
            tasks.push(tokio::spawn(async move {
                let mut guard = maps.lock().await;
                let (writer_map, conn_id_map) = &mut *guard;
                install_connection(writer_map, conn_id_map, id, conn_id, handle);
            }));
        }
        for task in tasks {
            task.await.unwrap();
        }
        let mut guard = maps.lock().await;
        let current_conn_id = guard
            .1
            .get(&device_id)
            .copied()
            .expect("missing current conn_id");
        let sender = sender_to(&mut guard.0, &device_id).expect("missing current writer");
        sender
            .send(ProtocolPacket::new(PacketType::Ping, PacketBody::Empty))
            .unwrap();
        let current_rx = receivers
            .get_mut(&current_conn_id)
            .expect("missing current receiver");
        assert!(matches!(
            timeout(Duration::from_secs(1), current_rx.recv()).await,
            Ok(Some(packet)) if matches!(packet.packet_type, PacketType::Ping)
        ));
        for (conn_id, mut shutdown_rx) in shutdowns {
            if conn_id == current_conn_id {
                assert!(!*shutdown_rx.borrow());
            } else if !*shutdown_rx.borrow() {
                timeout(Duration::from_secs(1), shutdown_rx.changed())
                    .await
                    .expect("superseded connection was not shut down")
                    .unwrap();
                assert!(*shutdown_rx.borrow());
            }
        }
    });
}

#[test]
fn pairing_attempt_cancellation_is_per_device() {
    let mut attempts = DeviceMap::new();
    let first_id = test_device_id("attempt-first");
    let second_id = test_device_id("attempt-second");
    attempts.insert(first_id.duplicate(), 7);
    attempts.insert(second_id.duplicate(), 13);
    remove_pairing_attempt(&mut attempts, &first_id);
    assert!(!attempts.contains_key(&first_id));
    assert_eq!(attempts.get(&second_id).copied(), Some(13));
}

#[test]
fn unpaired_resync_packet_is_pair_false_without_timestamp() {
    let pkt = pair_false_packet();
    assert!(matches!(pkt.packet_type, PacketType::Pair));
    let pair = match pkt.body {
        PacketBody::Pair(pair) => pair,
        other => panic!("not a pair body: {other:?}"),
    };
    assert!(!pair.pair);
    assert!(pair.timestamp.is_none());
}

#[test]
fn only_protocol_packets_can_be_sent_before_pairing() {
    let feature_packets = [
        PacketType::Battery,
        PacketType::BatteryRequest,
        PacketType::Clipboard,
        PacketType::ClipboardConnect,
        PacketType::ConnectivityReport,
        PacketType::ConnectivityReportRequest,
        PacketType::Digitizer,
        PacketType::DigitizerSession,
        PacketType::ContactsRequestAllUidsTimestamps,
        PacketType::ContactsRequestVcardsByUid,
        PacketType::ContactsResponseUidsTimestamps,
        PacketType::ContactsResponseVcards,
        PacketType::FindMyPhoneRequest,
        PacketType::Lock,
        PacketType::LockRequest,
        PacketType::MousePadEcho,
        PacketType::MousePadKeyboardState,
        PacketType::MousePadRequest,
        PacketType::Mpris,
        PacketType::MprisRequest,
        PacketType::Notification,
        PacketType::NotificationAction,
        PacketType::NotificationReply,
        PacketType::NotificationRequest,
        PacketType::Ping,
        PacketType::Presenter,
        PacketType::RunCommand,
        PacketType::RunCommandRequest,
        PacketType::Sftp,
        PacketType::SftpRequest,
        PacketType::ShareRequest,
        PacketType::ShareRequestUpdate,
        PacketType::SmsAttachmentFile,
        PacketType::SmsMessages,
        PacketType::SmsRequest,
        PacketType::SmsRequestAttachment,
        PacketType::SmsRequestConversation,
        PacketType::SmsRequestConversations,
        PacketType::SystemVolume,
        PacketType::SystemVolumeRequest,
        PacketType::Telephony,
        PacketType::TelephonyRequestMute,
        PacketType::Unknown("kdeconnect.future.packet".to_string()),
    ];
    for pt in feature_packets {
        assert!(
            !packet_allowed_for_pair_state(&pt, Some(PairState::NotPaired)),
            "{pt:?} should not be sent before pairing"
        );
        assert!(
            packet_allowed_for_pair_state(&pt, Some(PairState::Paired)),
            "{pt:?} should be sent when paired"
        );
    }
    assert!(packet_allowed_for_pair_state(
        &PacketType::Pair,
        Some(PairState::NotPaired)
    ));
    assert!(packet_allowed_for_pair_state(
        &PacketType::Identity,
        Some(PairState::NotPaired)
    ));
}

#[test]
fn unpaired_resync_is_throttled_per_device() {
    let mut limiter = UnpairedResyncLimiter::new();
    let first_id = test_device_id("resync-first");
    let second_id = test_device_id("resync-second");
    let now: u64 = 1_000_000_000_000;
    assert!(limiter.should_send_at(&first_id, now));
    assert!(!limiter.should_send_at(&first_id, now));
    assert!(limiter.should_send_at(&second_id, now));
    assert!(limiter.should_send_at(&first_id, now + UNPAIRED_RESYNC_INTERVAL));
    limiter.clear(&first_id);
    assert!(limiter.should_send_at(&first_id, now));
}

#[test]
fn a_second_removal_tells_no_link() {
    let mut writer_map = DeviceMap::new();
    let mut conn_id_map = DeviceMap::new();
    let device_id = test_device_id("remove-twice");
    let (handle, shutdown, _rx) = test_connection_handle();
    let (other, other_shutdown, _other_rx) = test_connection_handle();
    let other_id = test_device_id("remove-other");

    install_connection(&mut writer_map, &mut conn_id_map, device_id.duplicate(), 5, handle);
    install_connection(&mut writer_map, &mut conn_id_map, other_id.duplicate(), 5, other);
    let current = remove_connection_if_current(&mut writer_map, &mut conn_id_map, &device_id, 5);
    assert!(current.is_some());
    assert!(*shutdown.borrow());
    assert!(remove_connection(&mut writer_map, &mut conn_id_map, &device_id).is_none());
    assert!(
        remove_connection_if_current(&mut writer_map, &mut conn_id_map, &device_id, 5).is_none()
    );
    assert!(!*other_shutdown.borrow());
    assert_eq!(writer_map.len(), 1);
    assert_eq!(conn_id_map.len(), 1);
}

#[test]
fn of_many_arrivals_the_last_stays() {
    let mut writer_map = DeviceMap::new();
    let mut conn_id_map = DeviceMap::new();
    let device_id = test_device_id("arrivals");
    let mut shutdowns = Vec::new();
    for conn_id in [9, 2, 7, 4] {
        let (handle, shutdown, _rx) = test_connection_handle();
        shutdowns.push(shutdown);
        install_connection(
            &mut writer_map,
            &mut conn_id_map,
            device_id.duplicate(),
            conn_id,
            handle,
        );
    }
    let told: Vec<bool> = shutdowns.iter().map(|shutdown| *shutdown.borrow()).collect();
    assert_eq!(told, [true, true, true, false]);
    assert!(is_current_connection(&conn_id_map, &device_id, 4));
}

#[test]
fn packets_are_written_to_one_link_only() {
    let mut writer_map = DeviceMap::new();
    let mut conn_id_map = DeviceMap::new();
    let (handle, _shutdown, mut rx) = test_connection_handle();
    let (other, _other_shutdown, mut other_rx) = test_connection_handle();
    let device_id = test_device_id("write-one");
    let other_id = test_device_id("write-other");
    install_connection(&mut writer_map, &mut conn_id_map, device_id.duplicate(), 1, handle);
    install_connection(&mut writer_map, &mut conn_id_map, other_id, 1, other);
    let ping = || ProtocolPacket::new(PacketType::Ping, PacketBody::Empty);
    assert_eq!(write_packet(&mut writer_map, &device_id, ping()), Some(true));
    assert!(rx.try_recv().is_ok());
    assert!(rx.try_recv().is_err());
    assert!(other_rx.try_recv().is_err());
    drop(rx);
    assert_eq!(write_packet(&mut writer_map, &device_id, ping()), Some(false));
    let stranger = test_device_id("write-nobody");
    assert_eq!(write_packet(&mut writer_map, &stranger, ping()), None);
    assert!(sender_to(&mut writer_map, &stranger).is_none());
}

#[test]
fn a_table_keeps_one_entry_per_device() {
    let mut table: DeviceMap<u64> = DeviceMap::new();
    let first = test_device_id("table-first");
    let second = test_device_id("table-second");
    assert_eq!(table.insert(first.duplicate(), 1), None);
    assert_eq!(table.insert(second.duplicate(), 2), None);
    assert_eq!(table.insert(first.duplicate(), 3), Some(1));
    assert_eq!(table.len(), 2);
    assert_eq!(table.get(&first), Some(&3));
    assert_eq!(table.remove(&first), Some(3));
    assert_eq!(table.remove(&first), None);
    assert!(!table.contains_key(&first));
    assert_eq!(table.get(&second), Some(&2));
}
