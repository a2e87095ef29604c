//! Records on disk, certificates and text.
use std::sync::Arc;

use kdeconnect_core::device::{Certificate, Device, DeviceId, PairState};
use kdeconnect_core::plan::network::is_certificate_changed;
use kdeconnect_core::storage::{
    cleanup_device_data, is_device_file, restored, Chore, Found, Place,
};
use kdeconnect_core::text::{begins_with, same_text};

fn device(pair_state: PairState) -> Device {
    Device {
        device_id: DeviceId("a".to_string()),
        name: "phone".to_string(),
        device_type: "phone".to_string(),
        address: "10.0.0.2".to_string(),
        incoming_capabilities: Arc::new(Vec::new()),
        outgoing_capabilities: Arc::new(Vec::new()),
        pair_state,
        protocol_version: 8,
        pairing_timestamp: 0,
        remote_certificate: None,
    }
}

#[test]
fn records_have_their_own_extension() {
    assert!(is_device_file(Some("ron")));
    assert!(!is_device_file(Some("RON")));
    assert!(!is_device_file(Some("ron2")));
    assert!(!is_device_file(None));
}

#[test]
fn only_paired_devices_are_restored() {
    let (id, device_back) = restored(Some(device(PairState::Paired))).unwrap();
    assert_eq!(id.0, "a");
    assert_eq!(device_back.name, "phone");
    assert!(restored(Some(device(PairState::Requested))).is_none());
    assert!(restored(Some(device(PairState::Requesting))).is_none());
    assert!(restored(Some(device(PairState::NotPaired))).is_none());
    assert!(restored(None).is_none());
}

#[test]
fn cleaning_up_goes_through_both_places() {
    let next = |place, found| cleanup_device_data("abc", place, found);
    assert_eq!(next(Place::Config, Found::Start), Chore::Open(Place::Config));
    assert_eq!(next(Place::Config, Found::Opened), Chore::NextEntry);
    assert_eq!(next(Place::Config, Found::Removed), Chore::NextEntry);
    assert_eq!(next(Place::Config, Found::End), Chore::Open(Place::Cache));
    assert_eq!(
        next(Place::Config, Found::NoPlace),
        Chore::Open(Place::Cache)
    );
    assert_eq!(next(Place::Config, Found::Unreadable), Chore::GiveUp);
    assert_eq!(next(Place::Cache, Found::Unreadable), Chore::GiveUp);
    assert_eq!(next(Place::Cache, Found::NoPlace), Chore::Finish);
    assert_eq!(next(Place::Cache, Found::End), Chore::Finish);
    assert_eq!(
        next(Place::Cache, Found::Directory(true)),
        Chore::RemoveDirectory
    );
    assert_eq!(
        next(Place::Cache, Found::Directory(false)),
        Chore::RemoveFile
    );
}

#[test]
fn cleaning_up_passes_over_other_entries() {
    let next = |place, stem| cleanup_device_data("abc", place, Found::Entry(stem));
    for (stem, mine) in [
        (Some("abc"), true),
        (Some("abc_plugins"), true),
        (Some("abcd"), true),
        (Some("ab"), false),
        (Some("xabc"), false),
        (Some(""), false),
        (None, false),
    ] {
        let (config, cache) = if mine {
            (Chore::RemoveFile, Chore::LookAt)
        } else {
            (Chore::NextEntry, Chore::NextEntry)
        };
        assert_eq!(next(Place::Config, stem), config);
        assert_eq!(next(Place::Cache, stem), cache);
    }
}

#[test]
fn certificates_are_compared_by_their_bytes() {
    let certificate = |bytes: &[u8]| Certificate::from_der(bytes.to_vec());
    assert!(certificate(&[]).is_none());
    assert_eq!(certificate(&[1, 2]).unwrap().der(), &vec![1, 2]);
    assert!(!is_certificate_changed(&certificate(&[1]), &certificate(&[1])));
    assert!(is_certificate_changed(&certificate(&[1]), &certificate(&[2])));
    assert!(is_certificate_changed(
        &certificate(&[1]),
        &certificate(&[1, 1])
    ));
    assert!(is_certificate_changed(&certificate(&[1]), &None));
    assert!(!is_certificate_changed(&None, &certificate(&[1])));
    assert!(!is_certificate_changed(&None, &None));
}

#[test]
fn text_is_compared_by_characters() {
    assert!(same_text("für", "für"));
    assert!(!same_text("für", "fur"));
    assert!(begins_with("fürth", "für"));
    assert!(begins_with("f", ""));
    assert!(!begins_with("f", "fü"));
    assert!(!begins_with("fur", "fü"));
}

#[test]
fn a_whole_clean_up_removes_each_own_entry_once() {
    let config = ["abc", "xyz", "abc_plugins"];
    let cache = [("abc", true), ("abc_icon", false), ("other", true)];
    let (mut config, mut cache) = (config.iter(), cache.iter());
    let mut removed = Vec::new();
    let mut place = Place::Config;
    let mut current = ("", false);
    let mut chore = cleanup_device_data("abc", place, Found::Start);
    loop {
        let found = match chore {
            Chore::Open(next) => {
                place = next;
                Found::Opened
            }
            Chore::NextEntry => {
                let next = match place {
                    Place::Config => config.next().map(|name| (*name, false)),
                    Place::Cache => cache.next().copied(),
                };
                match next {
                    Some(entry) => {
                        current = entry;
                        Found::Entry(Some(current.0))
                    }
                    None => Found::End,
                }
            }
            Chore::LookAt => Found::Directory(current.1),
            Chore::RemoveFile => {
                removed.push(format!("{place:?} file {}", current.0));
                Found::Removed
            }
            Chore::RemoveDirectory => {
                removed.push(format!("{place:?} directory {}", current.0));
                Found::Removed
            }
            Chore::Finish => break,
            Chore::GiveUp => panic!("gave up"),
        };
        chore = cleanup_device_data("abc", place, found);
    }
    assert_eq!(
        removed,
        [
            "Config file abc",
            "Config file abc_plugins",
            "Cache directory abc",
            "Cache file abc_icon"
        ]
    );
}
