//! What is kept on disk about devices: which of it is read back at the start, and which of it goes
//! when a device is forgotten.
use vstd::prelude::*;

use crate::device::{Device, DeviceId, PairState};
use crate::text::{begins_with, same_text};

verus! {

/// How often paired devices that are not connected are called for, in seconds.
pub const RECONNECT_INTERVAL_SECS: u64 = 60;

/// Whether a file with this extension holds the record of a device.
pub fn is_device_file(extension: Option<&str>) -> (holds_device: bool)
    ensures
        holds_device == (extension matches Some(text) && text@ == "ron"@),
{
    match extension {
        Some(text) => same_text(text, "ron"),
        None => false,
    }
}

/// What a record read at the start puts back: the device if it is paired, and nothing if it is
/// not or if the record could not be read.
pub fn restored(record: Option<Device>) -> (entry: Option<(DeviceId, Device)>)
    ensures
        entry == (match record {
            Some(device) => if device.pair_state == PairState::Paired {
                Some((device.device_id, device))
            } else {
                None
            },
            None => None,
        }),
{
    match record {
        Some(device) => match device.pair_state {
            PairState::Paired => Some((device.device_id.duplicate(), device)),
            _ => None,
        },
        None => None,
    }
}

/// The two places where data about devices is kept.
#[derive(Clone, Copy, Debug, PartialEq, Eq, Structural)]
pub enum Place {
    Config,
    Cache,
}

/// What the program came upon while it cleaned up.
#[derive(Clone, Copy, Debug)]
pub enum Found<'a> {
    /// Nothing yet.
    Start,
    /// The system has no such place.
    NoPlace,
    /// The place cannot be read.
    Unreadable,
    /// The place can be read.
    Opened,
    /// An entry, and its name without the extension where that is text.
    Entry(Option<&'a str>),
    /// Whether the entry that was looked at is a directory.
    Directory(bool),
    /// The entry is gone, or could not be removed.
    Removed,
    /// There are no more entries, or they cannot be read.
    End,
}

/// What to do next while cleaning up.
#[derive(Clone, Copy, Debug, PartialEq, Eq, Structural)]
pub enum Chore {
    /// Open a place.
    Open(Place),
    /// Go on to the next entry.
    NextEntry,
    /// See whether the entry is a directory.
    LookAt,
    RemoveFile,
    /// Remove the directory and what is in it.
    RemoveDirectory,
    /// All was cleaned up.
    Finish,
    /// Leave the rest as it is.
    GiveUp,
}

/// Whether an entry belongs to a device: its name begins with the identifier.
pub open spec fn belongs(device_id: Seq<char>, stem: Option<&str>) -> bool {
    stem matches Some(text) && device_id.is_prefix_of(text@)
}

/// The next chore. First the config files of the device go, then its cache; a place that cannot be
/// read ends it all.
pub open spec fn chore(device_id: Seq<char>, place: Place, found: Found<'_>) -> Chore {
    match found {
        Found::Start => Chore::Open(Place::Config),
        Found::Unreadable => Chore::GiveUp,
        Found::Opened | Found::Removed => Chore::NextEntry,
        Found::Entry(stem) => if !belongs(device_id, stem) {
            Chore::NextEntry
        } else if place == Place::Config {
            Chore::RemoveFile
        } else {
            Chore::LookAt
        },
        Found::Directory(is_directory) => if is_directory {
            Chore::RemoveDirectory
        } else {
            Chore::RemoveFile
        },
        Found::NoPlace | Found::End => if place == Place::Config {
            Chore::Open(Place::Cache)
        } else {
            Chore::Finish
        },
    }
}

/// One moment of cleaning up: what was found, and in which place.
pub struct Visit<'a> {
    pub place: Place,
    pub found: Found<'a>,
}

/// Whether this can be found after a chore. Opening a place leads there; everything else goes on
/// where it was.
pub open spec fn comes_of(place: Place, chore: Chore, visit: Visit<'_>) -> bool {
    match chore {
        Chore::Open(next) => visit.place == next && (visit.found is NoPlace || visit.found
            is Unreadable || visit.found is Opened),
        Chore::NextEntry => visit.place == place && (visit.found is Entry || visit.found is End),
        Chore::LookAt => visit.place == place && visit.found is Directory,
        Chore::RemoveFile | Chore::RemoveDirectory => visit.place == place && visit.found
            is Removed,
        Chore::Finish | Chore::GiveUp => false,
    }
}

/// Decides the next chore in cleaning up after a device, from what was just found in a place.
pub fn cleanup_device_data(device_id: &str, place: Place, found: Found<'_>) -> (next: Chore)
    ensures
        next == chore(device_id@, place, found),
{
    match found {
        Found::Start => Chore::Open(Place::Config),
        Found::Unreadable => Chore::GiveUp,
        Found::Opened | Found::Removed => Chore::NextEntry,
        Found::Entry(stem) => {
            let mine = match stem {
                Some(text) => begins_with(text, device_id),
                None => false,
            };
            if !mine {
                Chore::NextEntry
            } else {
                match place {
                    Place::Config => Chore::RemoveFile,
                    Place::Cache => Chore::LookAt,
                }
            }
        },
        Found::Directory(is_directory) => if is_directory {
            Chore::RemoveDirectory
        } else {
            Chore::RemoveFile
        },
        Found::NoPlace | Found::End => match place {
            Place::Config => Chore::Open(Place::Cache),
            Place::Cache => Chore::Finish,
        },
    }
}

} // verus!
