//! Transfers of payloads and cleaning up, from beginning to end.
use vstd::prelude::*;

use crate::plugin_interface;
use crate::plugin_interface::{PayloadAction, PayloadProgress};
use crate::protocol::PacketType;
use crate::storage;
use crate::storage::{Chore, Found, Place, Visit};

verus! {

/// Whether this is the progress of a transfer, from the request on: each comes of the step that
/// followed on the one before.
pub open spec fn transfers(packet_type: PacketType, progress: Seq<PayloadProgress>) -> bool {
    &&& progress.len() > 0
    &&& progress[0] is Requested
    &&& forall|i: int| 0 < i < progress.len() ==> #[trigger] goes_on(packet_type, progress, i)
}

/// Whether the progress at one point comes of the step that followed on the progress before.
pub open spec fn goes_on(
    packet_type: PacketType,
    progress: Seq<PayloadProgress>,
    i: int,
) -> bool {
    plugin_interface::payload_step(packet_type, progress[i - 1]) matches Some(action)
        && plugin_interface::comes_of(action, progress[i])
}

/// How far a transfer has come, counted in steps.
pub open spec fn stage(progress: PayloadProgress) -> int {
    match progress {
        PayloadProgress::Requested => 0,
        PayloadProgress::ListenerReady | PayloadProgress::ListenerFailed => 1,
        PayloadProgress::AddressKnown(_) | PayloadProgress::AddressUnknown => 2,
        PayloadProgress::Announced => 3,
        PayloadProgress::PeerConnected | PayloadProgress::PeerFailed => 4,
        PayloadProgress::Secured | PayloadProgress::HandshakeFailed => 5,
        PayloadProgress::Copied | PayloadProgress::CopyFailed => 6,
        PayloadProgress::Flushed | PayloadProgress::FlushFailed => 7,
        PayloadProgress::StreamClosed => 8,
        PayloadProgress::Reported => 9,
    }
}

/// A transfer goes one stage further with each step.
proof fn lemma_stages(packet_type: PacketType, progress: Seq<PayloadProgress>, i: int)
    requires
        transfers(packet_type, progress),
        0 <= i < progress.len(),
    ensures
        stage(progress[i]) == i,
        i + 1 < progress.len() ==> plugin_interface::payload_step(packet_type, progress[i]) is Some,
    decreases i,
{
    if i > 0 {
        lemma_stages(packet_type, progress, i - 1);
        assert(goes_on(packet_type, progress, i));
    }
    if i + 1 < progress.len() {
        assert(goes_on(packet_type, progress, i + 1));
    }
}

/// Every transfer ends: it goes through each stage at most once.
pub proof fn law_every_transfer_ends(packet_type: PacketType, progress: Seq<PayloadProgress>)
    requires
        transfers(packet_type, progress),
    ensures
        progress.len() <= 10,
        forall|i: int| 0 <= i < progress.len() ==> stage(#[trigger] progress[i]) == i,
{
    assert forall|i: int| 0 <= i < progress.len() implies stage(#[trigger] progress[i]) == i by {
        lemma_stages(packet_type, progress, i);
    }
    if progress.len() > 10 {
        assert(stage(progress[10]) == 10);
    }
}

/// A transfer is reported as done only if a plugin announced the payload, the peer came for it and
/// was secured, and the payload was copied in full and flushed, in this order, before the stream was
/// closed.
pub proof fn law_only_complete_transfers_are_reported(
    packet_type: PacketType,
    progress: Seq<PayloadProgress>,
)
    requires
        transfers(packet_type, progress),
        plugin_interface::payload_step(packet_type, progress.last()) == Some(
            PayloadAction::ReportDone,
        ),
    ensures
        plugin_interface::payload_kind(packet_type) is Some,
        progress.len() == 9,
        progress[1] is ListenerReady,
        progress[2] is AddressKnown,
        progress[3] is Announced,
        progress[4] is PeerConnected,
        progress[5] is Secured,
        progress[6] is Copied,
        progress[7] is Flushed,
        progress[8] is StreamClosed,
{
    law_every_transfer_ends(packet_type, progress);
    assert forall|i: int| 0 <= i < progress.len() - 1 implies plugin_interface::payload_step(
        packet_type,
        #[trigger] progress[i],
    ) is Some by {
        lemma_stages(packet_type, progress, i);
    }
    assert(progress.last() is StreamClosed);
    assert(stage(progress[progress.len() - 1]) == progress.len() - 1);
    assert(stage(progress[1]) == 1 && stage(progress[2]) == 2 && stage(progress[3]) == 3 && stage(
        progress[4],
    ) == 4 && stage(progress[5]) == 5 && stage(progress[6]) == 6 && stage(progress[7]) == 7);
}

/// Whether this is how cleaning up after a device goes, from the start on: each moment comes of the
/// chore that followed on the one before.
pub open spec fn cleans_up(device_id: Seq<char>, visits: Seq<Visit<'_>>) -> bool {
    &&& visits.len() > 0
    &&& visits[0].place == Place::Config && visits[0].found is Start
    &&& forall|i: int| 0 < i < visits.len() ==> #[trigger] follows(device_id, visits, i)
}

/// Whether a moment comes of the chore that followed on the one before.
pub open spec fn follows(device_id: Seq<char>, visits: Seq<Visit<'_>>, i: int) -> bool {
    storage::comes_of(visits[i - 1].place, chore_at(device_id, visits, i - 1), visits[i])
}

/// The chore that follows on a moment.
pub open spec fn chore_at(device_id: Seq<char>, visits: Seq<Visit<'_>>, i: int) -> Chore {
    storage::chore(device_id, visits[i].place, visits[i].found)
}

/// Whether an entry, and one that belongs to the device, was found at a moment.
pub open spec fn finds_own_entry(device_id: Seq<char>, visits: Seq<Visit<'_>>, i: int) -> bool {
    visits[i].found matches Found::Entry(stem) && storage::belongs(device_id, stem)
}

/// Whether something is removed at a moment.
pub open spec fn removes(device_id: Seq<char>, visits: Seq<Visit<'_>>, i: int) -> bool {
    chore_at(device_id, visits, i) == Chore::RemoveFile || chore_at(device_id, visits, i)
        == Chore::RemoveDirectory
}

/// The moment at which the entry that is removed now was found: this one, or the one before if the
/// entry was looked at first.
pub open spec fn found_at(visits: Seq<Visit<'_>>, i: int) -> int {
    if visits[i].found is Directory {
        i - 1
    } else {
        i
    }
}

/// Whatever is removed is an entry that belongs to the device; and no entry is removed twice.
pub proof fn law_only_own_entries_are_removed(
    device_id: Seq<char>,
    visits: Seq<Visit<'_>>,
    i: int,
    j: int,
)
    requires
        cleans_up(device_id, visits),
        0 <= i < visits.len(),
        removes(device_id, visits, i),
        0 <= j < visits.len(),
        removes(device_id, visits, j),
    ensures
        0 <= found_at(visits, i) < visits.len(),
        finds_own_entry(device_id, visits, found_at(visits, i)),
        visits[found_at(visits, i)].place == visits[i].place,
        found_at(visits, i) == found_at(visits, j) ==> i == j,
{
    assert(i > 0 ==> follows(device_id, visits, i));
    assert(j > 0 ==> follows(device_id, visits, j));
}

/// When cleaning up is finished, every entry that belongs to the device and was come upon was
/// removed: from the configuration as a file, from the cache as what it was seen to be.
pub proof fn law_all_own_entries_are_removed(
    device_id: Seq<char>,
    visits: Seq<Visit<'_>>,
    i: int,
)
    requires
        cleans_up(device_id, visits),
        chore_at(device_id, visits, visits.len() - 1) == Chore::Finish,
        0 <= i < visits.len(),
        finds_own_entry(device_id, visits, i),
    ensures
        match visits[i].place {
            Place::Config => chore_at(device_id, visits, i) == Chore::RemoveFile,
            Place::Cache => {
                &&& i + 1 < visits.len()
                &&& visits[i + 1].found matches Found::Directory(is_directory)
                &&& chore_at(device_id, visits, i + 1) == if is_directory {
                    Chore::RemoveDirectory
                } else {
                    Chore::RemoveFile
                }
            },
        },
{
    assert(i < visits.len() - 1);
    assert(follows(device_id, visits, i + 1));
}

/// The configuration comes first: as long as the cache was not opened, all moments are there; from
/// then on all are in the cache.
proof fn lemma_places(device_id: Seq<char>, visits: Seq<Visit<'_>>, n: int)
    requires
        cleans_up(device_id, visits),
        0 <= n < visits.len(),
    ensures
        visits[n].place == Place::Config ==> forall|i: int|
            0 <= i <= n ==> (#[trigger] visits[i]).place == Place::Config,
        visits[n].place == Place::Cache ==> exists|k: int| #[trigger]
            turns_to_cache(device_id, visits, k, n),
    decreases n,
{
    if n > 0 {
        lemma_places(device_id, visits, n - 1);
        assert(follows(device_id, visits, n));
        assert(n > 1 ==> follows(device_id, visits, n - 1));
        if visits[n].place == Place::Cache {
            if visits[n - 1].place == Place::Config {
                assert(turns_to_cache(device_id, visits, n - 1, n));
            } else {
                let k = choose|k: int| #[trigger] turns_to_cache(device_id, visits, k, n - 1);
                assert(turns_to_cache(device_id, visits, k, n));
            }
        }
    }
}

/// Whether the configuration was done with at one moment, at the end of its entries or for want of
/// such a place, and the cache gone through from then on up to another moment.
pub open spec fn turns_to_cache(
    device_id: Seq<char>,
    visits: Seq<Visit<'_>>,
    k: int,
    n: int,
) -> bool {
    &&& 0 <= k < n < visits.len()
    &&& visits[k].found is End || visits[k].found is NoPlace
    &&& chore_at(device_id, visits, k) == Chore::Open(Place::Cache)
    &&& forall|i: int| 0 <= i <= k ==> (#[trigger] visits[i]).place == Place::Config
    &&& forall|i: int| k < i <= n ==> (#[trigger] visits[i]).place == Place::Cache
}

/// When cleaning up is finished, both places were gone through to the end, first the configuration
/// and then the cache, unless the system has no such place.
pub proof fn law_both_places_are_gone_through(device_id: Seq<char>, visits: Seq<Visit<'_>>)
    requires
        cleans_up(device_id, visits),
        chore_at(device_id, visits, visits.len() - 1) == Chore::Finish,
    ensures
        visits.last().found is End || visits.last().found is NoPlace,
        exists|k: int| #[trigger] turns_to_cache(device_id, visits, k, visits.len() - 1),
{
    lemma_places(device_id, visits, visits.len() - 1);
}

} // verus!
