//! Tables keyed by device.
use vstd::prelude::*;

use crate::device::DeviceId;
use crate::text::same_text;

verus! {

/// The identifiers in a table, in order.
spec fn keys<V>(entries: Seq<(DeviceId, V)>) -> Seq<Seq<char>> {
    entries.map_values(|entry: (DeviceId, V)| entry.0@)
}

/// What a list of entries stands for.
spec fn contents<V: View>(entries: Seq<(DeviceId, V)>) -> Map<Seq<char>, V::V>
    decreases entries.len(),
{
    if entries.len() == 0 {
        Map::empty()
    } else {
        contents(entries.drop_last()).insert(entries.last().0@, entries.last().1@)
    }
}

/// A device has an entry exactly if one is found in the list.
proof fn lemma_has_entry<V: View>(entries: Seq<(DeviceId, V)>, device: Seq<char>)
    ensures
        contents(entries).contains_key(device) <==> exists|i: int|
            0 <= i < entries.len() && (#[trigger] entries[i]).0@ == device,
    decreases entries.len(),
{
    if entries.len() > 0 {
        let rest = entries.drop_last();
        lemma_has_entry(rest, device);
        if contents(rest).contains_key(device) {
            let i = choose|i: int| 0 <= i < rest.len() && (#[trigger] rest[i]).0@ == device;
            assert(entries[i].0@ == device);
        }
        if exists|i: int| 0 <= i < entries.len() && (#[trigger] entries[i]).0@ == device {
            let i = choose|i: int| 0 <= i < entries.len() && (#[trigger] entries[i]).0@ == device;
            if i < rest.len() {
                assert(rest[i].0@ == device);
            }
        }
    }
}

/// Where no device occurs twice, none does without the last entry.
proof fn lemma_rest_distinct<V>(entries: Seq<(DeviceId, V)>)
    requires
        keys(entries).no_duplicates(),
        entries.len() > 0,
    ensures
        keys(entries.drop_last()).no_duplicates(),
{
    let rest = entries.drop_last();
    assert forall|i: int, j: int|
        0 <= i < keys(rest).len() && 0 <= j < keys(rest).len() && i != j implies keys(rest)[i]
        != keys(rest)[j] by {
        assert(keys(rest)[i] == keys(entries)[i]);
        assert(keys(rest)[j] == keys(entries)[j]);
    }
}

/// Where no device occurs twice, each entry of the list is the entry of its device.
proof fn lemma_entry<V: View>(entries: Seq<(DeviceId, V)>, at: int)
    requires
        keys(entries).no_duplicates(),
        0 <= at < entries.len(),
    ensures
        contents(entries).contains_key(entries[at].0@),
        contents(entries)[entries[at].0@] == entries[at].1@,
    decreases entries.len(),
{
    let rest = entries.drop_last();
    lemma_rest_distinct(entries);
    if at < rest.len() {
        lemma_entry(rest, at);
        assert(rest[at] == entries[at]);
        assert(keys(entries)[at] != keys(entries)[entries.len() - 1]);
    }
}

/// Where no device occurs twice, there are as many devices as entries.
proof fn lemma_len<V: View>(entries: Seq<(DeviceId, V)>)
    requires
        keys(entries).no_duplicates(),
    ensures
        contents(entries).dom().finite(),
        contents(entries).len() == entries.len(),
    decreases entries.len(),
{
    if entries.len() > 0 {
        let rest = entries.drop_last();
        lemma_rest_distinct(entries);
        lemma_len(rest);
        lemma_has_entry(rest, entries.last().0@);
        assert forall|i: int| 0 <= i < rest.len() implies (#[trigger] rest[i]).0@
            != entries.last().0@ by {
            assert(keys(entries)[i] != keys(entries)[entries.len() - 1]);
        }
    }
}

/// Taking an entry out of the list takes that device out of the table.
proof fn lemma_without<V: View>(entries: Seq<(DeviceId, V)>, at: int)
    requires
        keys(entries).no_duplicates(),
        0 <= at < entries.len(),
    ensures
        keys(entries.remove(at)).no_duplicates(),
        contents(entries.remove(at)) == contents(entries).remove(entries[at].0@),
{
    let device = entries[at].0@;
    let after = entries.remove(at);
    assert forall|i: int, j: int|
        0 <= i < keys(after).len() && 0 <= j < keys(after).len() && i != j implies keys(after)[i]
        != keys(after)[j] by {
        let oi = if i < at { i } else { i + 1 };
        let oj = if j < at { j } else { j + 1 };
        assert(keys(after)[i] == keys(entries)[oi]);
        assert(keys(after)[j] == keys(entries)[oj]);
    }
    assert forall|other: Seq<char>|
        #![trigger contents(after).dom().contains(other)]
        #![trigger contents(after)[other]]
        contents(after).dom().contains(other) == (contents(entries).dom().contains(other) && other
            != device) && (contents(after).dom().contains(other) ==> contents(after)[other]
            == contents(entries)[other]) by {
        lemma_has_entry(after, other);
        lemma_has_entry(entries, other);
        if contents(after).contains_key(other) {
            let i = choose|i: int| 0 <= i < after.len() && (#[trigger] after[i]).0@ == other;
            let oi = if i < at { i } else { i + 1 };
            assert(after[i] == entries[oi]);
            assert(keys(entries)[oi] != keys(entries)[at]);
            lemma_entry(after, i);
            lemma_entry(entries, oi);
        }
        if contents(entries).contains_key(other) && other != device {
            let oi = choose|i: int| 0 <= i < entries.len() && (#[trigger] entries[i]).0@ == other;
            let i = if oi < at { oi } else { oi - 1 };
            assert(after[i] == entries[oi]);
        }
    }
    assert(contents(after) =~= contents(entries).remove(device));
}

/// A table with at most one entry per device. Its view maps the text of the identifier to the view
/// of the entry.
#[verifier::reject_recursive_types(V)]
pub struct DeviceMap<V: View> {
    entries: Vec<(DeviceId, V)>,
}

impl<V: View> View for DeviceMap<V> {
    type V = Map<Seq<char>, V::V>;

    closed spec fn view(&self) -> Map<Seq<char>, V::V> {
        contents(self.entries@)
    }
}

impl<V: View> DeviceMap<V> {
    #[verifier::type_invariant]
    spec fn distinct(self) -> bool {
        keys(self.entries@).no_duplicates()
    }

    /// A table without entries.
    pub fn new() -> (map: DeviceMap<V>)
        ensures
            map@ == Map::<Seq<char>, V::V>::empty(),
    {
        DeviceMap { entries: Vec::new() }
    }

    /// The number of devices with an entry.
    pub fn len(&self) -> (len: usize)
        ensures
            len == self@.len(),
    {
        proof {
            use_type_invariant(self);
            lemma_len(self.entries@);
        }
        self.entries.len()
    }

    /// Where the entry of a device stands, or the number of entries.
    fn position(&self, device_id: &DeviceId) -> (at: usize)
        ensures
            at <= self.entries@.len(),
            at < self.entries@.len() ==> self.entries@[at as int].0@ == device_id@,
            (at < self.entries@.len()) == self@.contains_key(device_id@),
    {
        let mut i: usize = 0;
        while i < self.entries.len()
            invariant
                i <= self.entries@.len(),
                forall|j: int| 0 <= j < i ==> (#[trigger] self.entries@[j]).0@ != device_id@,
            decreases self.entries@.len() - i,
        {
            if same_text(self.entries[i].0.0.as_str(), device_id.0.as_str()) {
                proof {
                    lemma_has_entry(self.entries@, device_id@);
                }
                return i;
            }
            i = i + 1;
        }
        proof {
            lemma_has_entry(self.entries@, device_id@);
        }
        i
    }

    /// Whether a device has an entry.
    pub fn contains_key(&self, device_id: &DeviceId) -> (found: bool)
        ensures
            found == self@.contains_key(device_id@),
    {
        self.position(device_id) < self.entries.len()
    }

    /// The entry of a device.
    pub fn get(&self, device_id: &DeviceId) -> (entry: Option<&V>)
        ensures
            match entry {
                Some(v) => self@.contains_key(device_id@) && v@ == self@[device_id@],
                None => !self@.contains_key(device_id@),
            },
    {
        let at = self.position(device_id);
        if at < self.entries.len() {
            proof {
                use_type_invariant(self);
                lemma_entry(self.entries@, at as int);
            }
            Some(&self.entries[at].1)
        } else {
            None
        }
    }

    /// Sets the entry of a device, and gives back the one before.
    pub fn insert(&mut self, device_id: DeviceId, value: V) -> (previous: Option<V>)
        ensures
            final(self)@ == old(self)@.insert(device_id@, value@),
            match previous {
                Some(v) => old(self)@.contains_key(device_id@) && v@ == old(self)@[device_id@],
                None => !old(self)@.contains_key(device_id@),
            },
    {
        let previous = self.remove(&device_id);
        proof {
            use_type_invariant(&*self);
        }
        let ghost without = self.entries@;
        let ghost device = device_id@;
        let mut entries = Vec::new();
        std::mem::swap(&mut entries, &mut self.entries);
        entries.push((device_id, value));
        proof {
            lemma_has_entry(without, device);
            assert(entries@.drop_last() =~= without);
            assert forall|i: int, j: int|
                0 <= i < keys(entries@).len() && 0 <= j < keys(entries@).len() && i
                    != j implies keys(entries@)[i] != keys(entries@)[j] by {
                if i < without.len() {
                    assert(keys(entries@)[i] == keys(without)[i]);
                    assert(without[i].0@ != device);
                }
                if j < without.len() {
                    assert(keys(entries@)[j] == keys(without)[j]);
                    assert(without[j].0@ != device);
                }
            }
            assert(contents(entries@) =~= old(self)@.insert(device, value@));
        }
        self.entries = entries;
        previous
    }

    /// Removes the entry of a device, and gives it back, if it has one.
    pub fn remove(&mut self, device_id: &DeviceId) -> (removed: Option<V>)
        ensures
            final(self)@ == old(self)@.remove(device_id@),
            match removed {
                Some(v) => old(self)@.contains_key(device_id@) && v@ == old(self)@[device_id@],
                None => !old(self)@.contains_key(device_id@),
            },
    {
        let at = self.position(device_id);
        if at >= self.entries.len() {
            assert(self@ =~= old(self)@.remove(device_id@));
            return None;
        }
        proof {
            use_type_invariant(&*self);
            lemma_entry(self.entries@, at as int);
            lemma_without(self.entries@, at as int);
        }
        let mut entries = Vec::new();
        std::mem::swap(&mut entries, &mut self.entries);
        let (_, value) = entries.remove(at);
        self.entries = entries;
        Some(value)
    }
}

} // verus!
