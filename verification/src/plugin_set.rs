//! Sets of plugin identifiers.
use vstd::prelude::*;

use crate::text::same_text;

verus! {

/// The texts in a list.
pub open spec fn texts(names: Seq<String>) -> Seq<Seq<char>> {
    names.map_values(|name: String| name@)
}

/// A set of plugin identifiers, as kept for the plugins that are switched off for a device.
#[derive(Debug)]
pub struct PluginSet {
    names: Vec<String>,
}

impl View for PluginSet {
    type V = Set<Seq<char>>;

    closed spec fn view(&self) -> Set<Seq<char>> {
        texts(self.names@).to_set()
    }
}

impl PluginSet {
    #[verifier::type_invariant]
    spec fn distinct(self) -> bool {
        texts(self.names@).no_duplicates()
    }

    /// The set without members.
    pub fn new() -> (set: PluginSet)
        ensures
            set@ == Set::<Seq<char>>::empty(),
    {
        let set = PluginSet { names: Vec::new() };
        assert(set@ =~= Set::<Seq<char>>::empty());
        set
    }

    /// The set of the identifiers in a list.
    pub fn from_names(names: Vec<String>) -> (set: PluginSet)
        ensures
            set@ == texts(names@).to_set(),
    {
        let mut set = PluginSet::new();
        let mut i: usize = 0;
        assert(texts(names@.take(0)).to_set() =~= Set::<Seq<char>>::empty());
        while i < names.len()
            invariant
                i <= names@.len(),
                set@ == texts(names@.take(i as int)).to_set(),
            decreases names@.len() - i,
        {
            set.insert(names[i].clone());
            proof {
                let before = texts(names@.take(i as int));
                let after = texts(names@.take(i + 1));
                assert(after =~= before.push(names@[i as int]@));
                assert forall|x: Seq<char>| after.to_set().contains(x) == before.to_set().insert(
                    names@[i as int]@,
                ).contains(x) by {
                    if before.contains(x) {
                        let j = choose|j: int| 0 <= j < before.len() && before[j] == x;
                        assert(after[j] == x);
                    }
                    if x == names@[i as int]@ {
                        assert(after[i as int] == x);
                    }
                }
                assert(after.to_set() =~= before.to_set().insert(names@[i as int]@));
            }
            i = i + 1;
        }
        assert(names@.take(names@.len() as int) =~= names@);
        set
    }

    /// Where an identifier stands in the list, or the length of the list.
    fn position(&self, name: &str) -> (at: usize)
        ensures
            at <= self.names@.len(),
            at < self.names@.len() ==> self.names@[at as int]@ == name@,
            (at < self.names@.len()) == self@.contains(name@),
    {
        let mut i: usize = 0;
        while i < self.names.len()
            invariant
                i <= self.names@.len(),
                forall|j: int| 0 <= j < i ==> self.names@[j]@ != name@,
            decreases self.names@.len() - i,
        {
            if same_text(self.names[i].as_str(), name) {
                assert(texts(self.names@)[i as int] == name@);
                return i;
            }
            i = i + 1;
        }
        assert(!self@.contains(name@)) by {
            if texts(self.names@).contains(name@) {
                let j = choose|j: int|
                    0 <= j < texts(self.names@).len() && texts(self.names@)[j] == name@;
                assert(self.names@[j]@ == name@);
            }
        }
        i
    }

    /// Whether an identifier is in the set.
    pub fn contains(&self, name: &str) -> (found: bool)
        ensures
            found == self@.contains(name@),
    {
        self.position(name) < self.names.len()
    }

    /// Adds an identifier.
    pub fn insert(&mut self, name: String)
        ensures
            final(self)@ == old(self)@.insert(name@),
    {
        proof {
            use_type_invariant(&*self);
        }
        let ghost before = texts(self.names@);
        if self.contains(name.as_str()) {
            assert(self@ =~= old(self)@.insert(name@));
            return;
        }
        let ghost text = name@;
        let mut names = Vec::new();
        std::mem::swap(&mut names, &mut self.names);
        names.push(name);
        proof {
            let after = texts(names@);
            assert(after =~= before.push(text));
            assert forall|x: Seq<char>| after.to_set().contains(x) == before.to_set().insert(
                text,
            ).contains(x) by {
                if before.contains(x) {
                    let j = choose|j: int| 0 <= j < before.len() && before[j] == x;
                    assert(after[j] == x);
                }
                if x == text {
                    assert(after[before.len() as int] == x);
                }
            }
            assert(after.to_set() =~= before.to_set().insert(text));
            assert(after.no_duplicates());
        }
        self.names = names;
    }

    /// Takes an identifier out.
    pub fn remove(&mut self, name: &str)
        ensures
            final(self)@ == old(self)@.remove(name@),
    {
        proof {
            use_type_invariant(&*self);
        }
        let ghost before = texts(self.names@);
        let at = self.position(name);
        if at >= self.names.len() {
            assert(self@ =~= old(self)@.remove(name@));
            return;
        }
        let mut names = Vec::new();
        std::mem::swap(&mut names, &mut self.names);
        let _ = names.remove(at);
        proof {
            let after = texts(names@);
            assert(after =~= before.remove(at as int));
            assert(before[at as int] == name@);
            assert forall|x: Seq<char>| after.to_set().contains(x) == before.to_set().remove(
                name@,
            ).contains(x) by {
                if after.contains(x) {
                    let j = choose|j: int| 0 <= j < after.len() && after[j] == x;
                    let k = if j < at { j } else { j + 1 };
                    assert(before[k] == x);
                }
                if before.contains(x) && x != name@ {
                    let k = choose|k: int| 0 <= k < before.len() && before[k] == x;
                    let j = if k < at { k } else { k - 1 };
                    assert(after[j] == x);
                }
            }
            assert(after.to_set() =~= before.to_set().remove(name@));
            assert(after.no_duplicates());
        }
        self.names = names;
    }

    /// The identifiers, each once.
    pub fn names(&self) -> (names: &Vec<String>)
        ensures
            texts(names@).no_duplicates(),
            texts(names@).to_set() == self@,
    {
        proof {
            use_type_invariant(self);
        }
        &self.names
    }
}

} // verus!
