//! A table from names to values, kept in the order of first definition.
use vstd::prelude::*;

verus! {

/// The map that a sequence of entries stands for: each name is bound to
/// the value of the last entry that has it.
pub open spec fn bindings<V: View>(entries: Seq<(String, V)>) -> Map<Seq<char>, V::V>
    decreases entries.len(),
{
    if entries.len() == 0 {
        Map::empty()
    } else {
        bindings(entries.drop_last()).insert(entries.last().0@, entries.last().1@)
    }
}

/// A name that no entry has is not bound.
pub proof fn lemma_bindings_absent<V: View>(entries: Seq<(String, V)>, name: Seq<char>)
    requires
        forall|i: int| 0 <= i < entries.len() ==> (#[trigger] entries[i]).0@ != name,
    ensures
        !bindings(entries).contains_key(name),
    decreases entries.len(),
{
    if entries.len() > 0 {
        lemma_bindings_absent(entries.drop_last(), name);
    }
}

/// A name is bound to the value of the last entry that has it.
pub proof fn lemma_bindings_last<V: View>(entries: Seq<(String, V)>, at: int, name: Seq<char>)
    requires
        0 <= at < entries.len(),
        entries[at].0@ == name,
        forall|i: int| at < i < entries.len() ==> (#[trigger] entries[i]).0@ != name,
    ensures
        bindings(entries).contains_key(name),
        bindings(entries)[name] == entries[at].1@,
    decreases entries.len(),
{
    if at < entries.len() - 1 {
        lemma_bindings_last(entries.drop_last(), at, name);
    }
}

/// Replacing the last entry that has a name binds the name anew and leaves
/// every other name as it was.
pub proof fn lemma_bindings_update<V: View>(entries: Seq<(String, V)>, at: int, entry: (String, V))
    requires
        0 <= at < entries.len(),
        entries[at].0@ == entry.0@,
        forall|i: int| at < i < entries.len() ==> (#[trigger] entries[i]).0@ != entry.0@,
    ensures
        bindings(entries.update(at, entry)) == bindings(entries).insert(entry.0@, entry.1@),
    decreases entries.len(),
{
    let updated = entries.update(at, entry);
    if at < entries.len() - 1 {
        lemma_bindings_update(entries.drop_last(), at, entry);
        assert(updated.drop_last() == entries.drop_last().update(at, entry));
        assert(updated.last() == entries.last());
        assert(bindings(updated) == bindings(entries).insert(entry.0@, entry.1@));
    } else {
        assert(updated.drop_last() == entries.drop_last());
        assert(bindings(updated) == bindings(entries).insert(entry.0@, entry.1@));
    }
}

/// A table from names to values. Its model is the map from each name to
/// the value it was last given.
pub struct Table<V> {
    pub entries: Vec<(String, V)>,
}

impl<V: View> View for Table<V> {
    type V = Map<Seq<char>, V::V>;

    open spec fn view(&self) -> Map<Seq<char>, V::V> {
        bindings(self.entries@)
    }
}

impl<V: View> Table<V> {
    pub fn new() -> (table: Self)
        ensures
            table@ == Map::<Seq<char>, V::V>::empty(),
    {
        Table { entries: Vec::new() }
    }

    /// The place of the last entry that has the name.
    fn find(&self, name: &str) -> (found: Option<usize>)
        ensures
            match found {
                Some(at) => at < self.entries@.len() && self.entries@[at as int].0@ == name@ && forall|i: int|
                    at < i < self.entries@.len() ==> (#[trigger] self.entries@[i]).0@ != name@,
                None => forall|i: int| 0 <= i < self.entries@.len() ==> (#[trigger] self.entries@[i]).0@ != name@,
            },
    {
        let wanted = String::from_str(name);
        let mut at = self.entries.len();
        while at > 0
            invariant
                at <= self.entries@.len(),
                wanted@ == name@,
                forall|i: int| at <= i < self.entries@.len() ==> (#[trigger] self.entries@[i]).0@ != name@,
            decreases at,
        {
            at -= 1;
            if self.entries[at].0 == wanted {
                return Some(at);
            }
        }
        None
    }

    pub fn contains_key(&self, name: &str) -> (found: bool)
        ensures
            found == self@.contains_key(name@),
    {
        match self.find(name) {
            Some(at) => {
                proof {
                    lemma_bindings_last(self.entries@, at as int, name@);
                }
                true
            },
            None => {
                proof {
                    lemma_bindings_absent(self.entries@, name@);
                }
                false
            },
        }
    }

    /// The value that the name is bound to.
    pub fn get(&self, name: &str) -> (value: Option<&V>)
        ensures
            match value {
                Some(value) => self@.contains_key(name@) && self@[name@] == value@,
                None => !self@.contains_key(name@),
            },
    {
        match self.find(name) {
            Some(at) => {
                proof {
                    lemma_bindings_last(self.entries@, at as int, name@);
                }
                Some(&self.entries[at].1)
            },
            None => {
                proof {
                    lemma_bindings_absent(self.entries@, name@);
                }
                None
            },
        }
    }

    /// Binds the name to the value, whether or not it was bound before.
    pub fn insert(&mut self, name: String, value: V)
        ensures
            final(self)@ == old(self)@.insert(name@, value@),
    {
        match self.find(name.as_str()) {
            Some(at) => {
                proof {
                    lemma_bindings_update(self.entries@, at as int, (name, value));
                }
                self.entries.set(at, (name, value));
            },
            None => {
                assert(self.entries@.push((name, value)).drop_last() == self.entries@);
                self.entries.push((name, value));
            },
        }
    }
}

} // verus!
