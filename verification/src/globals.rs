//! The flat name-to-value table of the virtual machine: a single global
//! namespace, viewed as a map from the variable name's characters to the
//! stored value's model.
use vstd::prelude::*;

use crate::text::str_eq;
use crate::value::{clone_value, Value, ValueModel};
use vstd::pervasive::VecAdditionalExecFns;

verus! {

/// The map an entry list denotes: later entries win (the list never holds
/// a key twice, so this is just "every entry is in the map").
pub open spec fn map_of(entries: Seq<(String, Value)>) -> Map<Seq<char>, ValueModel>
    decreases entries.len(),
{
    if entries.len() == 0 {
        Map::empty()
    } else {
        map_of(entries.drop_last()).insert(entries.last().0@, entries.last().1@)
    }
}

/// No variable name occurs twice.
pub open spec fn unique_keys(entries: Seq<(String, Value)>) -> bool {
    forall|i: int, j: int|
        0 <= i < j < entries.len() ==> entries[i].0@ != entries[j].0@
}

/// The global-name table: a mapping from variable name to current value,
/// created empty, written by assignment, read by identifier lookup.
pub struct Globals {
    entries: Vec<(String, Value)>,
}

impl Globals {
    /// The name-to-value map this table holds.
    pub closed spec fn view(&self) -> Map<Seq<char>, ValueModel> {
        map_of(self.entries@)
    }

    /// The table never holds a name twice.  Established by `new` and
    /// preserved by every operation.
    pub closed spec fn wf(self) -> bool {
        unique_keys(self.entries@)
    }

    /// An empty table.
    pub fn new() -> (g: Globals)
        ensures
            g@ == Map::<Seq<char>, ValueModel>::empty(),
            g.wf(),
    {
        Globals { entries: Vec::new() }
    }

    /// Looks a name up; `None` when the variable was never stored.
    pub fn lookup(&self, name: &str) -> (r: Option<Value>)
        requires
            self.wf(),
        ensures
            match r {
                Some(v) => self@.contains_key(name@) && v@ == self@[name@],
                None => !self@.contains_key(name@),
            },
    {
        let mut i: usize = 0;
        while i < self.entries.len()
            invariant
                i <= self.entries.len(),
                unique_keys(self.entries@),
                forall|j: int| 0 <= j < i ==> self.entries@[j].0@ != name@,
            decreases self.entries.len() - i,
        {
            if str_eq(self.entries[i].0.as_str(), name) {
                let v = clone_value(&self.entries[i].1);
                proof {
                    lemma_map_of_found(self.entries@, i as int);
                }
                return Some(v);
            }
            i = i + 1;
        }
        proof {
            lemma_map_of_absent(self.entries@, name@);
        }
        None
    }

    /// Stores a value under a name, replacing any previous one.
    pub fn store(&mut self, name: String, value: Value)
        requires
            old(self).wf(),
        ensures
            final(self)@ == old(self)@.insert(name@, value@),
            final(self).wf(),
    {
        let ghost entries0 = self.entries@;
        let mut i: usize = 0;
        while i < self.entries.len()
            invariant
                self.entries@ == entries0,
                entries0 == old(self).entries@,
                i <= self.entries.len(),
                unique_keys(entries0),
                forall|j: int| 0 <= j < i ==> entries0[j].0@ != name@,
            decreases self.entries.len() - i,
        {
            if str_eq(self.entries[i].0.as_str(), name.as_str()) {
                self.entries.set(i, (name, value));
                proof {
                    lemma_map_of_update(entries0, i as int, self.entries@);
                }
                return ;
            }
            i = i + 1;
        }
        self.entries.push((name, value));
        proof {
            assert(self.entries@.drop_last() =~= entries0);
        }
    }
}

/// When entry `i` holds the key and keys are unique, the map holds its value.
proof fn lemma_map_of_found(entries: Seq<(String, Value)>, i: int)
    requires
        0 <= i < entries.len(),
        unique_keys(entries),
    ensures
        map_of(entries).contains_key(entries[i].0@),
        map_of(entries)[entries[i].0@] == entries[i].1@,
    decreases entries.len(),
{
    if i == entries.len() - 1 {
    } else {
        lemma_map_of_found(entries.drop_last(), i);
        assert(entries.drop_last()[i] == entries[i]);
        assert(entries.last().0@ != entries[i].0@);
    }
}

/// A key no entry holds is not in the map.
proof fn lemma_map_of_absent(entries: Seq<(String, Value)>, key: Seq<char>)
    requires
        forall|j: int| 0 <= j < entries.len() ==> entries[j].0@ != key,
    ensures
        !map_of(entries).contains_key(key),
    decreases entries.len(),
{
    if entries.len() > 0 {
        lemma_map_of_absent(entries.drop_last(), key);
    }
}

/// Replacing the entry that holds a key updates exactly that key.
proof fn lemma_map_of_update(entries: Seq<(String, Value)>, i: int, updated: Seq<(String, Value)>)
    requires
        0 <= i < entries.len(),
        unique_keys(entries),
        updated.len() == entries.len(),
        forall|j: int| 0 <= j < entries.len() && j != i ==> updated[j] == entries[j],
        updated[i].0@ == entries[i].0@,
    ensures
        map_of(updated) == map_of(entries).insert(updated[i].0@, updated[i].1@),
        unique_keys(updated),
    decreases entries.len(),
{
    assert forall|a: int, b: int| 0 <= a < b < updated.len() implies updated[a].0@
        != updated[b].0@ by {
        assert(entries[a].0@ != entries[b].0@);
    }
    if i == entries.len() - 1 {
        assert(updated.drop_last() =~= entries.drop_last());
        assert(map_of(updated) =~= map_of(entries).insert(updated[i].0@, updated[i].1@));
    } else {
        lemma_map_of_update(entries.drop_last(), i, updated.drop_last());
        assert(updated.last() == entries.last());
        assert(entries.last().0@ != updated[i].0@);
        assert(map_of(updated) =~= map_of(entries).insert(updated[i].0@, updated[i].1@));
    }
}

} // verus!
