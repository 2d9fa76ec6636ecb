//! Maps from names to values.

use vstd::prelude::*;
use vstd::std_specs::cmp::{PartialEqSpec, PartialEqSpecImpl};

verus! {

/// What a list of entries maps each name to.
pub open spec fn entries_map<V>(entries: Seq<(String, V)>) -> Map<Seq<char>, V>
    decreases entries.len(),
{
    if entries.len() == 0 {
        Map::empty()
    } else {
        entries_map(entries.drop_last()).insert(entries.last().0@, entries.last().1)
    }
}

/// Whether no name occurs twice in a list of entries.
pub open spec fn distinct_names<V>(entries: Seq<(String, V)>) -> bool {
    forall|i: int, j: int|
        0 <= i < j < entries.len() ==> (#[trigger] entries[i]).0@ != (#[trigger] entries[j]).0@
}

/// A map from names to values.
#[derive(Debug)]
pub struct NameMap<V> {
    entries: Vec<(String, V)>,
}

/// In a list without double names, the map holds exactly the entries of the list.
pub proof fn entries_map_contents<V>(entries: Seq<(String, V)>)
    requires
        distinct_names(entries),
    ensures
        forall|i: int|
            0 <= i < entries.len() ==> #[trigger] entries_map(entries).contains_pair(entries[i].0@, entries[i].1),
        forall|name: Seq<char>| #[trigger]
            entries_map(entries).contains_key(name) ==> exists|i: int|
                0 <= i < entries.len() && (#[trigger] entries[i]).0@ == name,
        entries_map(entries).dom().finite(),
        entries_map(entries).dom().len() == entries.len(),
    decreases entries.len(),
{
    if entries.len() > 0 {
        let front = entries.drop_last();
        assert(distinct_names(front)) by {
            assert forall|i: int, j: int| 0 <= i < j < front.len() implies (#[trigger] front[i]).0@
                != (#[trigger] front[j]).0@ by {
                assert(front[i] == entries[i] && front[j] == entries[j]);
            }
        }
        entries_map_contents(front);
        let last = entries.last();
        assert forall|i: int| 0 <= i < entries.len() implies #[trigger] entries_map(
            entries,
        ).contains_pair(entries[i].0@, entries[i].1) by {
            if i < front.len() {
                assert(front[i] == entries[i]);
                assert(entries_map(front).contains_pair(front[i].0@, front[i].1));
                assert(entries[i].0@ != entries[entries.len() - 1].0@);
            }
        }
        assert forall|name: Seq<char>| #[trigger]
            entries_map(entries).contains_key(name) implies exists|i: int|
            0 <= i < entries.len() && (#[trigger] entries[i]).0@ == name by {
            if name == last.0@ {
                assert(entries[entries.len() - 1].0@ == name);
            } else {
                assert(entries_map(front).contains_key(name));
                let i = choose|i: int| 0 <= i < front.len() && (#[trigger] front[i]).0@ == name;
                assert(entries[i].0@ == name);
            }
        }
        assert(!entries_map(front).contains_key(last.0@)) by {
            if entries_map(front).contains_key(last.0@) {
                let i = choose|i: int| 0 <= i < front.len() && (#[trigger] front[i]).0@ == last.0@;
                assert(entries[i].0@ != entries[entries.len() - 1].0@);
            }
        }
        assert(entries_map(entries).dom() =~= entries_map(front).dom().insert(last.0@));
    }
}

/// A map that holds exactly the entries of a list without double names is the map of the list.
proof fn entries_map_unique<V>(entries: Seq<(String, V)>, map: Map<Seq<char>, V>)
    requires
        distinct_names(entries),
        forall|i: int| 0 <= i < entries.len() ==> map.contains_pair((#[trigger] entries[i]).0@, entries[i].1),
        forall|name: Seq<char>| #[trigger]
            map.contains_key(name) ==> exists|i: int|
                0 <= i < entries.len() && (#[trigger] entries[i]).0@ == name,
    ensures
        entries_map(entries) == map,
{
    entries_map_contents(entries);
    let own = entries_map(entries);
    assert forall|name: Seq<char>| own.contains_key(name) <==> map.contains_key(name) by {
        if own.contains_key(name) {
            let i = choose|i: int| 0 <= i < entries.len() && (#[trigger] entries[i]).0@ == name;
            assert(map.contains_pair(entries[i].0@, entries[i].1));
        }
        if map.contains_key(name) {
            let i = choose|i: int| 0 <= i < entries.len() && (#[trigger] entries[i]).0@ == name;
            assert(own.contains_pair(entries[i].0@, entries[i].1));
        }
    }
    assert forall|name: Seq<char>| own.contains_key(name) implies own[name] == map[name] by {
        let i = choose|i: int| 0 <= i < entries.len() && (#[trigger] entries[i]).0@ == name;
        assert(own.contains_pair(entries[i].0@, entries[i].1));
        assert(map.contains_pair(entries[i].0@, entries[i].1));
    }
    assert(own =~= map);
}

impl<V> View for NameMap<V> {
    type V = Map<Seq<char>, V>;

    closed spec fn view(&self) -> Map<Seq<char>, V> {
        entries_map(self.entries@)
    }
}

impl<V> NameMap<V> {
    #[verifier::type_invariant]
    spec fn well_formed(&self) -> bool {
        distinct_names(self.entries@)
    }

    /// Makes an empty map.
    pub fn new() -> (map: NameMap<V>)
        ensures
            map@ == Map::<Seq<char>, V>::empty(),
    {
        NameMap { entries: Vec::new() }
    }

    /// The position of a name in the list of entries.
    fn position(&self, name: &String) -> (position: Option<usize>)
        ensures
            match position {
                Some(i) => i < self.entries@.len() && self.entries@[i as int].0@ == name@,
                None => forall|i: int|
                    0 <= i < self.entries@.len() ==> (#[trigger] self.entries@[i]).0@ != name@,
            },
    {
        let mut i: usize = 0;
        while i < self.entries.len()
            invariant
                i <= self.entries@.len(),
                forall|j: int| 0 <= j < i ==> (#[trigger] self.entries@[j]).0@ != name@,
            decreases self.entries@.len() - i,
        {
            if self.entries[i].0 == *name {
                return Some(i);
            }
            i += 1;
        }
        None
    }

    /// Gives the value of a name.
    pub fn get(&self, name: &str) -> (value: Option<&V>)
        ensures
            match value {
                Some(value) => self@.contains_pair(name@, *value),
                None => !self@.contains_key(name@),
            },
    {
        proof {
            use_type_invariant(self);
            entries_map_contents(self.entries@);
        }
        match self.position(&name.to_owned()) {
            Some(i) => {
                assert(entries_map(self.entries@).contains_pair(
                    self.entries@[i as int].0@,
                    self.entries@[i as int].1,
                ));
                Some(&self.entries[i].1)
            },
            None => None,
        }
    }

    /// Gives a name a value, in place of the one that it may have.
    pub fn set(&mut self, name: String, value: V)
        ensures
            final(self)@ == old(self)@.insert(name@, value),
    {
        proof {
            use_type_invariant(&*self);
            entries_map_contents(self.entries@);
        }
        let position = self.position(&name);
        let ghost before = self.entries@;
        let mut entries: Vec<(String, V)> = Vec::new();
        core::mem::swap(&mut entries, &mut self.entries);
        match position {
            Some(i) => {
                entries.set(i, (name, value));
            },
            None => {
                entries.push((name, value));
            },
        }
        proof {
            let after = entries@;
            let map = entries_map(before).insert(name@, value);
            assert forall|i: int| 0 <= i < after.len() implies map.contains_pair(
                (#[trigger] after[i]).0@,
                after[i].1,
            ) by {
                if i < before.len() && after[i] == before[i] {
                    assert(entries_map(before).contains_pair(before[i].0@, before[i].1));
                }
            }
            assert forall|n: Seq<char>| #[trigger] map.contains_key(n) implies exists|i: int|
                0 <= i < after.len() && (#[trigger] after[i]).0@ == n by {
                let at: int = match position {
                    Some(i) => i as int,
                    None => before.len() as int,
                };
                if n == name@ {
                    assert(after[at].0@ == n);
                } else {
                    let i = choose|i: int| 0 <= i < before.len() && (#[trigger] before[i]).0@ == n;
                    assert(after[i].0@ == n);
                }
            }
            entries_map_unique(after, map);
        }
        self.entries = entries;
    }

    /// Takes a name out of the map, with its value.
    pub fn remove(&mut self, name: &str) -> (value: Option<V>)
        ensures
            final(self)@ == old(self)@.remove(name@),
            match value {
                Some(value) => old(self)@.contains_pair(name@, value),
                None => !old(self)@.contains_key(name@),
            },
    {
        proof {
            use_type_invariant(&*self);
            entries_map_contents(self.entries@);
        }
        let position = self.position(&name.to_owned());
        let ghost before = self.entries@;
        match position {
            Some(i) => {
                let mut entries: Vec<(String, V)> = Vec::new();
                core::mem::swap(&mut entries, &mut self.entries);
                let (_, value) = entries.remove(i);
                proof {
                    let after = entries@;
                    let map = entries_map(before).remove(name@);
                    assert(entries_map(before).contains_pair(before[i as int].0@, before[i as int].1));
                    assert forall|k: int, j: int| 0 <= k < j < after.len() implies (
                    #[trigger] after[k]).0@ != (#[trigger] after[j]).0@ by {
                        let k0: int = if k < i { k } else { k + 1 };
                        let j0: int = if j < i { j } else { j + 1 };
                        assert(after[k] == before[k0] && after[j] == before[j0]);
                    }
                    assert forall|j: int| 0 <= j < after.len() implies map.contains_pair(
                        (#[trigger] after[j]).0@,
                        after[j].1,
                    ) by {
                        let j0: int = if j < i { j } else { j + 1 };
                        assert(after[j] == before[j0]);
                        assert(entries_map(before).contains_pair(before[j0].0@, before[j0].1));
                        assert(before[j0].0@ != before[i as int].0@);
                    }
                    assert forall|n: Seq<char>| #[trigger] map.contains_key(n) implies exists|j: int|
                        0 <= j < after.len() && (#[trigger] after[j]).0@ == n by {
                        let j0 = choose|j0: int|
                            0 <= j0 < before.len() && (#[trigger] before[j0]).0@ == n;
                        let j: int = if j0 < i { j0 } else { j0 - 1 };
                        assert(after[j] == before[j0]);
                    }
                    entries_map_unique(after, map);
                }
                self.entries = entries;
                Some(value)
            },
            None => {
                assert(!self@.contains_key(name@));
                assert(self@.remove(name@) =~= self@);
                None
            },
        }
    }

    /// Adds all entries of another map, whose values take the place of those that their names may
    /// have.
    pub fn extend(&mut self, other: NameMap<V>)
        ensures
            final(self)@ == old(self)@.union_prefer_right(other@),
    {
        proof {
            use_type_invariant(&other);
        }
        let ghost before = self@;
        let ghost all = other@;
        let mut rest: Vec<(String, V)> = other.entries;
        while rest.len() > 0
            invariant
                distinct_names(rest@),
                forall|name: Seq<char>| #[trigger]
                    entries_map(rest@).contains_key(name) ==> all.contains_key(name)
                        && entries_map(rest@)[name] == all[name],
                forall|name: Seq<char>| #[trigger]
                    self@.contains_key(name) <==> before.contains_key(name) || all.contains_key(name)
                        && !entries_map(rest@).contains_key(name),
                forall|name: Seq<char>| #[trigger]
                    self@.contains_key(name) ==> self@[name] == (if all.contains_key(name)
                        && !entries_map(rest@).contains_key(name) {
                        all[name]
                    } else {
                        before[name]
                    }),
            decreases rest@.len(),
        {
            let ghost whole = rest@;
            let ghost seen = self@;
            proof {
                entries_map_contents(whole);
            }
            if let Some((name, value)) = rest.pop() {
                let ghost n = name@;
                proof {
                    assert(rest@ =~= whole.drop_last());
                    assert forall|i: int, j: int| 0 <= i < j < rest@.len() implies (
                    #[trigger] rest@[i]).0@ != (#[trigger] rest@[j]).0@ by {
                        assert(rest@[i] == whole[i] && rest@[j] == whole[j]);
                    }
                    entries_map_contents(rest@);
                    assert(entries_map(whole) == entries_map(rest@).insert(n, value));
                    assert(entries_map(whole).contains_key(n));
                    assert(!entries_map(rest@).contains_key(n)) by {
                        if entries_map(rest@).contains_key(n) {
                            let i = choose|i: int|
                                0 <= i < rest@.len() && (#[trigger] rest@[i]).0@ == n;
                            assert(whole[i].0@ != whole[whole.len() - 1].0@);
                        }
                    }
                }
                self.set(name, value);
                assert forall|m: Seq<char>| #[trigger] entries_map(rest@).contains_key(
                    m,
                ) implies all.contains_key(m) && entries_map(rest@)[m] == all[m] by {
                    assert(entries_map(whole).contains_key(m));
                }
                assert forall|m: Seq<char>| #[trigger]
                    self@.contains_key(m) <==> before.contains_key(m) || all.contains_key(m)
                        && !entries_map(rest@).contains_key(m) by {
                    assert(m != n ==> (entries_map(whole).contains_key(m) <==> entries_map(
                        rest@,
                    ).contains_key(m)));
                    assert(m != n ==> (self@.contains_key(m) <==> seen.contains_key(m)));
                }
                assert forall|m: Seq<char>| #[trigger] self@.contains_key(m) implies self@[m] == (
                if all.contains_key(m) && !entries_map(rest@).contains_key(m) {
                    all[m]
                } else {
                    before[m]
                }) by {
                    if m != n {
                        assert(seen.contains_key(m));
                        assert(entries_map(whole).contains_key(m) <==> entries_map(
                            rest@,
                        ).contains_key(m));
                    }
                }
            }
        }
        assert(self@ =~= before.union_prefer_right(all));
    }

    /// The entries of the map, in no particular order.
    pub fn into_entries(self) -> (entries: Vec<(String, V)>)
        ensures
            distinct_names(entries@),
            entries_map(entries@) == self@,
    {
        proof {
            use_type_invariant(&self);
        }
        self.entries
    }
}

impl<V: PartialEq> PartialEqSpecImpl for NameMap<V> {
    open spec fn obeys_eq_spec() -> bool {
        V::obeys_eq_spec()
    }

    open spec fn eq_spec(&self, other: &NameMap<V>) -> bool {
        &&& self@.dom() == other@.dom()
        &&& forall|name: Seq<char>| #[trigger]
            self@.contains_key(name) ==> self@[name].eq_spec(&other@[name])
    }
}

impl<V: PartialEq> PartialEq for NameMap<V> {
    fn eq(&self, other: &NameMap<V>) -> (same: bool) {
        proof {
            use_type_invariant(self);
            use_type_invariant(other);
            entries_map_contents(self.entries@);
            entries_map_contents(other.entries@);
        }
        if self.entries.len() != other.entries.len() {
            return false;
        }
        let mut i: usize = 0;
        while i < self.entries.len()
            invariant
                i <= self.entries@.len(),
                forall|j: int|
                    0 <= j < self.entries@.len() ==> #[trigger] self@.contains_pair(
                        self.entries@[j].0@,
                        self.entries@[j].1,
                    ),
                forall|j: int|
                    0 <= j < i ==> other@.contains_key((#[trigger] self.entries@[j]).0@) && (
                    V::obeys_eq_spec() ==> self.entries@[j].1.eq_spec(
                        &other@[self.entries@[j].0@],
                    )),
            decreases self.entries@.len() - i,
        {
            let entry = &self.entries[i];
            assert(self@.contains_pair(self.entries@[i as int].0@, self.entries@[i as int].1));
            match other.get(entry.0.as_str()) {
                Some(value) => {
                    if entry.1 != *value {
                        return false;
                    }
                },
                None => {
                    return false;
                },
            }
            i += 1;
        }
        proof {
            assert forall|name: Seq<char>| #[trigger] self@.contains_key(name) implies other@.contains_key(
                name,
            ) && (V::obeys_eq_spec() ==> self@[name].eq_spec(&other@[name])) by {
                let j = choose|j: int|
                    0 <= j < self.entries@.len() && (#[trigger] self.entries@[j]).0@ == name;
                assert(self@.contains_pair(self.entries@[j].0@, self.entries@[j].1));
            }
            assert(self@.dom().subset_of(other@.dom()));
            vstd::set_lib::lemma_subset_equality(self@.dom(), other@.dom());
        }
        true
    }
}

impl<V: Eq> Eq for NameMap<V> {}

} // verus!
