//! What maps from names hold.

use vstd::prelude::*;
use crate::name_map::NameMap;

verus! {

/// A map that was just made holds no name.
pub proof fn new_map_is_empty<V>(map: NameMap<V>)
    requires
        call_ensures(NameMap::<V>::new, (), map),
    ensures
        forall|name: Seq<char>| !(#[trigger] map@.contains_key(name)),
{
}

/// A name is read as what it was set to, and nothing else is read differently.
pub proof fn set_name_is_read<V>(
    map: &mut NameMap<V>,
    name: String,
    value: V,
    read: &NameMap<V>,
    asked: &str,
    found: Option<&V>,
)
    requires
        call_ensures(NameMap::<V>::set, (map, name, value), ()),
        read@ == final(map)@,
        call_ensures(NameMap::<V>::get, (read, asked), found),
    ensures
        asked@ == name@ ==> found is Some && *found->Some_0 == value,
        asked@ != name@ ==> (found is Some <==> old(map)@.contains_key(asked@)),
        asked@ != name@ && found is Some ==> *found->Some_0 == old(map)@[asked@],
{
}

/// A name that is taken out of a map gives what it was set to, and is not in it any more; other
/// names stay.
pub proof fn removed_name_is_gone<V>(map: &mut NameMap<V>, name: &str, value: Option<V>)
    requires
        call_ensures(NameMap::<V>::remove, (map, name), value),
    ensures
        value is Some <==> old(map)@.contains_key(name@),
        value is Some ==> value->Some_0 == old(map)@[name@],
        !final(map)@.contains_key(name@),
        forall|other: Seq<char>|
            other != name@ ==> (#[trigger] final(map)@.contains_key(other) <==> old(map)@.contains_key(other)),
        forall|other: Seq<char>|
            other != name@ && old(map)@.contains_key(other) ==> #[trigger] final(map)@[other] == old(map)@[other],
{
}

/// A map that takes in another one holds the names of both, and for a name of both what the other
/// one says.
pub proof fn map_takes_in_another<V>(map: &mut NameMap<V>, other: NameMap<V>)
    requires
        call_ensures(NameMap::<V>::extend, (map, other), ()),
    ensures
        forall|name: Seq<char>| #[trigger]
            final(map)@.contains_key(name) <==> old(map)@.contains_key(name) || other@.contains_key(
                name,
            ),
        forall|name: Seq<char>| #[trigger]
            final(map)@.contains_key(name) ==> final(map)@[name] == (if other@.contains_key(name) {
                other@[name]
            } else {
                old(map)@[name]
            }),
{
}

/// Two maps are the same where they hold the same names, and the same for each of them.
pub proof fn same_maps_hold_the_same(a: &NameMap<u32>, b: &NameMap<u32>, same: bool)
    requires
        call_ensures(<NameMap<u32> as PartialEq>::eq, (a, b), same),
    ensures
        same ==> forall|name: Seq<char>| #[trigger]
            a@.contains_key(name) <==> b@.contains_key(name),
        same ==> forall|name: Seq<char>| #[trigger]
            a@.contains_key(name) ==> a@[name] == b@[name],
        !same ==> exists|name: Seq<char>| #[trigger] held_apart(a@, b@, name),
{
    if !same && a@.dom() == b@.dom() {
        let name = choose|name: Seq<char>| #[trigger]
            a@.contains_key(name) && a@[name] != b@[name];
        assert(held_apart(a@, b@, name));
    }
    if a@.dom() != b@.dom() {
        assert(!(a@.dom() =~= b@.dom()));
        let name = choose|name: Seq<char>|
            a@.dom().contains(name) != #[trigger] b@.dom().contains(name);
        assert(held_apart(a@, b@, name));
    }
}

/// Whether one of two maps holds a name that the other one does not, or they hold it differently.
pub open spec fn held_apart(
    a: Map<Seq<char>, u32>,
    b: Map<Seq<char>, u32>,
    name: Seq<char>,
) -> bool {
    a.contains_key(name) != b.contains_key(name) || (a.contains_key(name) && a[name] != b[name])
}

/// The entries of a map are its names, each once, with what they stand for.
pub proof fn entries_are_those_of_the_map<V>(map: NameMap<V>, entries: Vec<(String, V)>)
    requires
        call_ensures(NameMap::<V>::into_entries, (map,), entries),
    ensures
        forall|i: int|
            0 <= i < entries@.len() ==> map@.contains_key((#[trigger] entries@[i]).0@)
                && map@[entries@[i].0@] == entries@[i].1,
        forall|i: int, j: int|
            0 <= i < j < entries@.len() ==> (#[trigger] entries@[i]).0@ != (
            #[trigger] entries@[j]).0@,
        forall|name: Seq<char>| #[trigger]
            map@.contains_key(name) ==> exists|i: int|
                0 <= i < entries@.len() && (#[trigger] entries@[i]).0@ == name,
{
    crate::name_map::entries_map_contents(entries@);
    assert forall|i: int| 0 <= i < entries@.len() implies map@.contains_key(
        (#[trigger] entries@[i]).0@,
    ) && map@[entries@[i].0@] == entries@[i].1 by {
        assert(crate::name_map::entries_map(entries@).contains_pair(
            entries@[i].0@,
            entries@[i].1,
        ));
    }
}

} // verus!
