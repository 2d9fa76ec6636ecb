//! Walks over maps whose keys are numbers.

use std::collections::HashMap;
use vstd::prelude::*;
use vstd::std_specs::iter::IteratorSpec;

verus! {

broadcast use vstd::std_specs::hash::group_hash_axioms;

/// The keys of a map, each of them once. Their order is that of the map, which is not known.
pub fn keys_of<V>(map: &HashMap<u32, V>) -> (keys: Vec<u32>)
    ensures
        keys@.no_duplicates(),
        keys@.to_set() == map@.dom(),
        keys@.len() == map@.dom().len(),
{
    let mut keys: Vec<u32> = Vec::new();
    for key in iter: map.keys()
        invariant
            keys@ == iter.seq().unref().take(iter.index()),
            iter.seq() == vstd::std_specs::hash::spec_keys_iter(map).remaining(),
    {
        keys.push(*key);
    }
    proof {
        let all = vstd::std_specs::hash::spec_keys_iter(map).remaining();
        assert(keys@ =~= all.unref());
        assert forall|i: int, j: int| 0 <= i < keys@.len() && 0 <= j < keys@.len() && i != j implies keys@[i]
            != keys@[j] by {
            assert(all[i] != all[j]);
        }
    }
    keys
}

} // verus!
