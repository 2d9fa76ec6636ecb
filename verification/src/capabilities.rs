//! The capabilities of the peers of a session.

use vstd::prelude::*;
use crate::name_map::NameMap;
use crate::value::Value;

verus! {

/// A map from names to values that carry their types.
pub type KeyDynValueMap = NameMap<Value>;

/// A required capability is not shared.
#[derive(PartialEq, Eq, Debug)]
pub struct KeyValueExpectError {
    pub key: String,
}

/// Calls can be canceled from the other side.
pub const REMOTE_CANCELABLE_CALLS: &'static str = "RemoteCancelableCalls";

/// Objects are known by their unique identifiers.
pub const OBJECT_PTR_UID: &'static str = "ObjectPtrUID";

/// Endpoints may be given relative to a service.
pub const RELATIVE_ENDPOINT_URI: &'static str = "RelativeEndpointURI";

/// Whether a capability is set in a map.
pub open spec fn is_set(map: Map<Seq<char>, Value>, key: Seq<char>) -> bool {
    map.contains_key(key) && map[key] == Value::Bool(true)
}

/// The three capabilities, each with a value of its own.
pub open spec fn flags(calls: bool, uid: bool, endpoint: bool) -> Map<Seq<char>, Value> {
    Map::empty().insert(REMOTE_CANCELABLE_CALLS@, Value::Bool(calls)).insert(
        OBJECT_PTR_UID@,
        Value::Bool(uid),
    ).insert(RELATIVE_ENDPOINT_URI@, Value::Bool(endpoint))
}

/// The capabilities of this side.
pub open spec fn local() -> Map<Seq<char>, Value> {
    flags(true, true, true)
}

/// The capabilities that this side shares with a peer: those that the peer sets too.
pub open spec fn shared(peer: Map<Seq<char>, Value>) -> Map<Seq<char>, Value> {
    flags(
        is_set(peer, REMOTE_CANCELABLE_CALLS@),
        is_set(peer, OBJECT_PTR_UID@),
        is_set(peer, RELATIVE_ENDPOINT_URI@),
    )
}

/// The first required capability that is not set.
pub open spec fn first_missing(map: Map<Seq<char>, Value>) -> Option<Seq<char>> {
    if !is_set(map, REMOTE_CANCELABLE_CALLS@) {
        Some(REMOTE_CANCELABLE_CALLS@)
    } else if !is_set(map, OBJECT_PTR_UID@) {
        Some(OBJECT_PTR_UID@)
    } else if !is_set(map, RELATIVE_ENDPOINT_URI@) {
        Some(RELATIVE_ENDPOINT_URI@)
    } else {
        None
    }
}

/// The names of the capabilities are different.
pub proof fn keys_differ()
    ensures
        REMOTE_CANCELABLE_CALLS@ != OBJECT_PTR_UID@,
        REMOTE_CANCELABLE_CALLS@ != RELATIVE_ENDPOINT_URI@,
        OBJECT_PTR_UID@ != RELATIVE_ENDPOINT_URI@,
{
    reveal_strlit("RemoteCancelableCalls");
    reveal_strlit("ObjectPtrUID");
    reveal_strlit("RelativeEndpointURI");
    assert(REMOTE_CANCELABLE_CALLS@.len() == 21);
    assert(OBJECT_PTR_UID@.len() == 12);
    assert(RELATIVE_ENDPOINT_URI@.len() == 19);
}

/// Tells whether a capability is set in a map.
fn reads_set(map: &KeyDynValueMap, key: &str) -> (answer: bool)
    ensures
        answer == is_set(map@, key@),
{
    match map.get(key) {
        Some(Value::Bool(set)) => *set,
        _ => false,
    }
}

/// The three capabilities as a map.
fn flags_map(calls: bool, uid: bool, endpoint: bool) -> (map: KeyDynValueMap)
    ensures
        map@ == flags(calls, uid, endpoint),
{
    let mut map = NameMap::new();
    map.set(REMOTE_CANCELABLE_CALLS.to_owned(), Value::Bool(calls));
    map.set(OBJECT_PTR_UID.to_owned(), Value::Bool(uid));
    map.set(RELATIVE_ENDPOINT_URI.to_owned(), Value::Bool(endpoint));
    map
}

/// The capabilities of this side.
pub fn local_map() -> (map: KeyDynValueMap)
    ensures
        map@ == local(),
{
    flags_map(true, true, true)
}

/// The capabilities that this side shares with a peer.
pub fn shared_with_local(peer: &KeyDynValueMap) -> (map: KeyDynValueMap)
    ensures
        map@ == shared(peer@),
{
    flags_map(
        reads_set(peer, REMOTE_CANCELABLE_CALLS),
        reads_set(peer, OBJECT_PTR_UID),
        reads_set(peer, RELATIVE_ENDPOINT_URI),
    )
}

/// Checks that all required capabilities are set, and names the first one that is not.
pub fn check_required(map: &KeyDynValueMap) -> (result: Result<(), KeyValueExpectError>)
    ensures
        match first_missing(map@) {
            Some(key) => result matches Err(err) && err.key@ == key,
            None => result is Ok,
        },
{
    if !reads_set(map, REMOTE_CANCELABLE_CALLS) {
        return Err(KeyValueExpectError { key: REMOTE_CANCELABLE_CALLS.to_owned() });
    }
    if !reads_set(map, OBJECT_PTR_UID) {
        return Err(KeyValueExpectError { key: OBJECT_PTR_UID.to_owned() });
    }
    if !reads_set(map, RELATIVE_ENDPOINT_URI) {
        return Err(KeyValueExpectError { key: RELATIVE_ENDPOINT_URI.to_owned() });
    }
    Ok(())
}

/// A peer shares all required capabilities exactly where it sets them all, and then what is
/// shared is what this side has.
pub proof fn shared_where_set(peer: Map<Seq<char>, Value>)
    ensures
        first_missing(shared(peer)) == first_missing(peer),
        first_missing(peer) is None ==> shared(peer) == local(),
        first_missing(local()) is None,
{
    keys_differ();
}

} // verus!
