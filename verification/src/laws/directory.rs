//! What requests to the directory of services do.

use vstd::prelude::*;
use crate::service::{Id, Info, InfoView};
use crate::service_directory::{Error, ServiceIdIterator, ServiceInfoMap};

verus! {

/// A new directory knows no service, and gives the identifier two first: one is its own.
pub proof fn new_directory_is_empty(directory: ServiceInfoMap)
    requires
        call_ensures(<ServiceInfoMap as Default>::default, (), directory),
    ensures
        forall|id: u32| !(#[trigger] directory@.pending.contains_key(id)),
        forall|id: u32| !(#[trigger] directory@.ready.contains_key(id)),
        directory@.next_id == 2,
{
}

/// Identifiers are given one after the other, and the last number never.
pub proof fn identifiers_follow_each_other(ids: &mut ServiceIdIterator, id: Option<Id>)
    requires
        call_ensures(ServiceIdIterator::next, (ids,), id),
    ensures
        id is None <==> old(ids).current == 0xffff_ffff,
        id is None ==> final(ids).current == old(ids).current,
        id is Some ==> id->Some_0.0 == old(ids).current && final(ids).current == old(ids).current
            + 1,
{
}

/// Identifiers that are given start at two.
pub proof fn identifiers_start_at_two(ids: ServiceIdIterator)
    requires
        call_ensures(<ServiceIdIterator as Default>::default, (), ids),
    ensures
        ids.current == 2,
{
}

/// A directory has a service of a name exactly where one that is ready, or one that is not, has
/// that name.
pub proof fn name_is_known_of_any_service(directory: &ServiceInfoMap, name: &str, answer: bool)
    requires
        call_ensures(ServiceInfoMap::has_service, (directory, name), answer),
    ensures
        answer ==> exists|id: u32|
            (directory@.pending.contains_key(id) && (#[trigger] directory@.pending[id]).name == name@)
                || (directory@.ready.contains_key(id) && (#[trigger] directory@.ready[id]).name
                == name@),
        !answer ==> forall|id: u32| #[trigger]
            directory@.pending.contains_key(id) ==> directory@.pending[id].name != name@,
        !answer ==> forall|id: u32| #[trigger]
            directory@.ready.contains_key(id) ==> directory@.ready[id].name != name@,
{
    if answer {
        if exists|id: u32| #[trigger] directory@.pending.contains_key(id) && directory@.pending[id].name
            == name@ {
            let id = choose|id: u32| #[trigger]
                directory@.pending.contains_key(id) && directory@.pending[id].name == name@;
            assert(directory@.pending[id].name == name@);
            assert(directory@.ready[id] == directory@.ready[id]);
        } else {
            let id = choose|id: u32| #[trigger]
                directory@.ready.contains_key(id) && directory@.ready[id].name == name@;
            assert(directory@.ready[id].name == name@);
            assert(directory@.pending[id] == directory@.pending[id]);
        }
    }
}

/// Registering a service adds it, under an identifier that no service has, and changes nothing
/// else: all that is told of it is kept but the identifier. It succeeds exactly where no service
/// has the name and an identifier is left; a name that is taken is what it is refused for first.
pub proof fn registering_adds_one_service(
    directory: &mut ServiceInfoMap,
    info: &Info,
    result: Result<Id, Error>,
)
    requires
        call_ensures(ServiceInfoMap::register, (directory, info), result),
    ensures
        ({
            let before = old(directory)@;
            let after = final(directory)@;
            let taken = (exists|k: u32| #[trigger]
                before.pending.contains_key(k) && before.pending[k].name == info.name@) || (exists|
                k: u32,
            | #[trigger]
                before.ready.contains_key(k) && before.ready[k].name == info.name@);
            &&& result is Ok <==> !taken && before.next_id < 0xffff_ffff
            &&& match result {
                Ok(id) => {
                    &&& !before.pending.contains_key(id.0) && !before.ready.contains_key(id.0)
                    &&& id.0 == before.next_id && after.next_id == id.0 + 1
                    &&& after.pending.contains_key(id.0)
                    &&& after.pending[id.0].id == id
                    &&& after.pending[id.0].name == info.name@
                    &&& after.pending[id.0].machine_id == info.machine_id
                    &&& after.pending[id.0].process_id == info.process_id
                    &&& after.pending[id.0].endpoints == info.endpoints@
                    &&& after.pending[id.0].node_uid == info.node_uid.0@
                    &&& after.pending[id.0].object_uid == info.object_uid.0@
                    &&& forall|other: u32|
                        other != id.0 ==> (#[trigger] after.pending.contains_key(other)
                            <==> before.pending.contains_key(other))
                    &&& forall|other: u32|
                        other != id.0 && before.pending.contains_key(other)
                            ==> #[trigger] after.pending[other] == before.pending[other]
                    &&& forall|other: u32| #[trigger]
                        after.ready.contains_key(other) <==> before.ready.contains_key(other)
                    &&& forall|other: u32|
                        before.ready.contains_key(other) ==> #[trigger] after.ready[other]
                            == before.ready[other]
                },
                Err(err) => {
                    &&& after.pending == before.pending && after.ready == before.ready
                        && after.next_id == before.next_id
                    &&& if taken {
                        err matches Error::ServiceAlreadyExists(name) && name@ == info.name@
                    } else {
                        err is MaxIdReached
                    }
                },
            }
        }),
{
}

/// Unregistering forgets the ready service with the given identifier, and nothing else.
pub proof fn unregistering_forgets_one_service(directory: &mut ServiceInfoMap, id: Id)
    requires
        call_ensures(ServiceInfoMap::unregister, (directory, id), ()),
    ensures
        !final(directory)@.ready.contains_key(id.0),
        forall|other: u32|
            other != id.0 ==> (#[trigger] final(directory)@.ready.contains_key(other) <==> old(directory)@.ready.contains_key(other)),
        forall|other: u32|
            other != id.0 && old(directory)@.ready.contains_key(other)
                ==> #[trigger] final(directory)@.ready[other] == old(directory)@.ready[other],
        final(directory)@.pending == old(directory)@.pending,
        final(directory)@.next_id == old(directory)@.next_id,
{
}

/// Marking a service as ready moves it as it is from those that are not to those that are, and
/// changes nothing else. It succeeds exactly for a service that is registered and not ready.
pub proof fn marking_as_ready_moves_one_service(
    directory: &mut ServiceInfoMap,
    id: Id,
    result: Result<(), Error>,
)
    requires
        call_ensures(ServiceInfoMap::set_ready, (directory, id), result),
    ensures
        ({
            let before = old(directory)@;
            let after = final(directory)@;
            &&& after.next_id == before.next_id
            &&& result is Ok <==> before.pending.contains_key(id.0)
            &&& result matches Err(err) ==> (err matches Error::PendingServiceNotFound(missing)
                && missing == id) && after.pending == before.pending && after.ready == before.ready
            &&& result is Ok ==> {
                &&& !after.pending.contains_key(id.0)
                &&& after.ready.contains_key(id.0)
                &&& after.ready[id.0] == before.pending[id.0]
                &&& forall|other: u32|
                    other != id.0 ==> (#[trigger] after.pending.contains_key(other)
                        <==> before.pending.contains_key(other))
                &&& forall|other: u32|
                    other != id.0 && before.pending.contains_key(other)
                        ==> #[trigger] after.pending[other] == before.pending[other]
                &&& forall|other: u32|
                    other != id.0 ==> (#[trigger] after.ready.contains_key(other)
                        <==> before.ready.contains_key(other))
                &&& forall|other: u32|
                    other != id.0 && before.ready.contains_key(other)
                        ==> #[trigger] after.ready[other] == before.ready[other]
            }
        }),
{
}

/// Telling anew of a service replaces what is told of it, wherever it stands, and changes nothing
/// else. It succeeds exactly for a service that is registered, be it ready or not.
pub proof fn telling_anew_replaces_one_service(
    directory: &mut ServiceInfoMap,
    info: &Info,
    result: Result<(), Error>,
)
    requires
        call_ensures(ServiceInfoMap::update, (directory, info), result),
    ensures
        ({
            let before = old(directory)@;
            let after = final(directory)@;
            let id = info.id.0;
            &&& after.next_id == before.next_id
            &&& result is Ok <==> before.pending.contains_key(id) || before.ready.contains_key(id)
            &&& result matches Err(err) ==> (err matches Error::ServiceWithIdNotFound(missing)
                && missing == info.id)
            &&& forall|other: u32| #[trigger]
                after.pending.contains_key(other) <==> before.pending.contains_key(other)
            &&& forall|other: u32| #[trigger]
                after.ready.contains_key(other) <==> before.ready.contains_key(other)
            &&& forall|other: u32|
                other != id && before.pending.contains_key(other)
                    ==> #[trigger] after.pending[other] == before.pending[other]
            &&& forall|other: u32|
                other != id && before.ready.contains_key(other)
                    ==> #[trigger] after.ready[other] == before.ready[other]
            &&& before.pending.contains_key(id) ==> tells(after.pending[id], *info)
            &&& before.ready.contains_key(id) ==> tells(after.ready[id], *info)
        }),
{
}

/// Whether something tells all that an info holds.
pub open spec fn tells(told: InfoView, info: Info) -> bool {
    &&& told.name == info.name@
    &&& told.id == info.id
    &&& told.machine_id == info.machine_id
    &&& told.process_id == info.process_id
    &&& told.endpoints == info.endpoints@
    &&& told.node_uid == info.node_uid.0@
    &&& told.object_uid == info.object_uid.0@
}

/// A service that is found is ready, and has the name that was asked for. None is found only where
/// no ready service has that name.
pub proof fn only_ready_services_are_found(
    directory: &ServiceInfoMap,
    name: &str,
    result: Result<Info, Error>,
)
    requires
        call_ensures(ServiceInfoMap::service, (directory, name), result),
    ensures
        match result {
            Ok(info) => {
                &&& info.name@ == name@
                &&& directory@.ready.contains_key(info.id.0)
                &&& tells(directory@.ready[info.id.0], info)
            },
            Err(err) => {
                &&& err matches Error::ServiceNotFound(missing) && missing@ == name@
                &&& forall|id: u32| #[trigger]
                    directory@.ready.contains_key(id) ==> directory@.ready[id].name != name@
            },
        },
{
}

/// The services that are listed are those that are ready, each of them once.
pub proof fn all_ready_services_are_listed(directory: &ServiceInfoMap, infos: Vec<Info>)
    requires
        call_ensures(ServiceInfoMap::services, (directory,), infos),
    ensures
        forall|i: int|
            0 <= i < infos@.len() ==> directory@.ready.contains_key((#[trigger] infos@[i]).id.0)
                && tells(directory@.ready[infos@[i].id.0], infos@[i]),
        forall|i: int, j: int|
            0 <= i < infos@.len() && 0 <= j < infos@.len() && i != j ==> (#[trigger] infos@[i]).id
                != (#[trigger] infos@[j]).id,
        forall|id: u32| #[trigger]
            directory@.ready.contains_key(id) ==> exists|i: int|
                0 <= i < infos@.len() && (#[trigger] infos@[i]).id.0 == id,
{
    assert forall|i: int, j: int|
        0 <= i < infos@.len() && 0 <= j < infos@.len() && i != j implies (#[trigger] infos@[i]).id
        != (#[trigger] infos@[j]).id by {
        if i < j {
            assert(infos@[i]@.id != infos@[j]@.id);
        } else {
            assert(infos@[j]@.id != infos@[i]@.id);
        }
    }
    assert forall|id: u32| #[trigger] directory@.ready.contains_key(id) implies exists|i: int|
        0 <= i < infos@.len() && (#[trigger] infos@[i]).id.0 == id by {
        let i = choose|i: int|
            0 <= i < infos@.len() && (#[trigger] infos@[i])@ == directory@.ready[id];
        assert(directory@.consistent());
        assert(infos@[i]@.id.0 == id);
        assert(infos@[i].id.0 == id);
    }
}

/// A service that is registered and then marked as ready is found under its name, told as it was
/// when it was registered, under the identifier that it was given, and stays so whatever other
/// service is unregistered.
pub proof fn registered_service_is_found(
    registering: &mut ServiceInfoMap,
    info: &Info,
    id: Id,
    marking: &mut ServiceInfoMap,
    forgetting: &mut ServiceInfoMap,
    other: Id,
    asked: &ServiceInfoMap,
    name: &str,
    found: Result<Info, Error>,
)
    requires
        call_ensures(ServiceInfoMap::register, (registering, info), Ok(id)),
        old(marking)@ == final(registering)@,
        call_ensures(ServiceInfoMap::set_ready, (marking, id), Ok(())),
        old(forgetting)@ == final(marking)@,
        call_ensures(ServiceInfoMap::unregister, (forgetting, other), ()),
        other != id,
        asked@ == final(forgetting)@,
        name@ == info.name@,
        call_ensures(ServiceInfoMap::service, (asked, name), found),
    ensures
        found is Ok,
        found->Ok_0.id == id,
        found->Ok_0.name@ == info.name@,
        found->Ok_0.machine_id == info.machine_id,
        found->Ok_0.process_id == info.process_id,
        found->Ok_0.endpoints@ == info.endpoints@,
        found->Ok_0.node_uid.0@ == info.node_uid.0@,
        found->Ok_0.object_uid.0@ == info.object_uid.0@,
{
    registering_adds_one_service(registering, info, Ok(id));
    marking_as_ready_moves_one_service(marking, id, Ok(()));
    unregistering_forgets_one_service(forgetting, other);
    only_ready_services_are_found(asked, name, found);
    let before = old(registering)@;
    assert(asked@.ready.contains_key(id.0));
    assert(asked@.ready[id.0].name == name@);
    if found is Ok && found->Ok_0.id != id {
        let k = found->Ok_0.id.0;
        assert(asked@.ready.contains_key(k));
        assert(final(marking)@.ready.contains_key(k));
        assert(before.ready.contains_key(k));
        assert(before.ready[k].name == info.name@);
    }
}

/// The text of an error names what it is about.
pub proof fn texts_of_refusals(err: &Error, text: String)
    requires
        call_ensures(Error::to_text, (err,), text),
    ensures
        match err {
            Error::ServiceNotFound(name) => text@ == "service \""@ + name@ + "\" not found"@,
            Error::ServiceWithIdNotFound(id) => text@ == "service with id \""@ + crate::text::decimal(
                id.0 as nat,
            ) + "\" not found"@,
            Error::ServiceAlreadyExists(name) => text@ == "service \""@ + name@
                + "\" already exists"@,
            Error::MaxIdReached => text@
                == "maximum service id has been reached, cannot register any more service"@,
            Error::PendingServiceNotFound(id) => text@ == "there is no pending service with id "@
                + crate::text::decimal(id.0 as nat),
        },
{
}

} // verus!
