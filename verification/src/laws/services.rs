//! How requests reach the services of a node, and how its services are told to a directory.

use vstd::prelude::*;
use crate::error::{BoxError, Error, NoHandlerError};
use crate::hosting::{
    self, register_pending_services, registering, update_services, Hosted, PendingService, Place,
};
use crate::laws::directory::tells;
use crate::message;
use crate::meta::ActionId;
use crate::node::{self, register_pending_service, Registered, Registration};
use crate::object;
use crate::os::MachineId;
use crate::service::{self, Info, InfoView};
use crate::service_directory::{self, ServiceInfoMap};
use crate::services::{Service, ServiceView, Services};
use crate::target::Target;

verus! {

/// A service that is made of an object has that object, as number one, and no other.
pub proof fn new_service_has_one_object<O>(info: Info, object: O, service: Service<O>)
    requires
        call_ensures(Service::<O>::new, (info, object), service),
    ensures
        service.info@ == info@,
        service.bound_objects@.contains_key(1) && service.bound_objects@[1] == object,
        forall|id: u32| id != 1 ==> !(#[trigger] service.bound_objects@.contains_key(id)),
{
    assert(service@.objects == service.bound_objects@);
    assert(service@.info == service.info@);
}

/// A node that starts has no services.
pub proof fn no_services_at_first<O>(services: Services<O>, by_default: Services<O>)
    requires
        call_ensures(Services::<O>::new, (), services),
        call_ensures(<Services<O> as Default>::default, (), by_default),
    ensures
        forall|id: u32| !(#[trigger] services@.contains_key(id)),
        forall|id: u32| !(#[trigger] by_default@.contains_key(id)),
{
}

/// Adding a service puts it under its identifier, with its object as the only one, and leaves all
/// others as they were.
pub proof fn adding_changes_one_service<O>(services: &mut Services<O>, info: Info, object: O)
    requires
        call_ensures(Services::<O>::insert_handler, (services, info, object), ()),
    ensures
        final(services)@.contains_key(info.id.0),
        tells(final(services)@[info.id.0].info, info),
        has_only(final(services)@[info.id.0].objects, object),
        others_as_before(old(services)@, final(services)@, info.id.0),
{
}

/// Whether objects are a given one, as number one, alone.
pub open spec fn has_only<O>(objects: Map<u32, O>, object: O) -> bool {
    &&& objects.contains_key(1)
    &&& objects[1] == object
    &&& forall|id: u32| id != 1 ==> !(#[trigger] objects.contains_key(id))
}

/// Whether all services but one are as they were.
pub open spec fn others_as_before<T>(before: Map<u32, T>, after: Map<u32, T>, id: u32) -> bool {
    &&& forall|other: u32|
        other != id ==> (#[trigger] after.contains_key(other) <==> before.contains_key(other))
    &&& forall|other: u32|
        other != id && before.contains_key(other) ==> #[trigger] after[other] == before[other]
}

/// New endpoints of the services of a node replace those of every service, and nothing else of it;
/// what is to be told is what each service tells then, once.
pub proof fn all_services_get_the_endpoints<O>(
    services: &mut Services<O>,
    endpoints: &Vec<Target>,
    infos: Vec<Info>,
)
    requires
        call_ensures(Services::<O>::set_endpoints, (services, endpoints), infos),
    ensures
        endpoints_replaced(old(services)@, endpoints@, final(services)@),
        forall|i: int|
            0 <= i < infos@.len() ==> final(services)@.contains_key((#[trigger] infos@[i]).id.0)
                && tells(final(services)@[infos@[i].id.0].info, infos@[i]),
        forall|i: int, j: int|
            0 <= i < j < infos@.len() ==> (#[trigger] infos@[i]).id.0 != (#[trigger] infos@[j]).id.0,
        forall|id: u32| #[trigger]
            old(services)@.contains_key(id) ==> exists|i: int|
                0 <= i < infos@.len() && (#[trigger] infos@[i]).id.0 == id,
{
    assert forall|i: int, j: int| 0 <= i < j < infos@.len() implies (#[trigger] infos@[i]).id.0 != (
    #[trigger] infos@[j]).id.0 by {
        assert(infos@[i]@.id != infos@[j]@.id);
    }
    assert forall|i: int| 0 <= i < infos@.len() implies final(services)@.contains_key(
        (#[trigger] infos@[i]).id.0,
    ) && tells(final(services)@[infos@[i].id.0].info, infos@[i]) by {
        assert(final(services)@.contains_key(infos@[i]@.id.0));
    }
    assert forall|id: u32| #[trigger] old(services)@.contains_key(id) implies exists|i: int|
        0 <= i < infos@.len() && (#[trigger] infos@[i]).id.0 == id by {
        assert(final(services)@.contains_key(id));
        let i = choose|i: int| 0 <= i < infos@.len() && (#[trigger] infos@[i])@.id.0 == id;
        assert(infos@[i].id.0 == id);
    }
}

/// Whether services are as they were but for the endpoints, which are the given ones for all.
pub open spec fn endpoints_replaced<O>(
    before: Map<u32, ServiceView<O>>,
    endpoints: Seq<Target>,
    after: Map<u32, ServiceView<O>>,
) -> bool {
    &&& forall|id: u32| #[trigger] after.contains_key(id) <==> before.contains_key(id)
    &&& forall|id: u32| #[trigger]
        after.contains_key(id) ==> {
            &&& after[id].objects == before[id].objects
            &&& after[id].info.endpoints == endpoints
            &&& after[id].info.name == before[id].info.name
            &&& after[id].info.id == before[id].info.id
            &&& after[id].info.machine_id == before[id].info.machine_id
            &&& after[id].info.process_id == before[id].info.process_id
            &&& after[id].info.node_uid == before[id].info.node_uid
            &&& after[id].info.object_uid == before[id].info.object_uid
        }
}

/// Whether there is an object at an address.
pub open spec fn object_is_at<O>(
    services: Map<u32, ServiceView<O>>,
    address: message::Address,
) -> bool {
    services.contains_key(address.0.0) && services[address.0.0].objects.contains_key(address.1.0)
}

/// A request goes to the object at its address, with the action that it names, exactly where there
/// is such an object. A call to none is answered with an error that names its address; a post or an
/// event to none is dropped.
pub proof fn requests_go_to_the_object_at_their_address<O>(
    services: &Services<O>,
    address: message::Address,
    handler: Option<(&O, ActionId)>,
    called: Result<(&O, ActionId), Error>,
    posted: Option<(&O, ActionId)>,
    emitted: Option<(&O, ActionId)>,
)
    requires
        call_ensures(Services::<O>::get_request_handler, (services, address), handler),
        call_ensures(Services::<O>::route_call, (services, address), called),
        call_ensures(Services::<O>::route_post, (services, address), posted),
        call_ensures(Services::<O>::route_event, (services, address), emitted),
    ensures
        if object_is_at(services@, address) {
            let object = services@[address.0.0].objects[address.1.0];
            &&& handler is Some && *handler->Some_0.0 == object && handler->Some_0.1 == address.2
            &&& called is Ok && *called->Ok_0.0 == object && called->Ok_0.1 == address.2
            &&& posted is Some && *posted->Some_0.0 == object && posted->Some_0.1 == address.2
            &&& emitted is Some && *emitted->Some_0.0 == object && emitted->Some_0.1 == address.2
        } else {
            &&& handler is None
            &&& called matches Err(
                Error::Other(BoxError::NoHandler(NoHandlerError(message::Type::Call, unanswered))),
            ) && unanswered == address
            &&& posted is None
            &&& emitted is None
        },
{
}

/// A call to object one of a service reaches the object that the service was added with, whatever
/// services are added after it under other identifiers.
pub proof fn added_service_is_called<O>(
    adding: &mut Services<O>,
    info: Info,
    object: O,
    adding_more: &mut Services<O>,
    other_info: Info,
    other_object: O,
    asked: &Services<O>,
    action: ActionId,
    called: Result<(&O, ActionId), Error>,
)
    requires
        call_ensures(Services::<O>::insert_handler, (adding, info, object), ()),
        old(adding_more)@ == final(adding)@,
        call_ensures(
            Services::<O>::insert_handler,
            (adding_more, other_info, other_object),
            (),
        ),
        other_info.id != info.id,
        asked@ == final(adding_more)@,
        call_ensures(
            Services::<O>::route_call,
            (asked, message::Address(info.id, object::Id(1), action)),
            called,
        ),
    ensures
        called is Ok,
        *called->Ok_0.0 == object,
        called->Ok_0.1 == action,
{
    adding_changes_one_service(adding, info, object);
    adding_changes_one_service(adding_more, other_info, other_object);
    assert(asked@.contains_key(info.id.0));
    assert(asked@[info.id.0] == final(adding)@[info.id.0]);
}

/// A registration starts with what its arguments say, and no identifier.
pub proof fn registration_starts_with_its_arguments<O>(
    uid: node::Uid,
    name: String,
    object: O,
    object_uid: object::Uid,
    endpoints: Vec<Target>,
    machine_id: MachineId,
    process_id: u32,
    registration: Registration<O>,
)
    requires
        call_ensures(
            Registration::<O>::start,
            (uid, name, object, object_uid, endpoints, machine_id, process_id),
            registration,
        ),
    ensures
        registration.object == object,
        registration.info.name@ == name@,
        registration.info.id.0 == 0,
        registration.info.machine_id == machine_id,
        registration.info.process_id == process_id,
        registration.info.endpoints@ == endpoints@,
        registration.info.node_uid.0@ == uid.0@,
        registration.info.object_uid.0@ == object_uid@,
{
    assert(registration.info@.id == registration.info.id);
    assert(registration.info@.machine_id == registration.info.machine_id);
    assert(registration.info@.process_id == registration.info.process_id);
}

/// A service that was registered is added under the identifier that it was given, and is what is
/// marked as ready; one that was refused changes nothing, and the refusal is handed on.
pub proof fn registered_service_is_added<O>(
    registration: Registration<O>,
    services: &mut Services<O>,
    id: Result<service::Id, Error>,
    step: Result<Registered, Error>,
)
    requires
        call_ensures(Registration::<O>::registered, (registration, services, id), step),
    ensures
        match id {
            Ok(id) => {
                let told = final(services)@[id.0].info;
                &&& step is Ok && step->Ok_0.id == id
                &&& final(services)@.contains_key(id.0)
                &&& told.id == id
                &&& told.name == registration.info.name@
                &&& told.machine_id == registration.info.machine_id
                &&& told.process_id == registration.info.process_id
                &&& told.endpoints == registration.info.endpoints@
                &&& told.node_uid == registration.info.node_uid.0@
                &&& told.object_uid == registration.info.object_uid.0@
                &&& has_only(final(services)@[id.0].objects, registration.object)
                &&& others_as_before(old(services)@, final(services)@, id.0)
            },
            Err(err) => step == Err::<Registered, Error>(err) && final(services)@ == old(services)@,
        },
{
}

/// Registering ends with the answer to marking the service as ready.
pub proof fn registering_ends_with_the_last_answer(
    registered: Registered,
    answer: Result<(), Error>,
    result: Result<(), Error>,
)
    requires
        call_ensures(Registered::ready, (registered, answer), result),
    ensures
        result == answer,
{
}

/// Whether something tells of a service of a node, under an identifier.
pub open spec fn tells_of(
    told: InfoView,
    id: u32,
    uid: Seq<char>,
    name: Seq<char>,
    object_uid: Seq<u8>,
    endpoints: Seq<Target>,
    machine_id: MachineId,
    process_id: u32,
) -> bool {
    &&& told.id.0 == id
    &&& told.name == name
    &&& told.machine_id == machine_id
    &&& told.process_id == process_id
    &&& told.endpoints == endpoints
    &&& told.node_uid == uid
    &&& told.object_uid == object_uid
}

/// Whether any service of a directory has a name.
pub open spec fn name_taken(
    directory: service_directory::DirectoryView,
    name: Seq<char>,
) -> bool {
    ||| exists|id: u32| #[trigger]
        directory.pending.contains_key(id) && directory.pending[id].name == name
    ||| exists|id: u32| #[trigger]
        directory.ready.contains_key(id) && directory.ready[id].name == name
}

/// Registering one service of a node makes it ready in the directory and adds its object, under the
/// next identifier, and changes nothing else. It succeeds exactly where the directory has no
/// service of that name and an identifier is left; where it does not, nothing changes.
pub proof fn one_service_is_registered<O>(
    uid: node::Uid,
    services: &mut Services<O>,
    directory: &mut ServiceInfoMap,
    name: String,
    object: O,
    object_uid: object::Uid,
    endpoints: Vec<Target>,
    machine_id: MachineId,
    process_id: u32,
    result: Result<(), Error>,
)
    requires
        call_ensures(
            register_pending_service::<O>,
            (
                uid,
                services,
                directory,
                name,
                object,
                object_uid,
                endpoints,
                machine_id,
                process_id,
            ),
            result,
        ),
    ensures
        ({
            let before = old(directory)@;
            let after = final(directory)@;
            let id = before.next_id;
            &&& result is Ok <==> !name_taken(before, name@) && id < 0xffff_ffff
            &&& result is Ok ==> {
                &&& after.next_id == id + 1
                &&& forall|other: u32| #[trigger]
                    after.pending.contains_key(other) <==> before.pending.contains_key(other)
                &&& forall|other: u32|
                    before.pending.contains_key(other) ==> #[trigger] after.pending[other]
                        == before.pending[other]
                &&& !before.ready.contains_key(id)
                &&& after.ready.contains_key(id)
                &&& tells_of(
                    after.ready[id],
                    id,
                    uid.0@,
                    name@,
                    object_uid@,
                    endpoints@,
                    machine_id,
                    process_id,
                )
                &&& others_as_before(before.ready, after.ready, id)
                &&& final(services)@.contains_key(id)
                &&& tells_of(
                    final(services)@[id].info,
                    id,
                    uid.0@,
                    name@,
                    object_uid@,
                    endpoints@,
                    machine_id,
                    process_id,
                )
                &&& has_only(final(services)@[id].objects, object)
                &&& others_as_before(old(services)@, final(services)@, id)
            }
            &&& result matches Err(err) ==> {
                &&& after == before
                &&& final(services)@ == old(services)@
                &&& err matches Error::Other(BoxError::Directory(why)) && if name_taken(
                    before,
                    name@,
                ) {
                    why matches service_directory::Error::ServiceAlreadyExists(taken) && taken@
                        == name@
                } else {
                    why is MaxIdReached
                }
            }
        }),
{
}

/// Whether a pending service is hosted under an identifier: ready in the directory and told of as
/// its place says, with its object as the only one that requests are routed to.
pub open spec fn is_hosted<O>(
    hosted: Hosted<O>,
    id: u32,
    place: Place,
    pending: PendingService<O>,
) -> bool {
    &&& hosted.directory.ready.contains_key(id)
    &&& tells_of(
        hosted.directory.ready[id],
        id,
        place.uid.0@,
        pending.name@,
        pending.object_uid@,
        place.endpoints@,
        place.machine_id,
        place.process_id,
    )
    &&& hosted.services.contains_key(id)
    &&& tells_of(
        hosted.services[id].info,
        id,
        place.uid.0@,
        pending.name@,
        pending.object_uid@,
        place.endpoints@,
        place.machine_id,
        place.process_id,
    )
    &&& has_only(hosted.services[id].objects, pending.object)
}

/// Whether the first of some pending services, and nothing else, were hosted since a start: under
/// identifiers that follow each other.
pub open spec fn hosted_since<O>(
    start: Hosted<O>,
    place: Place,
    pending: Seq<PendingService<O>>,
    count: int,
    end: Hosted<O>,
) -> bool {
    let first = start.directory.next_id;
    &&& 0 <= count <= pending.len()
    &&& end.directory.next_id == first + count
    &&& end.directory.pending == start.directory.pending
    &&& forall|i: int|
        0 <= i < count ==> is_hosted(end, (first + i) as u32, place, #[trigger] pending[i])
    &&& forall|id: u32|
        !(first <= id < first + count) ==> (#[trigger] end.directory.ready.contains_key(id)
            <==> start.directory.ready.contains_key(id))
    &&& forall|id: u32|
        !(first <= id < first + count) && start.directory.ready.contains_key(id)
            ==> #[trigger] end.directory.ready[id] == start.directory.ready[id]
    &&& forall|id: u32|
        !(first <= id < first + count) ==> (#[trigger] end.services.contains_key(id)
            <==> start.services.contains_key(id))
    &&& forall|id: u32|
        !(first <= id < first + count) && start.services.contains_key(id)
            ==> #[trigger] end.services[id] == start.services[id]
}

/// Pending services are registered one after the other. Where all are, each is hosted under an
/// identifier of its own; where one is refused, those before it are hosted, it and those after it
/// are not, and the error is the one that it was refused with.
pub proof fn pending_services_are_registered_in_turn<O>(
    services: &mut Services<O>,
    directory: &mut ServiceInfoMap,
    pending: Vec<PendingService<O>>,
    place: &Place,
    result: Result<(), Error>,
)
    requires
        old(directory)@.consistent(),
        call_ensures(
            register_pending_services::<O>,
            (services, directory, pending, place),
            result,
        ),
    ensures
        ({
            let start = Hosted { directory: old(directory)@, services: old(services)@ };
            let end = Hosted { directory: final(directory)@, services: final(services)@ };
            let count = end.directory.next_id - start.directory.next_id;
            &&& hosted_since(start, *place, pending@, count, end)
            &&& result is Ok <==> count == pending@.len()
            &&& result matches Err(err) ==> {
                let name = pending@[count].name@;
                &&& err matches Error::Other(BoxError::Directory(why))
                &&& if name_taken(end.directory, name) {
                    why matches service_directory::Error::ServiceAlreadyExists(taken) && taken@
                        == name
                } else {
                    end.directory.next_id == 0xffff_ffff && why is MaxIdReached
                }
            }
        }),
{
    let start = Hosted { directory: old(directory)@, services: old(services)@ };
    registered_in_turn(start, *place, pending@);
    let (end, all) = registering(start, *place, pending@);
    if let Err(err) = result {
        let i = choose|i: int| #[trigger] hosting::refused_at(start, *place, pending@, i, err);
        registered_in_turn(start, *place, pending@.take(i));
        let (before, first) = registering(start, *place, pending@.take(i));
        assert(before.directory.next_id == start.directory.next_id + i);
        let next = pending@.take(i + 1);
        assert(next.drop_last() =~= pending@.take(i));
        assert(next.last() == pending@[i]);
        assert(registering(start, *place, next) == (before, false));
        stays_refused(start, *place, pending@, i + 1);
        assert(end == before);
    }
}

/// Once a service is refused, nothing else changes.
proof fn stays_refused<O>(
    start: Hosted<O>,
    place: Place,
    pending: Seq<PendingService<O>>,
    count: int,
)
    requires
        0 <= count <= pending.len(),
        !registering(start, place, pending.take(count)).1,
    ensures
        registering(start, place, pending) == registering(start, place, pending.take(count)),
    decreases pending.len(),
{
    if count == pending.len() {
        assert(pending.take(count) =~= pending);
    } else {
        assert(pending.drop_last().take(count) =~= pending.take(count));
        stays_refused(start, place, pending.drop_last(), count);
    }
}

/// Services that are registered one after the other are hosted up to the first that is refused.
proof fn registered_in_turn<O>(start: Hosted<O>, place: Place, pending: Seq<PendingService<O>>)
    requires
        start.directory.consistent(),
    ensures
        ({
            let (end, all) = registering(start, place, pending);
            let count = end.directory.next_id - start.directory.next_id;
            &&& hosted_since(start, place, pending, count, end)
            &&& end.directory.consistent()
            &&& all <==> count == pending.len()
        }),
    decreases pending.len(),
{
    if pending.len() > 0 {
        let front = pending.drop_last();
        registered_in_turn(start, place, front);
        let (before, all) = registering(start, place, front);
        let count = before.directory.next_id - start.directory.next_id;
        let info = hosting::told(place, pending.last());
        let (end, done) = registering(start, place, pending);
        assert forall|i: int| 0 <= i < count implies is_hosted(
            before,
            (start.directory.next_id + i) as u32,
            place,
            #[trigger] pending[i],
        ) by {
            assert(front[i] == pending[i]);
        }
        if all && before.directory.registers(info) {
            let id = before.directory.next_id;
            assert(end == before.with_service(info, pending.last().object));
            assert(end.directory.pending =~= start.directory.pending);
            assert(is_hosted(end, id, place, pending.last()));
            assert forall|i: int| 0 <= i < count + 1 implies is_hosted(
                end,
                (start.directory.next_id + i) as u32,
                place,
                #[trigger] pending[i],
            ) by {
                if i < count {
                    assert(is_hosted(
                        before,
                        (start.directory.next_id + i) as u32,
                        place,
                        pending[i],
                    ));
                }
            }
        }
    }
}

/// New endpoints of the services of a node are told to its directory: what the directory tells of a
/// service of the node is what the node tells then, and what it tells of any other service stays.
pub proof fn new_endpoints_are_told<O>(
    services: &mut Services<O>,
    directory: &mut ServiceInfoMap,
    endpoints: &Vec<Target>,
)
    requires
        call_ensures(update_services::<O>, (services, directory, endpoints), ()),
    ensures
        endpoints_replaced(old(services)@, endpoints@, final(services)@),
        final(directory)@.next_id == old(directory)@.next_id,
        told_of_services(old(directory)@.pending, final(services)@, final(directory)@.pending),
        told_of_services(old(directory)@.ready, final(services)@, final(directory)@.ready),
{
}

/// Whether what is told of services is what it was, but for those of a node, of which it is what
/// the node tells.
pub open spec fn told_of_services<O>(
    before: Map<u32, InfoView>,
    services: Map<u32, ServiceView<O>>,
    after: Map<u32, InfoView>,
) -> bool {
    &&& forall|id: u32| #[trigger] after.contains_key(id) <==> before.contains_key(id)
    &&& forall|id: u32| #[trigger]
        after.contains_key(id) ==> after[id] == (if services.contains_key(id) {
            services[id].info
        } else {
            before[id]
        })
}

} // verus!
