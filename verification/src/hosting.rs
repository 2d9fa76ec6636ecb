//! What a node that hosts a space does with its own services: it registers them with its directory
//! when it starts, and tells the directory of their endpoints when those change.

use vstd::prelude::*;
use crate::error::{BoxError, Error};
use crate::node::{register_pending_service, unregistered, Uid};
use crate::object;
use crate::os::MachineId;
use crate::service::{self, Info, InfoView, MAIN_OBJECT_ID};
use crate::service_directory::{DirectoryView, ServiceInfoMap};
use crate::services::{tells_of_all, with_endpoints, ServiceView, Services};
use crate::target::{copy_targets, Target};

verus! {

/// A service that is to be registered: its name, its object and the unique identifier of the
/// object.
#[derive(Debug)]
pub struct PendingService<O> {
    pub name: String,
    pub object: O,
    pub object_uid: object::Uid,
}

/// Where the services of a node run and can be reached.
#[derive(Debug)]
pub struct Place {
    pub uid: Uid,
    pub endpoints: Vec<Target>,
    pub machine_id: MachineId,
    pub process_id: u32,
}

/// What is told of a service before it is registered.
pub open spec fn told<O>(place: Place, pending: PendingService<O>) -> InfoView {
    unregistered(
        place.uid.0@,
        pending.name@,
        pending.object_uid@,
        place.endpoints@,
        place.machine_id,
        place.process_id,
    )
}

/// A directory and the services that requests are routed to.
#[verifier::ext_equal]
pub struct Hosted<O> {
    pub directory: DirectoryView,
    pub services: Map<u32, ServiceView<O>>,
}

impl<O> Hosted<O> {
    /// Whether a service is ready under an identifier, and requests to it are routed to an object.
    pub open spec fn hosts(self, id: u32, info: InfoView, object: O) -> bool {
        let told = InfoView { id: service::Id(id), ..info };
        &&& self.directory.ready.contains_key(id)
        &&& self.directory.ready[id] == told
        &&& self.services.contains_key(id)
        &&& self.services[id] == (ServiceView {
            info: told,
            objects: Map::empty().insert(MAIN_OBJECT_ID, object),
        })
    }

    /// What becomes of them when one more service is registered and ready.
    pub open spec fn with_service(self, info: InfoView, object: O) -> Hosted<O> {
        let id = service::Id(self.directory.next_id);
        Hosted {
            directory: self.directory.after_register(info).after_ready(id),
            services: self.services.insert(
                id.0,
                ServiceView {
                    info: InfoView { id, ..info },
                    objects: Map::empty().insert(MAIN_OBJECT_ID, object),
                },
            ),
        }
    }
}

/// What becomes of a directory and of the services that requests are routed to when services are
/// registered one after the other, up to the first one that the directory refuses, and whether it
/// refuses none.
pub open spec fn registering<O>(
    start: Hosted<O>,
    place: Place,
    pending: Seq<PendingService<O>>,
) -> (Hosted<O>, bool)
    decreases pending.len(),
{
    if pending.len() == 0 {
        (start, true)
    } else {
        let (before, all) = registering(start, place, pending.drop_last());
        let info = told(place, pending.last());
        if all && before.directory.registers(info) {
            (before.with_service(info, pending.last().object), true)
        } else {
            (before, false)
        }
    }
}

/// Once the directory refused a service, nothing else changes.
proof fn registering_ends<O>(
    start: Hosted<O>,
    place: Place,
    pending: Seq<PendingService<O>>,
    count: int,
)
    requires
        0 <= count <= pending.len(),
        !registering(start, place, pending.take(count)).1,
    ensures
        registering(start, place, pending) == registering(start, place, pending.take(count)),
    decreases pending.len(),
{
    if count == pending.len() {
        assert(pending.take(count) =~= pending);
    } else {
        assert(pending.drop_last().take(count) =~= pending.take(count));
        registering_ends(start, place, pending.drop_last(), count);
    }
}

/// Whether an error is the one with which the directory refuses the first service that it refuses,
/// of services that are registered one after the other.
pub open spec fn refused<O>(
    start: Hosted<O>,
    place: Place,
    pending: Seq<PendingService<O>>,
    err: Error,
) -> bool {
    exists|i: int| #[trigger] refused_at(start, place, pending, i, err)
}

/// Whether a service is the first that the directory refuses, and an error the one with which
/// it does.
pub open spec fn refused_at<O>(
    start: Hosted<O>,
    place: Place,
    pending: Seq<PendingService<O>>,
    i: int,
    err: Error,
) -> bool {
    let (before, all) = registering(start, place, pending.take(i));
    &&& 0 <= i < pending.len()
    &&& all
    &&& !before.directory.registers(told(place, pending[i]))
    &&& err matches Error::Other(BoxError::Directory(why)) && before.directory.refuses(
        told(place, pending[i]),
        why,
    )
}

/// Registers services with the directory that the node hosts, one after the other, up to the first
/// one that the directory refuses.
pub fn register_pending_services<O>(
    services: &mut Services<O>,
    service_directory: &mut ServiceInfoMap,
    pending: Vec<PendingService<O>>,
    place: &Place,
) -> (result: Result<(), Error>)
    ensures
        ({
            let start = Hosted { directory: old(service_directory)@, services: old(services)@ };
            let end = registering(start, *place, pending@);
            &&& end.0 == (Hosted {
                directory: final(service_directory)@,
                services: final(services)@,
            })
            &&& end.1 == result is Ok
            &&& result matches Err(err) ==> refused(start, *place, pending@, err)
        }),
{
    let ghost all = pending@;
    let ghost start = Hosted { directory: service_directory@, services: services@ };
    let mut rest: Vec<PendingService<O>> = pending;
    assert(all.take(0) =~= Seq::empty());
    assert(all.skip(0) =~= all);
    while rest.len() > 0
        invariant
            all == pending@,
            start == (Hosted { directory: old(service_directory)@, services: old(services)@ }),
            rest@.len() <= all.len(),
            rest@ == all.skip(all.len() - rest@.len()),
            registering(start, *place, all.take(all.len() - rest@.len())) == (
                Hosted { directory: service_directory@, services: services@ },
                true,
            ),
        decreases rest@.len(),
    {
        let ghost done = all.len() - rest@.len();
        let next = rest.remove(0);
        proof {
            assert(next == all[done]);
            assert(rest@ =~= all.skip(done + 1));
            assert(all.take(done + 1).drop_last() =~= all.take(done));
        }
        let PendingService { name, object, object_uid } = next;
        let result = register_pending_service(
            place.uid.clone(),
            services,
            service_directory,
            name,
            object,
            object_uid,
            copy_targets(&place.endpoints),
            place.machine_id,
            place.process_id,
        );
        if let Err(err) = result {
            proof {
                registering_ends(start, *place, all, done + 1);
                assert(refused_at(start, *place, all, done, err));
            }
            return Err(err);
        }
    }
    assert(all.take(all.len() as int) =~= all);
    Ok(())
}

/// Services with names of their own, none of which the directory knows yet, are registered with it
/// as long as it has identifiers left: all of them are found there, each under an identifier of
/// its own, and requests are routed to all of them. No other service becomes ready.
pub proof fn services_are_all_hosted<O>(
    start: Hosted<O>,
    place: Place,
    pending: Seq<PendingService<O>>,
)
    requires
        start.directory.consistent(),
        forall|i: int|
            0 <= i < pending.len() ==> !start.directory.knows((#[trigger] pending[i]).name@),
        forall|i: int, j: int|
            0 <= i < j < pending.len() ==> (#[trigger] pending[i]).name@ != (
            #[trigger] pending[j]).name@,
        start.directory.next_id + pending.len() <= u32::MAX,
    ensures
        registering(start, place, pending).1,
        ({
            let end = registering(start, place, pending).0;
            &&& end.directory.consistent()
            &&& end.directory.pending == start.directory.pending
            &&& end.directory.next_id == start.directory.next_id + pending.len()
            &&& forall|i: int|
                0 <= i < pending.len() ==> end.hosts(
                    (start.directory.next_id + i) as u32,
                    told(place, #[trigger] pending[i]),
                    pending[i].object,
                )
            &&& forall|id: u32| #[trigger]
                end.directory.ready.contains_key(id) ==> (start.directory.ready.contains_key(id)
                    && end.directory.ready[id] == start.directory.ready[id]) || (
                start.directory.next_id <= id < start.directory.next_id + pending.len())
        }),
    decreases pending.len(),
{
    if pending.len() > 0 {
        let front = pending.drop_last();
        assert forall|i: int| 0 <= i < front.len() implies !start.directory.knows(
            (#[trigger] front[i]).name@,
        ) by {
            assert(front[i] == pending[i]);
        }
        services_are_all_hosted(start, place, front);
        let before = registering(start, place, front).0;
        let info = told(place, pending.last());
        assert(!before.directory.knows(info.name)) by {
            assert(pending.last() == pending[pending.len() - 1]);
            assert forall|id: u32| #[trigger] before.directory.ready.contains_key(id) implies before.directory.ready[id].name
                != info.name by {
                if !start.directory.ready.contains_key(id) || before.directory.ready[id]
                    != start.directory.ready[id] {
                    let i = id - start.directory.next_id;
                    assert(front[i] == pending[i]);
                    assert(before.hosts(
                        (start.directory.next_id + i) as u32,
                        told(place, front[i]),
                        front[i].object,
                    ));
                }
            }
        }
        assert(before.directory.registers(info));
        let end = before.with_service(info, pending.last().object);
        assert(end.directory.pending =~= start.directory.pending);
        assert(registering(start, place, pending) == (end, true));
        assert(end.directory.consistent());
        assert forall|i: int| 0 <= i < pending.len() implies end.hosts(
            (start.directory.next_id + i) as u32,
            told(place, #[trigger] pending[i]),
            pending[i].object,
        ) by {
            if i < front.len() {
                assert(front[i] == pending[i]);
                assert(before.hosts(
                    (start.directory.next_id + i) as u32,
                    told(place, front[i]),
                    front[i].object,
                ));
            } else {
                assert(pending[i] == pending.last());
            }
        }
    }
}

/// What is told of services, where it is told anew of those that a node has.
pub open spec fn told_anew<O>(map: Map<u32, InfoView>, services: Map<u32, ServiceView<O>>) -> Map<
    u32,
    InfoView,
> {
    Map::new(
        |id: u32| map.contains_key(id),
        |id: u32|
            if services.contains_key(id) {
                services[id].info
            } else {
                map[id]
            },
    )
}

/// Whether one of the first infos of a list is about the service with an identifier.
spec fn is_among(infos: Seq<Info>, count: int, id: u32) -> bool {
    exists|j: int| 0 <= j < count && (#[trigger] infos[j])@.id.0 == id
}

/// What is told of services, where it is told anew by the first infos of a list.
spec fn told_by<O>(
    map: Map<u32, InfoView>,
    infos: Seq<Info>,
    count: int,
    services: Map<u32, ServiceView<O>>,
) -> Map<u32, InfoView> {
    Map::new(
        |id: u32| map.contains_key(id),
        |id: u32|
            if is_among(infos, count, id) {
                services[id].info
            } else {
                map[id]
            },
    )
}

/// Notes that all services of the node can be reached at the given endpoints now, and tells the
/// directory that the node hosts of it. Services that the directory does not know are passed over.
pub fn update_services<O>(
    services: &mut Services<O>,
    service_directory: &mut ServiceInfoMap,
    endpoints: &Vec<Target>,
)
    ensures
        final(services)@ == old(services)@.map_values(
            |service: ServiceView<O>| with_endpoints(service, endpoints@),
        ),
        final(service_directory)@ == (DirectoryView {
            pending: told_anew(old(service_directory)@.pending, final(services)@),
            ready: told_anew(old(service_directory)@.ready, final(services)@),
            next_id: old(service_directory)@.next_id,
        }),
{
    let infos = services.set_endpoints(endpoints);
    let ghost after = services@;
    let ghost before = service_directory@;
    let mut i: usize = 0;
    proof {
        assert(told_by(before.pending, infos@, 0, after) =~= before.pending);
        assert(told_by(before.ready, infos@, 0, after) =~= before.ready);
    }
    while i < infos.len()
        invariant
            i <= infos@.len(),
            tells_of_all(infos@, after),
            before == old(service_directory)@,
            service_directory@ == (DirectoryView {
                pending: told_by(before.pending, infos@, i as int, after),
                ready: told_by(before.ready, infos@, i as int, after),
                next_id: before.next_id,
            }),
        decreases infos@.len() - i,
    {
        let ghost id = infos@[i as int]@.id.0;
        let ghost now = service_directory@;
        let _ = service_directory.update(&infos[i]);
        proof {
            assert forall|k: u32| is_among(infos@, i + 1, k) <==> is_among(infos@, i as int, k) || k
                == id by {
                if is_among(infos@, i + 1, k) && k != id {
                    let j = choose|j: int| 0 <= j < i + 1 && (#[trigger] infos@[j])@.id.0 == k;
                    assert(j < i);
                }
                assert(infos@[i as int]@.id.0 == id);
            }
            assert(now.consistent());
            assert(service_directory@.pending =~= told_by(
                before.pending,
                infos@,
                i + 1,
                after,
            ));
            assert(service_directory@.ready =~= told_by(before.ready, infos@, i + 1, after));
        }
        i += 1;
    }
    proof {
        assert forall|k: u32| is_among(infos@, infos@.len() as int, k) <==> after.contains_key(k) by {
            if after.contains_key(k) {
                let j = choose|j: int| 0 <= j < infos@.len() && (#[trigger] infos@[j])@.id.0 == k;
                assert(infos@[j]@.id.0 == k);
            }
        }
        assert(service_directory@.pending =~= told_anew(before.pending, after));
        assert(service_directory@.ready =~= told_anew(before.ready, after));
    }
}

} // verus!
