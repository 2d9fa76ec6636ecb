//! The services of a node, and the routing of requests to their objects.

use std::collections::HashMap;
use vstd::prelude::*;
use crate::error::{BoxError, Error, NoHandlerError};
use crate::id_map::keys_of;
use crate::message;
use crate::meta::ActionId;
use crate::service::{Info, InfoView, MAIN_OBJECT_ID};
use crate::target::{copy_targets, Target};

verus! {

broadcast use vstd::std_specs::hash::group_hash_axioms;

/// A service of a node: what is told of it, and its objects. `O` stands for objects.
#[derive(Debug)]
pub struct Service<O> {
    pub info: Info,
    pub bound_objects: HashMap<u32, O>,
}

/// A service, in contracts.
#[verifier::ext_equal]
pub struct ServiceView<O> {
    pub info: InfoView,
    pub objects: Map<u32, O>,
}

impl<O> View for Service<O> {
    type V = ServiceView<O>;

    open spec fn view(&self) -> ServiceView<O> {
        ServiceView { info: self.info@, objects: self.bound_objects@ }
    }
}

impl<O> Service<O> {
    /// The service with the given object as its only one.
    pub fn new(info: Info, main_object: O) -> (service: Service<O>)
        ensures
            service@ == (ServiceView {
                info: info@,
                objects: Map::empty().insert(MAIN_OBJECT_ID, main_object),
            }),
    {
        let mut bound_objects: HashMap<u32, O> = HashMap::new();
        bound_objects.insert(MAIN_OBJECT_ID, main_object);
        Service { info, bound_objects }
    }
}

/// The services of a node, by their identifiers.
#[derive(Debug)]
pub struct Services<O>(HashMap<u32, Service<O>>);

impl<O> View for Services<O> {
    type V = Map<u32, ServiceView<O>>;

    closed spec fn view(&self) -> Map<u32, ServiceView<O>> {
        self.0@.map_values(|service: Service<O>| service@)
    }
}

/// The object and the action that an address stands for, if there is such an object.
pub open spec fn handler_at<O>(services: Map<u32, ServiceView<O>>, address: message::Address) -> Option<
    (O, ActionId),
> {
    if services.contains_key(address.0.0) && services[address.0.0].objects.contains_key(
        address.1.0,
    ) {
        Some((services[address.0.0].objects[address.1.0], address.2))
    } else {
        None
    }
}

/// Whether each service stands under its own identifier.
pub open spec fn keyed<O>(services: Map<u32, ServiceView<O>>) -> bool {
    forall|id: u32| #[trigger] services.contains_key(id) ==> services[id].info.id.0 == id
}

/// A service that can be reached at other endpoints.
pub open spec fn with_endpoints<O>(service: ServiceView<O>, endpoints: Seq<Target>) -> ServiceView<O> {
    ServiceView { info: InfoView { endpoints, ..service.info }, ..service }
}

/// Whether a list tells of each service once, in any order.
pub open spec fn tells_of_all<O>(infos: Seq<Info>, services: Map<u32, ServiceView<O>>) -> bool {
    &&& forall|i: int, j: int|
        0 <= i < j < infos.len() ==> (#[trigger] infos[i])@.id != (#[trigger] infos[j])@.id
    &&& forall|i: int|
        0 <= i < infos.len() ==> services.contains_key((#[trigger] infos[i])@.id.0)
            && services[infos[i]@.id.0].info == infos[i]@
    &&& forall|id: u32| #[trigger]
        services.contains_key(id) ==> exists|i: int|
            0 <= i < infos.len() && (#[trigger] infos[i])@.id.0 == id
}

impl<O> Default for Services<O> {
    fn default() -> (services: Services<O>)
        ensures
            services@ == Map::<u32, ServiceView<O>>::empty(),
    {
        Services::new()
    }
}

impl<O> Services<O> {
    #[verifier::type_invariant]
    spec fn well_formed(&self) -> bool {
        keyed(self@)
    }

    /// No services.
    pub fn new() -> (services: Services<O>)
        ensures
            services@ == Map::<u32, ServiceView<O>>::empty(),
            keyed(services@),
    {
        let services = Services(HashMap::new());
        assert(services@ =~= Map::<u32, ServiceView<O>>::empty());
        services
    }

    /// Adds a service with the given object as its only one, in place of the one that may have
    /// the same identifier.
    pub fn insert_handler(&mut self, info: Info, service_object: O)
        ensures
            final(self)@ == old(self)@.insert(
                info.id.0,
                ServiceView {
                    info: info@,
                    objects: Map::empty().insert(MAIN_OBJECT_ID, service_object),
                },
            ),
            keyed(final(self)@),
    {
        proof {
            use_type_invariant(&*self);
        }
        let ghost before = self@;
        let id: u32 = info.id().0;
        let service = Service::new(info, service_object);
        let mut services: HashMap<u32, Service<O>> = HashMap::new();
        core::mem::swap(&mut services, &mut self.0);
        services.insert(id, service);
        proof {
            let after = services@.map_values(|service: Service<O>| service@);
            assert(after =~= before.insert(id, service@));
            assert(keyed(after));
        }
        self.0 = services;
    }

    /// Notes that all services can be reached at the given endpoints now. Gives what is to be
    /// told of each of them.
    pub fn set_endpoints(&mut self, endpoints: &Vec<Target>) -> (infos: Vec<Info>)
        ensures
            final(self)@ == old(self)@.map_values(
                |service: ServiceView<O>| with_endpoints(service, endpoints@),
            ),
            keyed(final(self)@),
            tells_of_all(infos@, final(self)@),
    {
        proof {
            use_type_invariant(&*self);
        }
        let ghost before = self.0@;
        let ghost seen = self@;
        let keys = keys_of(&self.0);
        let mut services: HashMap<u32, Service<O>> = HashMap::new();
        core::mem::swap(&mut services, &mut self.0);
        let mut infos: Vec<Info> = Vec::new();
        let mut i: usize = 0;
        while i < keys.len()
            invariant
                i <= keys@.len(),
                keys@.no_duplicates(),
                keys@.to_set() == before.dom(),
                services@.dom() == before.dom(),
                forall|j: int|
                    0 <= j < i ==> services@[#[trigger] keys@[j]]@ == with_endpoints(
                        before[keys@[j]]@,
                        endpoints@,
                    ),
                forall|j: int|
                    i <= j < keys@.len() ==> services@[#[trigger] keys@[j]] == before[keys@[j]],
                infos@.len() == i,
                forall|j: int|
                    0 <= j < i ==> (#[trigger] infos@[j])@ == services@[keys@[j]]@.info,
            decreases keys@.len() - i,
        {
            let key: u32 = keys[i];
            assert(keys@.to_set().contains(keys@[i as int]));
            let ghost earlier = services@;
            match services.remove(&key) {
                Some(mut service) => {
                    service.info.endpoints = copy_targets(endpoints);
                    infos.push(service.info.clone());
                    services.insert(key, service);
                    assert(services@.dom() =~= before.dom());
                },
                None => {},
            }
            assert forall|j: int| 0 <= j < keys@.len() && j != i implies services@[#[trigger] keys@[j]]
                == earlier[keys@[j]] by {
                assert(keys@[j] != key);
            }
            i += 1;
        }
        proof {
            let after = services@.map_values(|service: Service<O>| service@);
            let told = seen.map_values(
                |service: ServiceView<O>| with_endpoints(service, endpoints@),
            );
            assert forall|id: u32| before.contains_key(id) implies exists|j: int|
                0 <= j < keys@.len() && #[trigger] keys@[j] == id by {
                assert(keys@.to_set().contains(id));
            }
            assert(after =~= told) by {
                assert forall|id: u32| before.contains_key(id) implies after[id] == told[id] by {
                    let j = choose|j: int| 0 <= j < keys@.len() && #[trigger] keys@[j] == id;
                    assert(services@[keys@[j]]@ == with_endpoints(before[id]@, endpoints@));
                }
            }
            assert forall|id: u32| #[trigger] after.contains_key(id) implies after[id].info.id.0
                == id by {
                assert(seen.contains_key(id));
            }
            assert forall|j: int| 0 <= j < infos@.len() implies (#[trigger] infos@[j])@.id.0
                == keys@[j] && after.contains_key(keys@[j]) by {
                assert(keys@.to_set().contains(keys@[j]));
                assert(after.contains_key(keys@[j]));
            }
            assert forall|id: u32| #[trigger] after.contains_key(id) implies exists|j: int|
                0 <= j < infos@.len() && (#[trigger] infos@[j])@.id.0 == id by {
                let j = choose|j: int| 0 <= j < keys@.len() && #[trigger] keys@[j] == id;
                assert(infos@[j]@.id.0 == id);
            }
        }
        self.0 = services;
        infos
    }

    /// The object and the action that an address stands for.
    pub fn get_request_handler(&self, address: message::Address) -> (handler: Option<
        (&O, ActionId),
    >)
        ensures
            match handler {
                Some((object, action)) => handler_at(self@, address) == Some((*object, action)),
                None => handler_at(self@, address) is None,
            },
    {
        let message::Address(service_id, object_id, action_id) = address;
        match self.0.get(&service_id.0) {
            Some(service) => match service.bound_objects.get(&object_id.0) {
                Some(object) => Some((object, action_id)),
                None => None,
            },
            None => None,
        }
    }

    /// Routes a call: the object and the action that it is for, or an error that there is no
    /// handler.
    pub fn route_call(&self, address: message::Address) -> (handler: Result<(&O, ActionId), Error>)
        ensures
            match handler_at(self@, address) {
                Some((object, action)) => handler is Ok && *handler->Ok_0.0 == object
                    && handler->Ok_0.1 == action,
                None => handler == Err::<(&O, ActionId), Error>(
                    Error::Other(
                        BoxError::NoHandler(NoHandlerError(message::Type::Call, address)),
                    ),
                ),
            },
    {
        match self.get_request_handler(address) {
            Some(handler) => Ok(handler),
            None => Err(
                Error::Other(BoxError::NoHandler(NoHandlerError(message::Type::Call, address))),
            ),
        }
    }

    /// Routes a post: the object and the action that it is for. A post for nothing is discarded.
    pub fn route_post(&self, address: message::Address) -> (handler: Option<(&O, ActionId)>)
        ensures
            match handler {
                Some((object, action)) => handler_at(self@, address) == Some((*object, action)),
                None => handler_at(self@, address) is None,
            },
    {
        self.get_request_handler(address)
    }

    /// Routes an event: the object and the action that it is for. An event for nothing is
    /// discarded.
    pub fn route_event(&self, address: message::Address) -> (handler: Option<(&O, ActionId)>)
        ensures
            match handler {
                Some((object, action)) => handler_at(self@, address) == Some((*object, action)),
                None => handler_at(self@, address) is None,
            },
    {
        self.get_request_handler(address)
    }
}

/// A request to the main object of a service that was added reaches the object that the service
/// was added with.
pub proof fn added_service_is_reached<O>(
    before: Map<u32, ServiceView<O>>,
    info: InfoView,
    object: O,
    action: ActionId,
)
    ensures
        handler_at(
            before.insert(
                info.id.0,
                ServiceView { info, objects: Map::empty().insert(MAIN_OBJECT_ID, object) },
            ),
            message::Address(info.id, crate::object::Id(MAIN_OBJECT_ID), action),
        ) == Some((object, action)),
{
}

/// Adding a service does not change where requests to other services go.
pub proof fn other_services_are_reached_as_before<O>(
    before: Map<u32, ServiceView<O>>,
    info: InfoView,
    object: O,
    address: message::Address,
)
    requires
        address.0 != info.id,
    ensures
        handler_at(
            before.insert(
                info.id.0,
                ServiceView { info, objects: Map::empty().insert(MAIN_OBJECT_ID, object) },
            ),
            address,
        ) == handler_at(before, address),
{
}

} // verus!
