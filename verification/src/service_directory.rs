//! The directory of the services of a space: what it keeps, and how its clients ask it.

use std::collections::HashMap;
use vstd::prelude::*;
use crate::id_map::keys_of;
use crate::service::{self, Info, InfoView};
use crate::text::{decimal, decimal_text};

verus! {

broadcast use vstd::std_specs::hash::group_hash_axioms;

/// Why the service directory refuses a request.
#[derive(PartialEq, Eq, Debug)]
pub enum Error {
    ServiceNotFound(String),
    ServiceWithIdNotFound(service::Id),
    ServiceAlreadyExists(String),
    MaxIdReached,
    PendingServiceNotFound(service::Id),
}

impl Error {
    /// The text of the error.
    pub open spec fn text(self) -> Seq<char> {
        match self {
            Error::ServiceNotFound(name) => "service \""@ + name@ + "\" not found"@,
            Error::ServiceWithIdNotFound(id) =>
                "service with id \""@ + decimal(id.0 as nat) + "\" not found"@,
            Error::ServiceAlreadyExists(name) => "service \""@ + name@ + "\" already exists"@,
            Error::MaxIdReached =>
                "maximum service id has been reached, cannot register any more service"@,
            Error::PendingServiceNotFound(id) =>
                "there is no pending service with id "@ + decimal(id.0 as nat),
        }
    }

    /// Renders the error.
    pub fn to_text(&self) -> (text: String)
        ensures
            text@ == self.text(),
    {
        match self {
            Error::ServiceNotFound(name) => {
                let mut text = "service \"".to_owned();
                text.append(name.as_str());
                text.append("\" not found");
                text
            },
            Error::ServiceWithIdNotFound(id) => {
                let mut text = "service with id \"".to_owned();
                text.append(decimal_text(id.0).as_str());
                text.append("\" not found");
                text
            },
            Error::ServiceAlreadyExists(name) => {
                let mut text = "service \"".to_owned();
                text.append(name.as_str());
                text.append("\" already exists");
                text
            },
            Error::MaxIdReached =>
                "maximum service id has been reached, cannot register any more service".to_owned(),
            Error::PendingServiceNotFound(id) => {
                let mut text = "there is no pending service with id ".to_owned();
                text.append(decimal_text(id.0).as_str());
                text
            },
        }
    }
}

/// The identifier of the service that the directory itself is.
pub const SD_SERVICE_ID: u32 = 1;

/// The identifiers that the directory gives to services, in order.
#[derive(Clone, Copy, PartialEq, Eq, Structural, PartialOrd, Ord, Hash, Debug)]
pub struct ServiceIdIterator {
    pub current: u32,
}

impl Default for ServiceIdIterator {
    fn default() -> (ids: ServiceIdIterator)
        ensures
            ids.current == SD_SERVICE_ID + 1,
    {
        ServiceIdIterator { current: SD_SERVICE_ID + 1 }
    }
}

impl ServiceIdIterator {
    /// Takes the next identifier. The last number is not given.
    pub fn next(&mut self) -> (id: Option<service::Id>)
        ensures
            old(self).current < u32::MAX ==> id == Some(service::Id(old(self).current))
                && final(self).current == old(self).current + 1,
            old(self).current == u32::MAX ==> id is None && *final(self) == *old(self),
    {
        let current: u32 = self.current;
        match current.checked_add(1) {
            Some(following) => {
                self.current = following;
                Some(service::Id(current))
            },
            None => None,
        }
    }
}

/// The services that the directory knows.
#[derive(Debug)]
pub struct ServiceInfoMap {
    pending_services: HashMap<u32, Info>,
    services: HashMap<u32, Info>,
    service_id_iter: ServiceIdIterator,
}

/// The services that the directory knows, in contracts: those that are registered but not ready
/// yet, those that are ready, and the identifier that the next one gets.
#[verifier::ext_equal]
pub struct DirectoryView {
    pub pending: Map<u32, InfoView>,
    pub ready: Map<u32, InfoView>,
    pub next_id: u32,
}

/// What a map tells of each service.
pub open spec fn told(map: Map<u32, Info>) -> Map<u32, InfoView> {
    map.map_values(|info: Info| info@)
}

/// Whether a service of the given name is in a map.
pub open spec fn has_name(map: Map<u32, InfoView>, name: Seq<char>) -> bool {
    exists|id: u32| #[trigger] map.contains_key(id) && map[id].name == name
}

/// Whether each service of a map stands under its own identifier, which is one that was given.
pub open spec fn registered(map: Map<u32, InfoView>, next_id: u32) -> bool {
    forall|id: u32| #[trigger]
        map.contains_key(id) ==> map[id].id.0 == id && SD_SERVICE_ID < id < next_id
}

impl DirectoryView {
    /// Whether each service stands under its own identifier, no identifier was given twice, and
    /// no service is both ready and not ready.
    pub open spec fn consistent(self) -> bool {
        &&& registered(self.pending, self.next_id)
        &&& registered(self.ready, self.next_id)
        &&& forall|id: u32| #[trigger] self.pending.contains_key(id) ==> !self.ready.contains_key(id)
        &&& SD_SERVICE_ID < self.next_id
    }

    /// The directory before any service is registered.
    pub open spec fn initial() -> DirectoryView {
        DirectoryView {
            pending: Map::empty(),
            ready: Map::empty(),
            next_id: (SD_SERVICE_ID + 1) as u32,
        }
    }

    /// Whether a service has the given name, be it ready or not.
    pub open spec fn knows(self, name: Seq<char>) -> bool {
        has_name(self.pending, name) || has_name(self.ready, name)
    }

    /// Whether a service can be registered.
    pub open spec fn registers(self, info: InfoView) -> bool {
        !self.knows(info.name) && self.next_id < u32::MAX
    }

    /// Whether an error is the one with which a service is refused that cannot be registered.
    pub open spec fn refuses(self, info: InfoView, err: Error) -> bool {
        if self.knows(info.name) {
            err matches Error::ServiceAlreadyExists(name) && name@ == info.name
        } else {
            self.next_id == u32::MAX && err is MaxIdReached
        }
    }

    /// The directory after a service was registered.
    pub open spec fn after_register(self, info: InfoView) -> DirectoryView {
        DirectoryView {
            pending: self.pending.insert(
                self.next_id,
                InfoView { id: service::Id(self.next_id), ..info },
            ),
            next_id: (self.next_id + 1) as u32,
            ..self
        }
    }

    /// The directory after a service was unregistered.
    pub open spec fn after_unregister(self, id: service::Id) -> DirectoryView {
        DirectoryView { ready: self.ready.remove(id.0), ..self }
    }

    /// The directory after a service became ready.
    pub open spec fn after_ready(self, id: service::Id) -> DirectoryView {
        DirectoryView {
            pending: self.pending.remove(id.0),
            ready: self.ready.insert(id.0, self.pending[id.0]),
            ..self
        }
    }

    /// Whether a service can be told of anew.
    pub open spec fn updates(self, info: InfoView) -> bool {
        self.ready.contains_key(info.id.0) || self.pending.contains_key(info.id.0)
    }

    /// The directory after a service was told of anew.
    pub open spec fn after_update(self, info: InfoView) -> DirectoryView {
        if self.ready.contains_key(info.id.0) {
            DirectoryView { ready: self.ready.insert(info.id.0, info), ..self }
        } else {
            DirectoryView { pending: self.pending.insert(info.id.0, info), ..self }
        }
    }
}

impl View for ServiceInfoMap {
    type V = DirectoryView;

    closed spec fn view(&self) -> DirectoryView {
        DirectoryView {
            pending: told(self.pending_services@),
            ready: told(self.services@),
            next_id: self.service_id_iter.current,
        }
    }
}

impl Default for ServiceInfoMap {
    fn default() -> (directory: ServiceInfoMap)
        ensures
            directory@ == DirectoryView::initial(),
    {
        let pending_services: HashMap<u32, Info> = HashMap::new();
        let services: HashMap<u32, Info> = HashMap::new();
        let service_id_iter = ServiceIdIterator { current: SD_SERVICE_ID + 1 };
        assert(told(services@) =~= Map::empty());
        assert(told(pending_services@) =~= Map::empty());
        ServiceInfoMap { pending_services, services, service_id_iter }
    }
}

/// A service of a map with the given name, if there is one.
fn find_by_name<'a>(map: &'a HashMap<u32, Info>, name: &str) -> (found: Option<&'a Info>)
    ensures
        match found {
            Some(info) => info@.name == name@ && exists|id: u32| #[trigger]
                told(map@).contains_key(id) && told(map@)[id] == info@,
            None => !has_name(told(map@), name@),
        },
{
    let keys = keys_of(map);
    let wanted = name.to_owned();
    let mut i: usize = 0;
    while i < keys.len()
        invariant
            i <= keys@.len(),
            keys@.to_set() == map@.dom(),
            wanted@ == name@,
            forall|j: int| 0 <= j < i ==> map@[#[trigger] keys@[j]]@.name != name@,
        decreases keys@.len() - i,
    {
        assert(keys@.to_set().contains(keys@[i as int]));
        match map.get(&keys[i]) {
            Some(info) => {
                if info.name == wanted {
                    assert(told(map@).contains_key(keys@[i as int]));
                    return Some(info);
                }
            },
            None => {},
        }
        i += 1;
    }
    assert forall|id: u32| #[trigger] told(map@).contains_key(id) implies told(map@)[id].name
        != name@ by {
        assert(keys@.to_set().contains(id));
        let j = choose|j: int| 0 <= j < keys@.len() && keys@[j] == id;
        assert(map@[keys@[j]]@.name != name@);
    }
    None
}

impl ServiceInfoMap {
    #[verifier::type_invariant]
    spec fn well_formed(&self) -> bool {
        self@.consistent()
    }

    /// Tells whether a service of the given name is registered, be it ready or not.
    pub fn has_service(&self, name: &str) -> (answer: bool)
        ensures
            answer == (has_name(self@.pending, name@) || has_name(self@.ready, name@)),
    {
        find_by_name(&self.pending_services, name).is_some() || find_by_name(
            &self.services,
            name,
        ).is_some()
    }

    /// A service of the given name that is ready.
    pub fn service(&self, name: &str) -> (result: Result<Info, Error>)
        ensures
            self@.consistent(),
            match result {
                Ok(info) => info@.name == name@ && self@.ready.contains_key(info@.id.0)
                    && self@.ready[info@.id.0] == info@,
                Err(err) => !has_name(self@.ready, name@) && (err matches Error::ServiceNotFound(n)
                    && n@ == name@),
            },
    {
        proof {
            use_type_invariant(self);
        }
        match find_by_name(&self.services, name) {
            Some(info) => Ok(info.clone()),
            None => Err(Error::ServiceNotFound(name.to_owned())),
        }
    }
}

/// Whether a list tells of each service of a map once, in any order.
pub open spec fn lists(infos: Seq<Info>, map: Map<u32, InfoView>) -> bool {
    &&& infos.len() == map.dom().len()
    &&& forall|i: int, j: int|
        0 <= i < j < infos.len() ==> (#[trigger] infos[i])@.id != (#[trigger] infos[j])@.id
    &&& forall|i: int|
        0 <= i < infos.len() ==> map.contains_key((#[trigger] infos[i])@.id.0)
            && map[infos[i]@.id.0] == infos[i]@
    &&& forall|id: u32| #[trigger]
        map.contains_key(id) ==> exists|i: int|
            0 <= i < infos.len() && (#[trigger] infos[i])@ == map[id]
}

impl ServiceInfoMap {
    /// The services that are ready, in no particular order.
    pub fn services(&self) -> (infos: Vec<Info>)
        ensures
            self@.consistent(),
            lists(infos@, self@.ready),
    {
        proof {
            use_type_invariant(self);
        }
        let keys = keys_of(&self.services);
        let mut infos: Vec<Info> = Vec::new();
        let mut i: usize = 0;
        while i < keys.len()
            invariant
                i <= keys@.len(),
                keys@.to_set() == self.services@.dom(),
                infos@.len() == i,
                forall|j: int|
                    0 <= j < i ==> (#[trigger] infos@[j])@ == self.services@[keys@[j]]@,
            decreases keys@.len() - i,
        {
            assert(keys@.to_set().contains(keys@[i as int]));
            match self.services.get(&keys[i]) {
                Some(info) => {
                    infos.push(info.clone());
                },
                None => {},
            }
            i += 1;
        }
        proof {
            let ready = self@.ready;
            assert(ready.dom() =~= self.services@.dom());
            assert forall|j: int| 0 <= j < infos@.len() implies ready.contains_key(keys@[j])
                && ready[keys@[j]] == (#[trigger] infos@[j])@ && infos@[j]@.id.0 == keys@[j] by {
                assert(keys@.to_set().contains(keys@[j]));
                assert(ready.contains_key(keys@[j]));
            }
            assert forall|id: u32| #[trigger] ready.contains_key(id) implies exists|j: int|
                0 <= j < infos@.len() && (#[trigger] infos@[j])@ == ready[id] by {
                assert(keys@.to_set().contains(id));
                let j = choose|j: int| 0 <= j < keys@.len() && keys@[j] == id;
                assert(infos@[j]@ == ready[id]);
            }
        }
        infos
    }

    /// Registers a service, which is not ready yet, and gives it an identifier. A name that
    /// another service has already, be it ready or not, is refused, and so is every service once
    /// all identifiers are given.
    pub fn register(&mut self, info: &Info) -> (result: Result<service::Id, Error>)
        ensures
            old(self)@.consistent(),
            final(self)@.consistent(),
            if has_name(old(self)@.pending, info@.name) || has_name(old(self)@.ready, info@.name) {
                &&& result matches Err(Error::ServiceAlreadyExists(name)) && name@ == info@.name
                &&& final(self)@ == old(self)@
            } else if old(self)@.next_id == u32::MAX {
                &&& result == Err::<service::Id, Error>(Error::MaxIdReached)
                &&& final(self)@ == old(self)@
            } else {
                &&& result == Ok::<service::Id, Error>(service::Id(old(self)@.next_id))
                &&& final(self)@ == old(self)@.after_register(info@)
            },
    {
        proof {
            use_type_invariant(&*self);
        }
        let ghost before = self@;
        if self.has_service(info.name.as_str()) {
            return Err(Error::ServiceAlreadyExists(info.name.clone()));
        }
        let mut ids = self.service_id_iter;
        let id = match ids.next() {
            Some(id) => id,
            None => return Err(Error::MaxIdReached),
        };
        let mut registered_info = info.clone();
        registered_info.id = id;
        let mut pending: HashMap<u32, Info> = HashMap::new();
        let mut services: HashMap<u32, Info> = HashMap::new();
        let ghost was_pending = self.pending_services@;
        let ghost was_ready = self.services@;
        core::mem::swap(&mut pending, &mut self.pending_services);
        core::mem::swap(&mut services, &mut self.services);
        pending.insert(id.0, registered_info);
        proof {
            assert(told(pending@) =~= told(was_pending).insert(id.0, registered_info@));
            assert(registered_info@ == (InfoView { id, ..info@ }));
        }
        *self = ServiceInfoMap { pending_services: pending, services, service_id_iter: ids };
        assert(self@ == before.after_register(info@));
        Ok(id)
    }

    /// Forgets a service that is ready.
    pub fn unregister(&mut self, id: service::Id)
        ensures
            old(self)@.consistent(),
            final(self)@.consistent(),
            final(self)@ == old(self)@.after_unregister(id),
    {
        proof {
            use_type_invariant(&*self);
        }
        let ghost before = self@;
        let ghost was = self.services@;
        let mut services: HashMap<u32, Info> = HashMap::new();
        core::mem::swap(&mut services, &mut self.services);
        services.remove(&id.0);
        assert(told(services@) =~= told(was).remove(id.0));
        self.services = services;
        assert(self@ == before.after_unregister(id));
    }

    /// Marks a service as ready that was registered.
    pub fn set_ready(&mut self, id: service::Id) -> (result: Result<(), Error>)
        ensures
            old(self)@.consistent(),
            final(self)@.consistent(),
            if old(self)@.pending.contains_key(id.0) {
                &&& result is Ok
                &&& final(self)@ == old(self)@.after_ready(id)
            } else {
                &&& result == Err::<(), Error>(Error::PendingServiceNotFound(id))
                &&& final(self)@ == old(self)@
            },
    {
        proof {
            use_type_invariant(&*self);
        }
        let ghost before = self@;
        let ghost was_pending = self.pending_services@;
        let ghost was_ready = self.services@;
        let mut pending: HashMap<u32, Info> = HashMap::new();
        let mut services: HashMap<u32, Info> = HashMap::new();
        core::mem::swap(&mut pending, &mut self.pending_services);
        core::mem::swap(&mut services, &mut self.services);
        let result = match pending.remove(&id.0) {
            Some(service) => {
                services.insert(id.0, service);
                proof {
                    assert(told(pending@) =~= told(was_pending).remove(id.0));
                    assert(told(services@) =~= told(was_ready).insert(id.0, service@));
                    assert(before.pending.contains_key(id.0));
                    assert(before.pending[id.0] == service@);
                }
                Ok(())
            },
            None => {
                assert(pending@ =~= was_pending);
                assert(!before.pending.contains_key(id.0));
                Err(Error::PendingServiceNotFound(id))
            },
        };
        let service_id_iter = self.service_id_iter;
        *self = ServiceInfoMap { pending_services: pending, services, service_id_iter };
        result
    }

    /// Tells anew of a service, whether it is ready or not.
    pub fn update(&mut self, info: &Info) -> (result: Result<(), Error>)
        ensures
            old(self)@.consistent(),
            final(self)@.consistent(),
            if old(self)@.updates(info@) {
                &&& result is Ok
                &&& final(self)@ == old(self)@.after_update(info@)
            } else {
                &&& result == Err::<(), Error>(Error::ServiceWithIdNotFound(info@.id))
                &&& final(self)@ == old(self)@
            },
    {
        proof {
            use_type_invariant(&*self);
        }
        let ghost before = self@;
        let id: u32 = info.id.0;
        if self.services.contains_key(&id) {
            let ghost was = self.services@;
            let mut services: HashMap<u32, Info> = HashMap::new();
            core::mem::swap(&mut services, &mut self.services);
            let copy = info.clone();
            services.insert(id, copy);
            proof {
                assert(before.ready.contains_key(id));
                assert(told(services@) =~= told(was).insert(id, copy@));
            }
            self.services = services;
            assert(self@ == before.after_update(info@));
            Ok(())
        } else if self.pending_services.contains_key(&id) {
            let ghost was = self.pending_services@;
            let mut pending: HashMap<u32, Info> = HashMap::new();
            core::mem::swap(&mut pending, &mut self.pending_services);
            let copy = info.clone();
            pending.insert(id, copy);
            proof {
                assert(before.pending.contains_key(id));
                assert(!before.ready.contains_key(id));
                assert(told(pending@) =~= told(was).insert(id, copy@));
            }
            self.pending_services = pending;
            assert(self@ == before.after_update(info@));
            Ok(())
        } else {
            assert(!before.updates(info@));
            Err(Error::ServiceWithIdNotFound(info.id))
        }
    }
}

/// What a request does to the directory: nothing, where it is refused or only asks.
pub open spec fn directory_step(before: DirectoryView, after: DirectoryView) -> bool {
    ||| after == before
    ||| exists|info: InfoView| #[trigger] registration(before, info, after)
    ||| exists|id: service::Id| after == #[trigger] before.after_unregister(id)
    ||| exists|id: service::Id|
        before.pending.contains_key(id.0) && after == #[trigger] before.after_ready(id)
    ||| exists|info: InfoView| before.updates(info) && after == #[trigger] before.after_update(info)
}

/// Whether a request registers a service.
pub open spec fn registration(before: DirectoryView, info: InfoView, after: DirectoryView) -> bool {
    before.registers(info) && after == before.after_register(info)
}

/// The states that a directory goes through from its start on.
pub open spec fn directory_run(states: Seq<DirectoryView>) -> bool {
    &&& states.len() > 0
    &&& states[0] == DirectoryView::initial()
    &&& forall|i: int|
        0 <= i < states.len() - 1 ==> #[trigger] directory_step(states[i], states[i + 1])
}

/// Whatever it is asked, the directory stays consistent: each service stands under its own
/// identifier, and no service is both ready and not ready.
pub proof fn directory_stays_consistent(states: Seq<DirectoryView>, i: int)
    requires
        directory_run(states),
        0 <= i < states.len(),
    ensures
        states[i].consistent(),
    decreases i,
{
    if i > 0 {
        directory_stays_consistent(states, i - 1);
        assert(directory_step(states[i - 1], states[i - 1 + 1]));
    }
}

/// The identifiers that are still to be given only grow.
proof fn next_id_grows(states: Seq<DirectoryView>, i: int, j: int)
    requires
        directory_run(states),
        0 <= i <= j < states.len(),
    ensures
        states[i].next_id <= states[j].next_id,
    decreases j - i,
{
    if i < j {
        next_id_grows(states, i, j - 1);
        assert(directory_step(states[j - 1], states[j - 1 + 1]));
    }
}

/// No two services are ever given the same identifier, even where the first one is gone: of two
/// registrations, the later one gives the larger identifier. No service is given the identifier
/// of the directory itself.
pub proof fn identifiers_are_given_once(
    states: Seq<DirectoryView>,
    i: int,
    first: InfoView,
    j: int,
    second: InfoView,
)
    requires
        directory_run(states),
        0 <= i < j < states.len() - 1,
        registration(states[i], first, states[i + 1]),
        registration(states[j], second, states[j + 1]),
    ensures
        SD_SERVICE_ID < states[i].next_id < states[j].next_id,
{
    directory_stays_consistent(states, i);
    next_id_grows(states, i + 1, j);
}

/// A service that is registered and then marked as ready is found under its name, with the
/// identifier that it was given, until it is unregistered. Its name is taken as long as it is
/// registered.
pub proof fn ready_service_is_found(before: DirectoryView, info: InfoView)
    requires
        before.consistent(),
        before.registers(info),
    ensures
        ({
            let id = service::Id(before.next_id);
            let registered = before.after_register(info);
            let ready = registered.after_ready(id);
            let gone = ready.after_unregister(id);
            &&& registered.pending.contains_key(id.0)
            &&& registered.ready == before.ready
            &&& ready.ready.contains_key(id.0)
            &&& ready.ready[id.0] == (InfoView { id, ..info })
            &&& has_name(ready.ready, info.name)
            &&& ready.pending == before.pending
            &&& registered.knows(info.name)
            &&& ready.knows(info.name)
            &&& gone.ready == before.ready
            &&& gone.pending == before.pending
            &&& !gone.knows(info.name)
        }),
{
    let id = service::Id(before.next_id);
    let ready = before.after_register(info).after_ready(id);
    assert(!before.pending.contains_key(id.0));
    assert(!before.ready.contains_key(id.0));
    assert(before.after_register(info).pending.contains_key(id.0));
    assert(ready.pending =~= before.pending);
    assert(ready.after_unregister(id).ready =~= before.ready);
    assert(ready.ready.contains_key(id.0));
}

impl DirectoryView {
    /// All services, those that are ready and those that are not.
    pub open spec fn all(self) -> Map<u32, InfoView> {
        self.pending.union_prefer_right(self.ready)
    }

    /// Whether no two services have the same name.
    pub open spec fn names_differ(self) -> bool {
        forall|i: u32, j: u32|
            #![trigger self.all().contains_key(i), self.all().contains_key(j)]
            self.all().contains_key(i) && self.all().contains_key(j) && self.all()[i].name
                == self.all()[j].name ==> i == j
    }
}

/// Whether a service that a request leaves in the directory has the name that it had before.
pub open spec fn names_kept(before: DirectoryView, after: DirectoryView) -> bool {
    forall|id: u32| #[trigger]
        after.all().contains_key(id) && before.all().contains_key(id) ==> after.all()[id].name
            == before.all()[id].name
}

/// No two services of a directory get the same name, unless one of them is told of anew under
/// another name than it had.
pub proof fn names_stay_different(states: Seq<DirectoryView>, i: int)
    requires
        directory_run(states),
        forall|k: int|
            0 <= k < states.len() - 1 ==> #[trigger] names_kept(states[k], states[k + 1]),
        0 <= i < states.len(),
    ensures
        states[i].names_differ(),
    decreases i,
{
    if i > 0 {
        names_stay_different(states, i - 1);
        directory_stays_consistent(states, i - 1);
        let before = states[i - 1];
        let after = states[i];
        assert(directory_step(states[i - 1], states[i - 1 + 1]));
        assert(names_kept(states[i - 1], states[i - 1 + 1]));
        if exists|info: InfoView| #[trigger] registration(before, info, after) {
            let info = choose|info: InfoView| #[trigger] registration(before, info, after);
            let given = before.next_id;
            assert(after.all() =~= before.all().insert(
                given,
                InfoView { id: service::Id(given), ..info },
            ));
            assert forall|id: u32| #[trigger] before.all().contains_key(id) implies before.all()[id].name
                != info.name by {
                assert(before.pending.contains_key(id) || before.ready.contains_key(id));
            }
        } else {
            assert forall|id: u32| #[trigger] after.all().contains_key(id) implies before.all().contains_key(
                id,
            ) by {}
        }
    }
}

/// Where no two services have the same name, a name tells which ready service is found.
pub proof fn name_tells_the_service(directory: DirectoryView, i: u32, j: u32)
    requires
        directory.names_differ(),
        directory.ready.contains_key(i),
        directory.ready.contains_key(j),
        directory.ready[i].name == directory.ready[j].name,
    ensures
        i == j,
{
    assert(directory.all().contains_key(i));
    assert(directory.all().contains_key(j));
}

} // verus!
