//! Nodes of a space: how one is set up, how its services are registered, and how it reaches the
//! services of others.

use vstd::prelude::*;
use crate::address::Address;
use crate::capabilities::KeyDynValueMap;
use crate::error::{BoxError, Error};
use crate::formats::Reflect;
use crate::message;
use crate::meta::ActionId;
use crate::name_map::NameMap;
use crate::object;
use crate::os::MachineId;
use crate::service::{self, Info, InfoView, MAIN_OBJECT_ID, UNSPECIFIED_ID};
use crate::service_directory::{
    has_name, ready_service_is_found, DirectoryView, ServiceInfoMap,
};
use crate::services::{added_service_is_reached, handler_at, ServiceView, Services};
use crate::store::Connector;
use crate::target::{Kind, Target};
use crate::unique_id;
use crate::value::{
    text_converted_back, FromValue, FromValueError, IntoValue, Type, TypeView, Value,
};

verus! {

/// The unique identifier of a node.
#[derive(PartialEq, Eq, PartialOrd, Ord, Hash, Debug)]
pub struct Uid(pub String);

impl Uid {
    /// Draws an identifier at random: the text of a random universally unique identifier.
    pub fn new() -> (uid: Uid)
        ensures
            exists|value: u128| #[trigger]
                unique_id::is_random_version(value) && uid.0@ == unique_id::hyphenated(value),
    {
        let value: u128 = unique_id::random();
        let uid = Uid::from_drawn(value);
        assert(unique_id::is_random_version(value) && uid.0@ == unique_id::hyphenated(value));
        uid
    }

    /// The identifier that is made of the value of a universally unique identifier: its text.
    pub fn from_drawn(value: u128) -> (uid: Uid)
        ensures
            uid.0@ == unique_id::hyphenated(value),
    {
        Uid(unique_id::write(value))
    }

    /// Takes a text as an identifier.
    pub fn from_string(id: String) -> (uid: Uid)
        ensures
            uid.0 == id,
    {
        Uid(id)
    }

    /// The text of the identifier.
    pub open spec fn text(self) -> Seq<char> {
        self.0@
    }

    /// Renders the identifier.
    pub fn to_text(&self) -> (text: String)
        ensures
            text@ == self.text(),
            text == self.0,
    {
        self.0.clone()
    }

    /// Reads an identifier out of its text, which can be any text.
    pub fn parse(text: &str) -> (result: Result<Uid, std::convert::Infallible>)
        ensures
            result is Ok,
            result->Ok_0.text() == text@,
    {
        Ok(Uid::from_string(text.to_owned()))
    }
}

impl std::str::FromStr for Uid {
    type Err = std::convert::Infallible;

    fn from_str(s: &str) -> (result: Result<Uid, std::convert::Infallible>)
        ensures
            result is Ok,
            result->Ok_0.text() == s@,
    {
        Uid::parse(s)
    }
}

impl Reflect for Uid {
    open spec fn reflected() -> Option<TypeView> {
        Some(TypeView::String)
    }

    fn ty() -> (ty: Option<Type>) {
        Some(Type::String)
    }
}

impl IntoValue for Uid {
    open spec fn valued(self, value: Value) -> bool {
        self.0.valued(value)
    }

    fn into_value(self) -> (value: Value) {
        self.0.into_value()
    }
}

impl FromValue for Uid {
    open spec fn converts(value: Value, result: Result<Uid, FromValueError>) -> bool {
        match result {
            Ok(uid) => <String as FromValue>::converts(value, Ok(uid.0)),
            Err(err) => <String as FromValue>::converts(value, Err(err)),
        }
    }

    fn from_value(value: Value) -> (result: Result<Uid, FromValueError>) {
        match String::from_value(value) {
            Ok(text) => Ok(Uid(text)),
            Err(err) => Err(err),
        }
    }
}

/// The identifier of a node that is converted to a value and back is the same one.
pub proof fn node_uid_converted_back(uid: Uid, value: Value, result: Result<Uid, FromValueError>)
    requires
        uid.valued(value),
        Uid::converts(value, result),
    ensures
        result is Ok,
        result->Ok_0.text() == uid.text(),
{
    let text: Result<String, FromValueError> = match result {
        Ok(read) => Ok(read.0),
        Err(err) => Err(err),
    };
    text_converted_back(uid.0, value, text);
}

/// Any text is the identifier of a node, and the identifier is rendered as that very text: nothing
/// is checked or changed. A text is parsed to the identifier that is made of it.
pub proof fn uid_is_rendered_and_parsed_back(
    id: String,
    uid: Uid,
    rendered: String,
    text: &str,
    parsed: Result<Uid, std::convert::Infallible>,
)
    requires
        call_ensures(Uid::from_string, (id,), uid),
        call_ensures(Uid::to_text, (&uid,), rendered),
        text@ == id@,
        call_ensures(Uid::parse, (text,), parsed),
    ensures
        rendered == id,
        parsed is Ok,
        parsed->Ok_0.text() == uid.text(),
{
}

/// Identifiers of nodes are the same where their texts are.
pub proof fn uids_differ_by_their_texts(a: String, b: String, first: Uid, second: Uid)
    requires
        call_ensures(Uid::from_string, (a,), first),
        call_ensures(Uid::from_string, (b,), second),
    ensures
        first == second <==> a == b,
        first.text() == second.text() <==> a@ == b@,
{
}

impl Clone for Uid {
    fn clone(&self) -> (copy: Uid)
        ensures
            copy == *self,
    {
        Uid(self.0.clone())
    }
}

impl Default for Uid {
    fn default() -> (uid: Uid)
        ensures
            uid.0@ == Seq::<char>::empty(),
    {
        Uid(String::new())
    }
}

/// The name of the service that the directory of services is.
pub const SD_SERVICE_NAME: &'static str = "ServiceDirectory";

/// The way in which a node is part of a space is not chosen yet.
#[derive(Clone, Copy, PartialEq, Eq, Structural, PartialOrd, Ord, Hash, Debug, Default)]
pub struct NotSet;

/// A node is part of the space that is hosted at an address.
#[derive(PartialEq, Eq, Debug)]
pub struct ConnectToSpace {
    pub address: Address,
    pub credentials: Option<KeyDynValueMap>,
}

/// A node hosts a space.
#[derive(Clone, Copy, PartialEq, Eq, Structural, PartialOrd, Ord, Hash, Debug)]
pub struct HostSpace;

/// A node that is being set up. `M` is the way in which it is part of a space, `A` stands for
/// what decides on requests for authentication, and `O` for the objects that its services are.
#[derive(Debug)]
pub struct InitializingNode<M, A, O> {
    pub uid: Uid,
    pub authenticator: Option<A>,
    pub bind_addresses: Vec<Address>,
    pub pending_services: NameMap<O>,
    pub method: M,
}

impl<A, O> Default for InitializingNode<NotSet, A, O> {
    fn default() -> (node: InitializingNode<NotSet, A, O>)
        ensures
            node.uid.0@ == Seq::<char>::empty(),
            node.authenticator is None,
            node.bind_addresses@ == Seq::<Address>::empty(),
            node.pending_services@ == Map::<Seq<char>, O>::empty(),
    {
        InitializingNode {
            uid: Uid(String::new()),
            authenticator: None,
            bind_addresses: Vec::new(),
            pending_services: NameMap::new(),
            method: NotSet,
        }
    }
}

/// Starts to set up a node.
pub fn init<A, O>() -> (node: InitializingNode<NotSet, A, O>)
    ensures
        node.uid.0@ == Seq::<char>::empty(),
        node.authenticator is None,
        node.bind_addresses@ == Seq::<Address>::empty(),
        node.pending_services@ == Map::<Seq<char>, O>::empty(),
{
    InitializingNode::default()
}

impl<M, A, O> InitializingNode<M, A, O> {
    /// Sets what decides on requests for authentication.
    pub fn with_authenticator(&mut self, authenticator: A) -> (node: &mut Self)
        ensures
            node.authenticator == Some(authenticator),
            node.uid == old(self).uid,
            node.bind_addresses == old(self).bind_addresses,
            node.pending_services == old(self).pending_services,
            node.method == old(self).method,
            *final(self) == *final(node),
    {
        self.authenticator = Some(authenticator);
        self
    }

    /// Adds a service, in place of the one that may have the same name.
    pub fn add_service(&mut self, name: String, object: O) -> (node: &mut Self)
        ensures
            node.pending_services@ == old(self).pending_services@.insert(name@, object),
            node.uid == old(self).uid,
            node.authenticator == old(self).authenticator,
            node.bind_addresses == old(self).bind_addresses,
            node.method == old(self).method,
            *final(self) == *final(node),
    {
        self.pending_services.set(name, object);
        self
    }

    /// Binds the node to an address so that it may accept incoming connections on an endpoint at
    /// that address.
    pub fn bind(&mut self, address: Address) -> (node: &mut Self)
        ensures
            node.bind_addresses@ == old(self).bind_addresses@.push(address),
            node.uid == old(self).uid,
            node.authenticator == old(self).authenticator,
            node.pending_services == old(self).pending_services,
            node.method == old(self).method,
            *final(self) == *final(node),
    {
        self.bind_addresses.push(address);
        self
    }

    /// Attaches the node to the space hosted at the given address.
    pub fn connect_to_space(self, address: Address, credentials: Option<KeyDynValueMap>) -> (node:
        InitializingNode<ConnectToSpace, A, O>)
        ensures
            node == (InitializingNode {
                uid: self.uid,
                authenticator: self.authenticator,
                bind_addresses: self.bind_addresses,
                pending_services: self.pending_services,
                method: ConnectToSpace { address, credentials },
            }),
    {
        InitializingNode {
            uid: self.uid,
            authenticator: self.authenticator,
            bind_addresses: self.bind_addresses,
            pending_services: self.pending_services,
            method: ConnectToSpace { address, credentials },
        }
    }

    /// Hosts a new space on this node.
    pub fn host_space(self) -> (node: InitializingNode<HostSpace, A, O>)
        ensures
            node == (InitializingNode {
                uid: self.uid,
                authenticator: self.authenticator,
                bind_addresses: self.bind_addresses,
                pending_services: self.pending_services,
                method: HostSpace,
            }),
    {
        InitializingNode {
            uid: self.uid,
            authenticator: self.authenticator,
            bind_addresses: self.bind_addresses,
            pending_services: self.pending_services,
            method: HostSpace,
        }
    }
}

impl ConnectToSpace {
    /// How the directory of the space is reached: the search for a session to it, and the
    /// credentials that the session is opened with.
    pub fn create_service_directory<S>(self) -> (plan: (Connector<S>, KeyDynValueMap))
        ensures
            plan.0.service_name@ == SD_SERVICE_NAME@,
            plan.0.targets@ == seq![Target(Kind::Endpoint(self.address))],
            plan.0.position == 0,
            plan.0.errors@.len() == 0,
            plan.0.session is None,
            match self.credentials {
                Some(credentials) => plan.1 == credentials,
                None => plan.1@ == Map::<Seq<char>, crate::value::Value>::empty(),
            },
    {
        let mut targets: Vec<Target> = Vec::new();
        targets.push(Target::from(self.address));
        assert(targets@ =~= seq![Target(Kind::Endpoint(self.address))]);
        let credentials = match self.credentials {
            Some(credentials) => credentials,
            None => NameMap::new(),
        };
        (Connector::new(SD_SERVICE_NAME.to_owned(), targets), credentials)
    }
}

impl HostSpace {
    /// The directory of a new space.
    pub fn create_service_directory(self) -> (directory: ServiceInfoMap)
        ensures
            directory@ == DirectoryView::initial(),
    {
        ServiceInfoMap::default()
    }
}

/// A service of a node that is being registered.
#[derive(Debug)]
pub struct Registration<O> {
    pub info: Info,
    pub object: O,
}

/// What is told of a service of a node before the directory gave it an identifier.
pub open spec fn unregistered(
    uid: Seq<char>,
    name: Seq<char>,
    object_uid: Seq<u8>,
    endpoints: Seq<Target>,
    machine_id: MachineId,
    process_id: u32,
) -> InfoView {
    InfoView {
        name,
        id: service::Id(UNSPECIFIED_ID),
        machine_id,
        process_id,
        endpoints,
        node_uid: uid,
        object_uid,
    }
}

impl<O> Registration<O> {
    /// Starts to register a service: what is told of it is to be registered with the directory.
    pub fn start(
        uid: Uid,
        name: String,
        object: O,
        object_uid: object::Uid,
        endpoints: Vec<Target>,
        machine_id: MachineId,
        process_id: u32,
    ) -> (registration: Registration<O>)
        ensures
            registration.info@ == unregistered(
                uid.0@,
                name@,
                object_uid@,
                endpoints@,
                machine_id,
                process_id,
            ),
            registration.object == object,
    {
        Registration {
            info: Info::unregistered(name, endpoints, uid, object_uid, machine_id, process_id),
            object,
        }
    }

    /// What becomes of the services that requests are routed to when the directory answered to
    /// registering the service, and what is to be done next.
    pub open spec fn noted(
        self,
        services: Map<u32, ServiceView<O>>,
        id: Result<service::Id, Error>,
        services_after: Map<u32, ServiceView<O>>,
        step: Result<Registered, Error>,
    ) -> bool {
        match id {
            Ok(id) => {
                &&& step == Ok::<Registered, Error>(Registered { id })
                &&& services_after == services.insert(
                    id.0,
                    ServiceView {
                        info: InfoView { id, ..self.info@ },
                        objects: Map::empty().insert(MAIN_OBJECT_ID, self.object),
                    },
                )
            },
            Err(err) => step == Err::<Registered, Error>(err) && services_after == services,
        }
    }

    /// Goes on when the directory has registered the service: with the identifier that the
    /// directory gave it, the service is one of those that requests are routed to, and it is to
    /// be marked as ready. Where the directory refused, nothing changes.
    pub fn registered(self, services: &mut Services<O>, id: Result<service::Id, Error>) -> (step: Result<
        Registered,
        Error,
    >)
        ensures
            self.noted(old(services)@, id, final(services)@, step),
    {
        match id {
            Ok(id) => {
                let mut info = self.info;
                info.id = id;
                services.insert_handler(info, self.object);
                Ok(Registered { id })
            },
            Err(err) => Err(err),
        }
    }
}

/// A service of a node that the directory has registered, and that is to be marked as ready under
/// the identifier that the directory gave it.
#[derive(Clone, Copy, PartialEq, Eq, Structural, Debug)]
pub struct Registered {
    pub id: service::Id,
}

impl Registered {
    /// Ends to register the service, with what the directory answered to marking it as ready.
    pub fn ready(self, answer: Result<(), Error>) -> (result: Result<(), Error>)
        ensures
            result == answer,
    {
        answer
    }
}

/// What registering a service of a node comes to, with what the directory answered to registering
/// it and to marking it as ready. Where it is not registered, nothing changes. Where it cannot be
/// marked as ready, requests are routed to it all the same.
pub open spec fn registration_comes_to<O>(
    services: Map<u32, ServiceView<O>>,
    info: InfoView,
    object: O,
    registered: Result<service::Id, Error>,
    ready: Result<(), Error>,
    services_after: Map<u32, ServiceView<O>>,
    result: Result<(), Error>,
) -> bool {
    match registered {
        Err(err) => services_after == services && result == Err::<(), Error>(err),
        Ok(id) => {
            &&& services_after == services.insert(
                id.0,
                ServiceView {
                    info: InfoView { id, ..info },
                    objects: Map::empty().insert(MAIN_OBJECT_ID, object),
                },
            )
            &&& result == ready
        },
    }
}

/// The steps of a registration come to what the answers of the directory say, whichever directory
/// it is: `registered` and `ready` are its answers, `step` is what noting the first one gave, and
/// `end` what noting the second one gave.
pub proof fn registration_steps_come_to<O>(
    services: Map<u32, ServiceView<O>>,
    registration: Registration<O>,
    registered: Result<service::Id, Error>,
    services_after: Map<u32, ServiceView<O>>,
    step: Result<Registered, Error>,
    ready: Result<(), Error>,
    end: Result<(), Error>,
)
    requires
        registration.noted(services, registered, services_after, step),
        match step {
            Ok(pending) => call_ensures(Registered::ready, (pending, ready), end),
            Err(err) => end == Err::<(), Error>(err),
        },
    ensures
        registration_comes_to(
            services,
            registration.info@,
            registration.object,
            registered,
            ready,
            services_after,
            end,
        ),
{
}

/// Requests to a service that a directory has registered reach its object, whatever the directory
/// answers to marking it as ready.
pub proof fn registered_service_is_reached<O>(
    services: Map<u32, ServiceView<O>>,
    info: InfoView,
    object: O,
    id: service::Id,
    ready: Result<(), Error>,
    services_after: Map<u32, ServiceView<O>>,
    result: Result<(), Error>,
    action: ActionId,
)
    requires
        registration_comes_to(services, info, object, Ok(id), ready, services_after, result),
    ensures
        handler_at(
            services_after,
            message::Address(id, object::Id(MAIN_OBJECT_ID), action),
        ) == Some((object, action)),
{
    added_service_is_reached(services, InfoView { id, ..info }, object, action);
}

/// Registers a service with the directory that the node hosts, routes requests to it, and marks it
/// as ready.
pub fn register_pending_service<O>(
    uid: Uid,
    services: &mut Services<O>,
    service_directory: &mut ServiceInfoMap,
    name: String,
    object: O,
    object_uid: object::Uid,
    endpoints: Vec<Target>,
    machine_id: MachineId,
    process_id: u32,
) -> (result: Result<(), Error>)
    ensures
        old(service_directory)@.consistent(),
        ({
            let info = unregistered(
                uid.0@,
                name@,
                object_uid@,
                endpoints@,
                machine_id,
                process_id,
            );
            let before = old(service_directory)@;
            let id = service::Id(before.next_id);
            if before.registers(info) {
                &&& result is Ok
                &&& final(service_directory)@ == before.after_register(info).after_ready(id)
                &&& final(services)@ == old(services)@.insert(
                    id.0,
                    ServiceView {
                        info: InfoView { id, ..info },
                        objects: Map::empty().insert(MAIN_OBJECT_ID, object),
                    },
                )
            } else {
                &&& result matches Err(Error::Other(BoxError::Directory(err))) && before.refuses(
                    info,
                    err,
                )
                &&& final(service_directory)@ == before
                &&& final(services)@ == old(services)@
            }
        }),
{
    let registration = Registration::start(
        uid,
        name,
        object,
        object_uid,
        endpoints,
        machine_id,
        process_id,
    );
    let id = match service_directory.register(&registration.info) {
        Ok(id) => Ok(id),
        Err(err) => Err(Error::from(err)),
    };
    match registration.registered(services, id) {
        Ok(registered) => {
            let answer = match service_directory.set_ready(registered.id) {
                Ok(()) => Ok(()),
                Err(err) => Err(Error::from(err)),
            };
            registered.ready(answer)
        },
        Err(err) => Err(err),
    }
}

/// A node. `SD` is the directory of its space, `T` stands for the sessions that it opened, and
/// `V` for its servers.
#[derive(Debug)]
pub struct Node<SD, T, V> {
    pub uid: Uid,
    pub session_store: T,
    pub service_directory: SD,
    pub server_set: V,
}

/// How far back an endpoint of a service stands among those that are tried: endpoints that other
/// machines can reach come first, then those of this machine for a service on it, and then those
/// that are relative to a service.
pub open spec fn endpoint_class(endpoint: Target, service_is_local: bool) -> int {
    (if endpoint.service_relative() { 2int } else { 0 }) + (if service_is_local
        && endpoint.machine_local() { 1int } else { 0 })
}

/// The endpoints of one class, in the order in which they were told.
pub open spec fn of_class(endpoints: Seq<Target>, service_is_local: bool, class: int) -> Seq<Target> {
    endpoints.filter(|endpoint: Target| endpoint_class(endpoint, service_is_local) == class)
}

/// The endpoints of a service, in the order in which they are tried.
pub open spec fn sorted_endpoints(endpoints: Seq<Target>, service_is_local: bool) -> Seq<Target> {
    of_class(endpoints, service_is_local, 0) + of_class(endpoints, service_is_local, 1) + of_class(
        endpoints,
        service_is_local,
        2,
    ) + of_class(endpoints, service_is_local, 3)
}

/// Adds the endpoints of one class to a list.
fn push_class(list: &mut Vec<Target>, endpoints: &[Target], service_is_local: bool, class: u8)
    ensures
        final(list)@ == old(list)@ + of_class(endpoints@, service_is_local, class as int),
{
    let mut i: usize = 0;
    proof {
        reveal(Seq::filter);
    }
    let ghost start = list@;
    assert(start =~= start + of_class(endpoints@.take(0), service_is_local, class as int));
    while i < endpoints.len()
        invariant
            i <= endpoints@.len(),
            list@ == start + of_class(endpoints@.take(i as int), service_is_local, class as int),
        decreases endpoints@.len() - i,
    {
        let endpoint = &endpoints[i];
        let relative: u8 = if endpoint.is_service_relative() { 2 } else { 0 };
        let local: u8 = if service_is_local && endpoint.is_machine_local() { 1 } else { 0 };
        if relative + local == class {
            list.push(endpoint.clone());
        }
        proof {
            reveal(Seq::filter);
            let next = endpoints@.take(i + 1);
            assert(next.drop_last() =~= endpoints@.take(i as int));
            assert(next.last() == *endpoint);
            assert(list@ =~= start + of_class(next, service_is_local, class as int));
        }
        i += 1;
    }
    assert(endpoints@.take(endpoints@.len() as int) =~= endpoints@);
}

/// The endpoints of a service, in the order in which they are tried. `local` is this machine.
pub fn sort_service_endpoints(service: &Info, local: MachineId) -> (endpoints: Vec<Target>)
    ensures
        endpoints@ == sorted_endpoints(service@.endpoints, service@.machine_id == local),
{
    let service_is_local = service.machine_id() == local;
    let mut endpoints: Vec<Target> = Vec::new();
    push_class(&mut endpoints, service.endpoints(), service_is_local, 0);
    push_class(&mut endpoints, service.endpoints(), service_is_local, 1);
    push_class(&mut endpoints, service.endpoints(), service_is_local, 2);
    push_class(&mut endpoints, service.endpoints(), service_is_local, 3);
    assert(endpoints@ =~= sorted_endpoints(service@.endpoints, service_is_local));
    endpoints
}

impl<SD, T, V> Node<SD, T, V> {
    /// The directory of the space of the node.
    pub fn service_directory(&self) -> (directory: &SD)
        ensures
            *directory == self.service_directory,
    {
        &self.service_directory
    }

    /// The search for a session to a service that the directory told of.
    pub fn service<S>(&self, name: &str, service: &Info, local: MachineId) -> (search: Connector<S>)
        ensures
            search.service_name@ == name@,
            search.targets@ == sorted_endpoints(service@.endpoints, service@.machine_id == local),
            search.position == 0,
            search.errors@.len() == 0,
            search.session is None,
    {
        Connector::new(name.to_owned(), sort_service_endpoints(service, local))
    }
}

/// The endpoints of a class, where one more is told of.
proof fn of_class_push(endpoints: Seq<Target>, endpoint: Target, service_is_local: bool, class: int)
    ensures
        of_class(endpoints.push(endpoint), service_is_local, class) == (if endpoint_class(
            endpoint,
            service_is_local,
        ) == class {
            of_class(endpoints, service_is_local, class).push(endpoint)
        } else {
            of_class(endpoints, service_is_local, class)
        }),
{
    reveal(Seq::filter);
    assert(endpoints.push(endpoint).drop_last() =~= endpoints);
}

/// The multiset of four lists, one after the other.
proof fn four_lists(a: Seq<Target>, b: Seq<Target>, c: Seq<Target>, d: Seq<Target>)
    ensures
        (a + b + c + d).to_multiset() == a.to_multiset().add(b.to_multiset()).add(
            c.to_multiset(),
        ).add(d.to_multiset()),
{
    vstd::seq_lib::lemma_multiset_commutative(a, b);
    vstd::seq_lib::lemma_multiset_commutative(a + b, c);
    vstd::seq_lib::lemma_multiset_commutative(a + b + c, d);
}

/// Sorting the endpoints of a service neither adds nor loses any.
pub proof fn sorting_keeps_all_endpoints(endpoints: Seq<Target>, service_is_local: bool)
    ensures
        sorted_endpoints(endpoints, service_is_local).to_multiset() == endpoints.to_multiset(),
    decreases endpoints.len(),
{
    let a = of_class(endpoints, service_is_local, 0);
    let b = of_class(endpoints, service_is_local, 1);
    let c = of_class(endpoints, service_is_local, 2);
    let d = of_class(endpoints, service_is_local, 3);
    four_lists(a, b, c, d);
    if endpoints.len() == 0 {
        reveal(Seq::filter);
        assert(sorted_endpoints(endpoints, service_is_local) =~= endpoints);
    } else {
        let front = endpoints.drop_last();
        let last = endpoints.last();
        assert(endpoints =~= front.push(last));
        sorting_keeps_all_endpoints(front, service_is_local);
        of_class_push(front, last, service_is_local, 0);
        of_class_push(front, last, service_is_local, 1);
        of_class_push(front, last, service_is_local, 2);
        of_class_push(front, last, service_is_local, 3);
        let e = of_class(front, service_is_local, 0);
        let f = of_class(front, service_is_local, 1);
        let g = of_class(front, service_is_local, 2);
        let h = of_class(front, service_is_local, 3);
        four_lists(e, f, g, h);
        e.to_multiset_ensures();
        f.to_multiset_ensures();
        g.to_multiset_ensures();
        h.to_multiset_ensures();
        front.to_multiset_ensures();
        assert(sorted_endpoints(endpoints, service_is_local).to_multiset() =~= endpoints.to_multiset());
    }
}

/// An endpoint of a class.
proof fn class_of_member(endpoints: Seq<Target>, service_is_local: bool, class: int, i: int)
    requires
        0 <= i < of_class(endpoints, service_is_local, class).len(),
    ensures
        endpoint_class(of_class(endpoints, service_is_local, class)[i], service_is_local) == class,
{
    endpoints.lemma_filter_pred(
        |endpoint: Target| endpoint_class(endpoint, service_is_local) == class,
        i,
    );
}

/// Sorted endpoints stand in the order of their classes.
pub proof fn sorted_endpoints_are_in_order(
    endpoints: Seq<Target>,
    service_is_local: bool,
    i: int,
    j: int,
)
    requires
        0 <= i < j < sorted_endpoints(endpoints, service_is_local).len(),
    ensures
        endpoint_class(sorted_endpoints(endpoints, service_is_local)[i], service_is_local)
            <= endpoint_class(sorted_endpoints(endpoints, service_is_local)[j], service_is_local),
{
    class_at(endpoints, service_is_local, i);
    class_at(endpoints, service_is_local, j);
}

/// The class of a sorted endpoint: the number of classes that end before it.
proof fn class_at(endpoints: Seq<Target>, service_is_local: bool, i: int)
    requires
        0 <= i < sorted_endpoints(endpoints, service_is_local).len(),
    ensures
        ({
            let a = of_class(endpoints, service_is_local, 0).len();
            let b = a + of_class(endpoints, service_is_local, 1).len();
            let c = b + of_class(endpoints, service_is_local, 2).len();
            endpoint_class(sorted_endpoints(endpoints, service_is_local)[i], service_is_local) == (
            if i < a {
                0int
            } else if i < b {
                1
            } else if i < c {
                2
            } else {
                3
            })
        }),
{
    let a = of_class(endpoints, service_is_local, 0).len();
    let b = a + of_class(endpoints, service_is_local, 1).len();
    let c = b + of_class(endpoints, service_is_local, 2).len();
    if i < a {
        class_of_member(endpoints, service_is_local, 0, i);
    } else if i < b {
        class_of_member(endpoints, service_is_local, 1, i - a);
    } else if i < c {
        class_of_member(endpoints, service_is_local, 2, i - b);
    } else {
        class_of_member(endpoints, service_is_local, 3, i - c);
    }
}

/// Two endpoints of the same class keep the order in which they were told: the sorted endpoints
/// of a class are the told ones.
pub proof fn sorting_is_stable(endpoints: Seq<Target>, service_is_local: bool, class: int)
    requires
        0 <= class <= 3,
    ensures
        of_class(sorted_endpoints(endpoints, service_is_local), service_is_local, class) == of_class(
            endpoints,
            service_is_local,
            class,
        ),
{
    let a = of_class(endpoints, service_is_local, 0);
    let b = of_class(endpoints, service_is_local, 1);
    let c = of_class(endpoints, service_is_local, 2);
    let d = of_class(endpoints, service_is_local, 3);
    let p = |endpoint: Target| endpoint_class(endpoint, service_is_local) == class;
    Seq::filter_distributes_over_add(a + b + c, d, p);
    Seq::filter_distributes_over_add(a + b, c, p);
    Seq::filter_distributes_over_add(a, b, p);
    one_class(endpoints, service_is_local, 0, class);
    one_class(endpoints, service_is_local, 1, class);
    one_class(endpoints, service_is_local, 2, class);
    one_class(endpoints, service_is_local, 3, class);
    assert(of_class(sorted_endpoints(endpoints, service_is_local), service_is_local, class)
        =~= of_class(endpoints, service_is_local, class));
}

/// The endpoints of one class among those of a class: all or none of them.
proof fn one_class(endpoints: Seq<Target>, service_is_local: bool, class: int, wanted: int)
    ensures
        of_class(of_class(endpoints, service_is_local, class), service_is_local, wanted) == (if class
            == wanted {
            of_class(endpoints, service_is_local, class)
        } else {
            Seq::<Target>::empty()
        }),
    decreases endpoints.len(),
{
    reveal(Seq::filter);
    if endpoints.len() > 0 {
        let front = endpoints.drop_last();
        let last = endpoints.last();
        assert(endpoints =~= front.push(last));
        one_class(front, service_is_local, class, wanted);
        of_class_push(front, last, service_is_local, class);
        of_class_push(of_class(front, service_is_local, class), last, service_is_local, wanted);
    }
}

/// A service that is registered with the directory that its node hosts is found there under its
/// name, and requests to it reach its object.
pub proof fn hosted_service_is_found_and_reached<O>(
    directory: DirectoryView,
    services: Map<u32, ServiceView<O>>,
    info: InfoView,
    object: O,
    action: ActionId,
)
    requires
        directory.consistent(),
        directory.registers(info),
    ensures
        ({
            let id = service::Id(directory.next_id);
            let told = InfoView { id, ..info };
            let after = directory.after_register(info).after_ready(id);
            &&& after.ready.contains_key(id.0) && after.ready[id.0] == told
            &&& has_name(after.ready, info.name)
            &&& handler_at(
                services.insert(
                    id.0,
                    ServiceView { info: told, objects: Map::empty().insert(MAIN_OBJECT_ID, object) },
                ),
                message::Address(id, object::Id(MAIN_OBJECT_ID), action),
            ) == Some((object, action))
        }),
{
    ready_service_is_found(directory, info);
    added_service_is_reached(
        services,
        InfoView { id: service::Id(directory.next_id), ..info },
        object,
        action,
    );
}

} // verus!
