use qi::address::{Address, IpAddr, SocketAddr, Ssl};
use qi::auth::UserTokenAuthenticator;
use qi::endpoints::{
    endpoints_source, endpoints_to_client_targets, interface_endpoints, replace_if_changed,
    update_address_endpoints, EndpointsMap, EndpointsSource,
};
use qi::error::{BoxError, Error};
use qi::hosting::{register_pending_services, update_services, PendingService, Place};
use qi::message;
use qi::meta::ActionId;
use qi::name_map::NameMap;
use qi::node::{
    init, register_pending_service, sort_service_endpoints, ConnectToSpace, HostSpace, Node,
    Registration, Uid,
};
use qi::object;
use qi::os::MachineId;
use qi::service::{Id, Info};
use qi::service_directory::{self, ServiceInfoMap};
use qi::services::Services;
use qi::store::{ConnectStep, ConnectionError, Connector, Store, UnreachableServiceError};
use qi::target::{Kind, Target};
use qi::value::{FromValue, IntoValue, Value};

fn tcp(ip: u32, port: u16) -> Address {
    Address::Tcp { address: SocketAddr::new(IpAddr::V4(ip), port), ssl: None }
}

const LOOPBACK: u32 = 0x7f00_0001;
const REMOTE: u32 = 0x0a00_0001;

#[test]
fn nodes_are_set_up() {
    let mut node = init::<UserTokenAuthenticator, &str>();
    assert_eq!(node.uid, Uid::from_string(String::new()));
    node.with_authenticator(UserTokenAuthenticator::new("u".to_owned(), "t".to_owned()))
        .add_service("A".to_owned(), "first")
        .add_service("A".to_owned(), "second")
        .bind(tcp(0, 9559))
        .bind(tcp(REMOTE, 9559));
    assert_eq!(node.bind_addresses, vec![tcp(0, 9559), tcp(REMOTE, 9559)]);
    assert_eq!(node.pending_services.get("A"), Some(&"second"));
    let mut credentials = NameMap::new();
    credentials.set("auth_user".to_owned(), Value::Bool(true));
    let node = node.connect_to_space(tcp(REMOTE, 1), Some(credentials));
    assert_eq!(node.authenticator.unwrap().user, "u");
    let (search, credentials) = node.method.create_service_directory::<()>();
    assert_eq!(search.service_name, "ServiceDirectory");
    assert_eq!(search.targets, vec![Target::from(tcp(REMOTE, 1))]);
    assert_eq!(credentials.get("auth_user"), Some(&Value::Bool(true)));
    assert_eq!(node.pending_services.into_entries(), vec![("A".to_owned(), "second")]);
}

#[test]
fn nodes_host_spaces() {
    let node = init::<(), ()>().host_space();
    assert_eq!(node.method, HostSpace);
    assert_eq!(node.method.create_service_directory().services(), vec![]);
    let (_, credentials) = init::<(), ()>()
        .connect_to_space(tcp(REMOTE, 1), None)
        .method
        .create_service_directory::<()>();
    assert!(credentials.into_entries().is_empty());
}

fn service_with(endpoints: Vec<Target>, machine: u128) -> Info {
    Info::process_local(
        "A".to_owned(),
        Id(2),
        endpoints,
        Uid::from_string("node".to_owned()),
        object::Uid::from_bytes([5; 20]),
        MachineId(machine),
        2,
    )
}

#[test]
fn endpoints_of_a_service_are_sorted() {
    let relative = || Target::service("A");
    let local = || Target::from(tcp(LOOPBACK, 1));
    let first = || Target::from(tcp(REMOTE, 2));
    let second = || Target::from(tcp(REMOTE, 1));
    let endpoints = vec![relative(), local(), first(), second()];
    let service = service_with(endpoints, 7);
    assert_eq!(
        sort_service_endpoints(&service, MachineId(7)),
        vec![first(), second(), local(), relative()]
    );
    assert_eq!(
        sort_service_endpoints(&service, MachineId(8)),
        vec![local(), first(), second(), relative()]
    );
}

#[test]
fn services_are_searched_at_their_endpoints() {
    let node = Node {
        uid: Uid::from_string("node".to_owned()),
        session_store: (),
        service_directory: "directory",
        server_set: (),
    };
    assert_eq!(*node.service_directory(), "directory");
    let service = service_with(vec![Target::service("A"), Target::from(tcp(REMOTE, 2))], 7);
    let mut search: Connector<&str> = node.service("A", &service, MachineId(7));
    assert_eq!(search.next(), ConnectStep::Open(tcp(REMOTE, 2)));
    search.found(Some("session"));
    assert_eq!(search.next(), ConnectStep::Open(tcp(REMOTE, 2)));
    search.opened(Err(Error::from("refused")), "tcp://10.0.0.1:2".to_owned());
    assert_eq!(search.next(), ConnectStep::Find(&"A".to_owned()));
    search.opened(Err(Error::from("refused")), "tcp://10.0.0.1:3".to_owned());
    assert_eq!(search.next(), ConnectStep::Find(&"A".to_owned()));
    search.found(None);
    assert_eq!(search.next(), ConnectStep::Finish);
    search.found(Some("session"));
    assert_eq!(search.next(), ConnectStep::Finish);
    let error = search.finish().unwrap_err();
    assert_eq!(
        error,
        Error::Other(BoxError::UnreachableService(UnreachableServiceError(
            "A".to_owned(),
            vec![ConnectionError {
                address: tcp(REMOTE, 2),
                shown: "tcp://10.0.0.1:2".to_owned(),
                source: Error::from("refused")
            }]
        )))
    );
    assert_eq!(
        error.to_text(),
        "could not reach service \"A\", tried the following connections: \
         [tcp://10.0.0.1:2 => refused]"
    );
}

#[test]
fn first_session_is_taken() {
    let targets = || vec![Target::service("A"), Target::from(tcp(REMOTE, 2))];
    let mut search = Connector::new("A".to_owned(), targets());
    search.found(Some("found"));
    assert_eq!(search.next(), ConnectStep::Finish);
    assert_eq!(search.finish(), Ok("found"));
    let mut search = Connector::new("A".to_owned(), targets());
    search.found(None);
    search.opened(Ok("opened"), String::new());
    assert_eq!(search.next(), ConnectStep::Finish);
    search.opened(Err(Error::from("late")), String::new());
    assert_eq!(search.finish(), Ok("opened"));
}

#[test]
fn text_of_an_unreachable_service_tells_what_was_tried() {
    let error = UnreachableServiceError("Calculator".to_owned(), vec![]);
    assert_eq!(
        error.to_text(),
        "could not reach service \"Calculator\", no connection was tried"
    );
    let tried = |port: u16, text: &str| ConnectionError {
        address: tcp(REMOTE, port),
        shown: text.to_owned(),
        source: Error::from("refused"),
    };
    let error =
        UnreachableServiceError(String::new(), vec![tried(2, "first"), tried(3, "second")]);
    assert_eq!(
        error.to_text(),
        "could not reach service \"\", tried the following connections: \
         [first => refusedsecond => refused]"
    );
}

#[test]
fn text_of_a_connection_that_failed() {
    let error = ConnectionError {
        address: tcp(REMOTE, 2),
        shown: "tcp://10.0.0.1:2".to_owned(),
        source: Error::from("refused"),
    };
    assert_eq!(error.to_text(), "could not connect to address \"tcp://10.0.0.1:2\"");
}

#[test]
fn spaces_are_the_same_by_address_and_credentials() {
    let space = |names: &[&str], port: u16| {
        let mut credentials = NameMap::new();
        for name in names {
            credentials.set((*name).to_owned(), Value::Bool(name.len() == 1));
        }
        ConnectToSpace { address: tcp(REMOTE, port), credentials: Some(credentials) }
    };
    assert_eq!(space(&["a", "bb"], 1), space(&["bb", "a"], 1));
    assert_ne!(space(&["a", "bb"], 1), space(&["a", "bb"], 2));
    assert_ne!(space(&["a", "bb"], 1), space(&["a"], 1));
    assert_ne!(space(&["a", "bb"], 1), space(&["a", "cc"], 1));
    let mut other = NameMap::new();
    other.set("a".to_owned(), Value::Bool(false));
    assert_ne!(space(&["a"], 1).credentials, Some(other));
}

#[test]
fn node_uid_is_made_of_what_is_drawn() {
    assert_eq!(
        Uid::from_drawn(0x361ecec4_00f7_4c94_a6e2_d91e28c5a06c).to_text(),
        "361ecec4-00f7-4c94-a6e2-d91e28c5a06c"
    );
}

#[test]
fn node_uids_are_their_texts() {
    for id in ["", "node", "361ecec4-00f7-4c94-a6e2-d91e28c5a06c", " \u{e9}\n"] {
        let uid = Uid::from_string(id.to_owned());
        assert_eq!(uid.to_text(), id);
        assert_eq!(id.parse::<Uid>(), Ok(uid.clone()));
        assert_eq!(Uid::from_value(uid.clone().into_value()), Ok(uid));
    }
    assert_ne!(Uid::from_string("a".to_owned()), Uid::from_string("b".to_owned()));
    assert!(Uid::from_string("a".to_owned()) < Uid::from_string("b".to_owned()));
    assert_eq!(Uid::default().to_text(), "");
}

#[test]
fn opened_session_is_found_by_a_later_search() {
    let mut store: Store<u32> = Store::new();
    let mut search = Connector::new(
        "A".to_owned(),
        vec![Target::service("A"), Target::from(tcp(REMOTE, 2)), Target::from(tcp(REMOTE, 3))],
    );
    store.opened(&mut search, Ok(1), String::new(), |session: &u32| *session);
    assert!(store.sessions.get("A").is_none());
    store.find(&mut search, |_: &u32| panic!("nothing is kept"));
    store.find(&mut search, |_: &u32| panic!("an endpoint"));
    store.opened(&mut search, Err(Error::CallCanceled), String::new(), |session: &u32| *session);
    assert!(store.sessions.get("A").is_none());
    assert_eq!(search.next(), ConnectStep::Open(tcp(REMOTE, 3)));
    store.opened(&mut search, Ok(7), String::new(), |session: &u32| *session + 1);
    assert_eq!(search.finish(), Ok(7));
    assert_eq!(store.sessions.get("A"), Some(&8));
    let later = || Connector::new("B".to_owned(), vec![Target::service("A")]);
    let mut search = later();
    store.find(&mut search, |weak: &u32| Some(*weak - 1));
    assert_eq!(search.finish(), Ok(7));
    let mut search = later();
    store.find(&mut search, |_: &u32| None);
    assert!(search.finish().is_err());
    assert!(store.sessions.get("A").is_none());
}

#[test]
fn sessions_are_kept_while_they_are_open() {
    let mut store: Store<Option<u32>> = Store::new();
    let name = "A".to_owned();
    assert_eq!(store.get(&name, |weak: &Option<u32>| *weak), None);
    store.insert(name.clone(), Some(3));
    store.insert("B".to_owned(), Some(4));
    assert_eq!(store.get(&name, |weak: &Option<u32>| *weak), Some(3));
    store.insert(name.clone(), None);
    assert_eq!(store.get(&name, |weak: &Option<u32>| *weak), None);
    assert!(store.sessions.get(&name).is_none());
    assert_eq!(store.get(&"B".to_owned(), |weak: &Option<u32>| *weak), Some(4));
}

#[test]
fn hosted_services_are_registered() {
    let mut directory = ServiceInfoMap::default();
    let mut services = Services::new();
    let result = register_pending_service(
        Uid::from_string("node".to_owned()),
        &mut services,
        &mut directory,
        "A".to_owned(),
        "object",
        object::Uid::from_bytes([5; 20]),
        vec![Target::service("A")],
        MachineId(7),
        8,
    );
    assert_eq!(result, Ok(()));
    let info = directory.service("A").unwrap();
    assert_eq!(info.id, Id(2));
    assert_eq!(info.object_uid(), object::Uid::from_bytes([5; 20]));
    let address = message::Address(Id(2), object::Id(1), ActionId(100));
    assert_eq!(services.route_call(address), Ok((&"object", ActionId(100))));
}

#[test]
fn refused_services_are_not_routed_to() {
    let mut directory = ServiceInfoMap::default();
    let mut services = Services::new();
    directory.register(&service_with(vec![], 1)).unwrap();
    let result = register_pending_service(
        Uid::from_string("node".to_owned()),
        &mut services,
        &mut directory,
        "A".to_owned(),
        "object",
        object::Uid::zero(),
        vec![],
        MachineId(7),
        8,
    );
    assert_eq!(
        result,
        Err(Error::from(service_directory::Error::ServiceAlreadyExists("A".to_owned())))
    );
    let address = message::Address(Id(3), object::Id(1), ActionId(100));
    assert!(services.route_call(address).is_err());
}

#[test]
fn registration_goes_on_with_the_given_id() {
    let mut services = Services::new();
    let start = || {
        Registration::start(
            Uid::from_string("node".to_owned()),
            "A".to_owned(),
            "object",
            object::Uid::zero(),
            vec![],
            MachineId(7),
            8,
        )
    };
    assert_eq!(start().info.id, Id(0));
    assert_eq!(
        start().registered(&mut services, Err(Error::CallCanceled)),
        Err(Error::CallCanceled)
    );
    let registered = start().registered(&mut services, Ok(Id(9))).unwrap();
    assert_eq!(registered.id, Id(9));
    assert_eq!(registered.ready(Err(Error::CallCanceled)), Err(Error::CallCanceled));
    assert_eq!(registered.ready(Ok(())), Ok(()));
    let address = message::Address(Id(9), object::Id(1), ActionId(100));
    assert_eq!(services.route_call(address), Ok((&"object", ActionId(100))));
}

fn pending(name: &str) -> PendingService<String> {
    PendingService {
        name: name.to_owned(),
        object: name.to_lowercase(),
        object_uid: object::Uid::zero(),
    }
}

fn place(endpoints: Vec<Target>) -> Place {
    Place {
        uid: Uid::from_string("node".to_owned()),
        endpoints,
        machine_id: MachineId(7),
        process_id: 8,
    }
}

#[test]
fn all_pending_services_are_hosted() {
    let mut directory = ServiceInfoMap::default();
    let mut services = Services::new();
    let result = register_pending_services(
        &mut services,
        &mut directory,
        vec![pending("A"), pending("B")],
        &place(vec![Target::service("X")]),
    );
    assert_eq!(result, Ok(()));
    assert_eq!(directory.service("B").unwrap().id, Id(3));
    let address = message::Address(Id(3), object::Id(1), ActionId(100));
    assert_eq!(services.route_call(address), Ok((&"b".to_owned(), ActionId(100))));
    update_services(&mut services, &mut directory, &vec![Target::service("Y")]);
    for name in ["A", "B"] {
        let info = directory.service(name).unwrap();
        assert_eq!(info.endpoints, vec![Target::service("Y")]);
    }
}

#[test]
fn registration_ends_at_the_first_refusal() {
    let mut directory = ServiceInfoMap::default();
    let mut services = Services::new();
    directory.register(&service_with(vec![], 1)).unwrap();
    let result = register_pending_services(
        &mut services,
        &mut directory,
        vec![pending("B"), pending("A"), pending("C")],
        &place(vec![]),
    );
    assert_eq!(
        result,
        Err(Error::from(service_directory::Error::ServiceAlreadyExists("A".to_owned())))
    );
    assert!(directory.service("B").is_ok());
    assert!(directory.service("C").is_err());
}

#[test]
fn endpoints_of_servers_are_targets_for_clients() {
    let mut servers = EndpointsMap::new();
    servers.insert(tcp(0, 2), vec![tcp(REMOTE, 2), tcp(LOOPBACK, 2)]);
    servers.insert(tcp(0, 1), vec![tcp(REMOTE, 9)]);
    servers.insert(tcp(0, 1), vec![tcp(LOOPBACK, 2), tcp(REMOTE, 1)]);
    assert_eq!(
        endpoints_to_client_targets(&servers),
        vec![
            Target::from(tcp(REMOTE, 1)),
            Target::from(tcp(REMOTE, 2)),
            Target::from(tcp(LOOPBACK, 2)),
        ]
    );
}

#[test]
fn client_targets_do_not_depend_on_the_order_of_servers() {
    let lists = [vec![tcp(REMOTE, 2), tcp(LOOPBACK, 2)], vec![tcp(LOOPBACK, 1)]];
    let mut first = EndpointsMap::new();
    first.insert(tcp(0, 1), lists[0].clone());
    first.insert(tcp(0, 2), lists[1].clone());
    let mut second = EndpointsMap::new();
    second.insert(tcp(0, 2), lists[1].clone());
    second.insert(tcp(0, 1), lists[0].clone());
    assert_eq!(endpoints_to_client_targets(&first), endpoints_to_client_targets(&second));
}

#[test]
fn addresses_have_an_order() {
    let six = |value, ssl| Address::Tcp {
        address: SocketAddr::new(IpAddr::V6(value), 1),
        ssl,
    };
    let scoped = |ip, flowinfo, scope_id| Address::Tcp {
        address: SocketAddr::V6 { ip, port: 1, flowinfo, scope_id },
        ssl: None,
    };
    let sorted = [
        tcp(REMOTE, 1),
        tcp(REMOTE, 2),
        tcp(LOOPBACK, 1),
        six(1, None),
        six(1, Some(Ssl::Simple)),
        six(1, Some(Ssl::Mutual)),
        scoped(1, 0, 7),
        scoped(1, 1, 0),
        six(2, None),
    ];
    for (i, a) in sorted.iter().enumerate() {
        for (j, b) in sorted.iter().enumerate() {
            assert_eq!(a.before(b), i < j);
            assert_eq!(a.same(b), i == j);
            assert_eq!(a < b, i < j);
        }
    }
}

#[test]
fn servers_on_all_interfaces_have_all_their_endpoints() {
    assert_eq!(
        endpoints_source(tcp(0, 9559)),
        EndpointsSource::Interfaces { port: 9559, ssl: None }
    );
    let any = Address::Tcp {
        address: SocketAddr::new(IpAddr::V6(0), 1),
        ssl: Some(Ssl::Simple),
    };
    assert_eq!(
        endpoints_source(any),
        EndpointsSource::Interfaces { port: 1, ssl: Some(Ssl::Simple) }
    );
    assert_eq!(
        endpoints_source(tcp(LOOPBACK, 1)),
        EndpointsSource::Own(tcp(LOOPBACK, 1))
    );
    let scoped = Address::Tcp {
        address: SocketAddr::V6 { ip: 0xfe80 << 112, port: 1, flowinfo: 2, scope_id: 3 },
        ssl: None,
    };
    let mut watched = (scoped, vec![]);
    assert!(update_address_endpoints(scoped, &vec![], &mut watched));
    assert_eq!(watched, (scoped, vec![scoped]));
    let interfaces = vec![IpAddr::V4(REMOTE), IpAddr::V4(LOOPBACK)];
    assert_eq!(
        interface_endpoints(&interfaces, 9559, None),
        vec![tcp(REMOTE, 9559), tcp(LOOPBACK, 9559)]
    );
}

#[test]
fn endpoints_change_only_when_they_differ() {
    let mut endpoints = vec![];
    assert!(replace_if_changed(&mut endpoints, vec![tcp(REMOTE, 1)]));
    assert!(!replace_if_changed(&mut endpoints, vec![tcp(REMOTE, 1)]));
    assert!(replace_if_changed(&mut endpoints, vec![tcp(REMOTE, 2)]));
    assert_eq!(endpoints, vec![tcp(REMOTE, 2)]);
}

#[test]
fn watched_endpoints_are_updated() {
    let scoped = Address::Tcp {
        address: SocketAddr::V6 { ip: 0xfe80 << 112, port: 1, flowinfo: 2, scope_id: 3 },
        ssl: None,
    };
    let mut watched = (scoped, vec![]);
    assert!(update_address_endpoints(scoped, &vec![], &mut watched));
    assert_eq!(watched, (scoped, vec![scoped]));
    let interfaces = vec![IpAddr::V4(REMOTE), IpAddr::V4(LOOPBACK)];
    let mut watched = (tcp(0, 9559), vec![]);
    assert!(update_address_endpoints(tcp(0, 9559), &interfaces, &mut watched));
    assert_eq!(watched, (tcp(0, 9559), vec![tcp(REMOTE, 9559), tcp(LOOPBACK, 9559)]));
    assert!(!update_address_endpoints(tcp(0, 9559), &interfaces, &mut watched));
    let mut watched = (tcp(REMOTE, 1), vec![]);
    assert!(update_address_endpoints(tcp(REMOTE, 1), &interfaces, &mut watched));
    assert_eq!(watched, (tcp(REMOTE, 1), vec![tcp(REMOTE, 1)]));
}

#[test]
fn targets_are_relative_or_local() {
    let service = Target::service("A");
    assert_eq!(service.kind(), &Kind::Service("A".to_owned()));
    assert!(service.is_service_relative() && !service.is_machine_local());
    let local = Target::from(tcp(0x7fff_ffff, 1));
    assert!(!local.is_service_relative() && local.is_machine_local());
    let any = Address::Tcp { address: SocketAddr::new(IpAddr::V6(1), 1), ssl: None };
    assert!(Target::from(any).is_machine_local());
    assert!(!Target::from(tcp(REMOTE, 1)).is_machine_local());
}
