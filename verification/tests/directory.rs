use qi::directory_client::{Client, Meta};
use qi::info_record::InfoRecord;
use qi::message;
use qi::meta::{ActionId, ActionNameOrId};
use qi::node;
use qi::object;
use qi::os::MachineId;
use qi::service::{Id, Info};
use qi::service_directory::{Error, ServiceIdIterator, ServiceInfoMap};
use qi::target::Target;
use qi::value::{Type, Value};

fn info(name: &str) -> Info {
    Info::unregistered(
        name.to_owned(),
        vec![],
        node::Uid::from_string("node".to_owned()),
        object::Uid::zero(),
        MachineId(1),
        2,
    )
}

#[test]
fn services_are_registered_then_ready() {
    let mut directory = ServiceInfoMap::default();
    let id = directory.register(&info("A")).unwrap();
    assert_eq!(id, Id(2));
    assert!(directory.has_service("A"));
    assert_eq!(
        directory.service("A"),
        Err(Error::ServiceNotFound("A".to_owned()))
    );
    assert_eq!(directory.set_ready(id), Ok(()));
    assert!(directory.has_service("A"));
    assert!(!directory.has_service("B"));
    assert_eq!(directory.service("A").unwrap().id, Id(2));
    directory.unregister(id);
    assert!(!directory.has_service("A"));
    assert_eq!(
        directory.service("A"),
        Err(Error::ServiceNotFound("A".to_owned()))
    );
}

#[test]
fn service_ids_are_given_once() {
    let mut directory = ServiceInfoMap::default();
    let first = directory.register(&info("A")).unwrap();
    directory.set_ready(first).unwrap();
    directory.unregister(first);
    assert_eq!(directory.register(&info("A")), Ok(Id(3)));
    assert_eq!(directory.register(&info("B")), Ok(Id(4)));
}

#[test]
fn name_of_a_service_is_taken_ready_or_not() {
    let mut directory = ServiceInfoMap::default();
    let id = directory.register(&info("A")).unwrap();
    assert_eq!(
        directory.register(&info("A")),
        Err(Error::ServiceAlreadyExists("A".to_owned()))
    );
    directory.set_ready(id).unwrap();
    assert_eq!(
        directory.register(&info("A")),
        Err(Error::ServiceAlreadyExists("A".to_owned()))
    );
    assert_eq!(directory.register(&info("B")), Ok(Id(3)));
    directory.unregister(id);
    assert_eq!(directory.register(&info("A")), Ok(Id(4)));
}

#[test]
fn only_pending_services_become_ready() {
    let mut directory = ServiceInfoMap::default();
    assert_eq!(directory.set_ready(Id(2)), Err(Error::PendingServiceNotFound(Id(2))));
    let id = directory.register(&info("A")).unwrap();
    directory.set_ready(id).unwrap();
    assert_eq!(directory.set_ready(id), Err(Error::PendingServiceNotFound(Id(2))));
}

#[test]
fn pending_services_are_not_unregistered() {
    let mut directory = ServiceInfoMap::default();
    let id = directory.register(&info("A")).unwrap();
    directory.unregister(id);
    assert_eq!(directory.set_ready(id), Ok(()));
}

#[test]
fn services_are_updated_ready_or_not() {
    let mut directory = ServiceInfoMap::default();
    let mut a = info("A");
    assert_eq!(directory.update(&a), Err(Error::ServiceWithIdNotFound(Id(0))));
    a.id = directory.register(&a).unwrap();
    a.process_id = 33;
    assert_eq!(directory.update(&a), Ok(()));
    directory.set_ready(a.id).unwrap();
    assert_eq!(directory.service("A").unwrap().process_id, 33);
    a.endpoints = vec![Target::service("A")];
    assert_eq!(directory.update(&a), Ok(()));
    assert_eq!(directory.service("A"), Ok(a));
}

#[test]
fn ready_services_are_listed() {
    let mut directory = ServiceInfoMap::default();
    assert_eq!(directory.services(), vec![]);
    for name in ["A", "B", "C"] {
        let id = directory.register(&info(name)).unwrap();
        if name != "B" {
            directory.set_ready(id).unwrap();
        }
    }
    let mut names: Vec<String> =
        directory.services().into_iter().map(|info| info.name).collect();
    names.sort();
    assert_eq!(names, vec!["A".to_owned(), "C".to_owned()]);
}

#[test]
fn last_service_id_is_not_given() {
    let mut ids = ServiceIdIterator { current: u32::MAX - 1 };
    assert_eq!(ids.next(), Some(Id(u32::MAX - 1)));
    assert_eq!(ids.next(), None);
    assert_eq!(ids.next(), None);
    assert_eq!(ServiceIdIterator::default().next(), Some(Id(2)));
}

#[test]
fn texts_of_directory_errors() {
    assert_eq!(
        Error::ServiceNotFound("A".to_owned()).to_text(),
        "service \"A\" not found"
    );
    assert_eq!(
        Error::ServiceWithIdNotFound(Id(3)).to_text(),
        "service with id \"3\" not found"
    );
    assert_eq!(
        Error::ServiceAlreadyExists("A".to_owned()).to_text(),
        "service \"A\" already exists"
    );
    assert_eq!(
        Error::MaxIdReached.to_text(),
        "maximum service id has been reached, cannot register any more service"
    );
    assert_eq!(
        Error::PendingServiceNotFound(Id(3)).to_text(),
        "there is no pending service with id 3"
    );
}

#[test]
fn directory_tells_of_its_actions() {
    let meta = Meta::get();
    let methods: Vec<(u32, &str)> =
        meta.object.methods.iter().map(|m| (m.uid.0, m.name.as_str())).collect();
    assert_eq!(
        methods,
        vec![
            (100, "service"),
            (101, "services"),
            (102, "registerService"),
            (103, "unregisterService"),
            (104, "serviceReady"),
            (105, "updateServiceInfo"),
            (108, "machineId"),
        ]
    );
    let signals: Vec<(u32, &str)> =
        meta.object.signals.iter().map(|s| (s.uid.0, s.name.as_str())).collect();
    assert_eq!(signals, vec![(106, "serviceAdded"), (107, "serviceRemoved")]);
    assert_eq!(meta.machine_id, ActionId(108));
    let method = meta
        .object
        .method(&ActionNameOrId::Name("registerService".to_owned()))
        .unwrap();
    assert_eq!(method.return_signature.as_type(), Some(&Type::UInt32));
}

fn record() -> InfoRecord {
    info("A").to_record(&vec![])
}

#[test]
fn directory_clients_ask_by_calls() {
    let client = Client::new("session");
    assert_eq!(*client.session(), "session");
    let address =
        |action| message::Address(Id(1), object::Id(1), ActionId(action));
    let request = client.services().unwrap();
    assert_eq!(request.address, address(101));
    assert_eq!(request.args, Value::Unit);
    let request = client.service("A").unwrap();
    assert_eq!(request.address, address(100));
    assert_eq!(request.args, Value::String(b"A".to_vec()));
    let request = client.register(record()).unwrap();
    assert_eq!(request.address, address(102));
    assert_eq!(request.return_type, Some(&Type::UInt32));
    match request.args {
        Value::Tuple(fields) => {
            assert_eq!(fields.len(), 7);
            assert_eq!(fields[0], Value::String(b"A".to_vec()));
            assert_eq!(fields[1], Value::UInt32(0));
            assert_eq!(fields[4], Value::List(vec![]));
        }
        other => panic!("not a structure: {:?}", other),
    }
    let request = client.unregister(Id(7)).unwrap();
    assert_eq!(request.address, address(103));
    assert_eq!(request.args, Value::UInt32(7));
    let request = client.set_ready(Id(8)).unwrap();
    assert_eq!(request.address, address(104));
    assert_eq!(request.args, Value::UInt32(8));
    assert_eq!(request.return_type, Some(&Type::Unit));
    assert_eq!(client.update(record()).unwrap().address, address(105));
    assert_eq!(client.machine_id().unwrap().address, address(108));
    assert_eq!(client.object().service_id, Id(1));
}
