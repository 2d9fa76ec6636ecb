use bytes::Bytes;
use qi::error::{BoxError, Error, FormatError, HandlerError, NoHandlerError};
use qi::handler::{
    answer_call, call_arguments_read, handle_call_with, handle_meta_call, handle_meta_event,
    handle_meta_post, method_called, result_written, value_read, CallStep, PostStep,
};
use qi::message::{self, Message};
use qi::meta::{ActionId, ActionNameOrId, MetaMethod, MetaObject, MetaSignal};
use qi::node;
use qi::object;
use qi::os::MachineId;
use qi::server::{answer, DispatchFlow};
use qi::service::{Id, Info};
use qi::services::Services;
use qi::target::Target;
use qi::value::{Signature, Type, Value};
use qi::wire;

fn info(name: &str, id: u32) -> Info {
    Info::process_local(
        name.to_owned(),
        Id(id),
        vec![],
        node::Uid::from_string("node".to_owned()),
        object::Uid::zero(),
        MachineId(1),
        2,
    )
}

fn address(service: u32, object: u32, action: u32) -> message::Address {
    message::Address(Id(service), object::Id(object), ActionId(action))
}

#[test]
fn requests_are_routed_to_main_objects() {
    let mut services = Services::new();
    services.insert_handler(info("A", 2), "a");
    services.insert_handler(info("B", 3), "b");
    assert_eq!(services.route_call(address(2, 1, 100)), Ok((&"a", ActionId(100))));
    assert_eq!(services.route_post(address(3, 1, 101)), Some((&"b", ActionId(101))));
    assert_eq!(services.route_event(address(3, 1, 102)), Some((&"b", ActionId(102))));
    services.insert_handler(info("C", 2), "c");
    assert_eq!(services.get_request_handler(address(2, 1, 100)), Some((&"c", ActionId(100))));
}

#[test]
fn requests_without_handler_are_not_routed() {
    let mut services = Services::new();
    services.insert_handler(info("A", 2), "a");
    let unknown = address(4, 1, 100);
    assert_eq!(
        services.route_call(unknown),
        Err(Error::from(NoHandlerError(message::Type::Call, unknown)))
    );
    assert_eq!(services.route_post(address(2, 2, 100)), None);
    assert_eq!(services.route_event(unknown), None);
}

#[test]
fn calls_without_handler_stop_the_dispatch() {
    let services: Services<()> = Services::new();
    let unknown = address(4, 1, 100);
    let outcome = services.route_call(unknown).map(|_| Bytes::new());
    let sent = answer(message::Id(5), unknown, answer_call(outcome));
    assert_eq!(
        sent,
        (
            Message::Error {
                id: message::Id(5),
                address: unknown,
                error: "there is no handler for message of type call to address 4.1.100".to_owned()
            },
            DispatchFlow::Stop
        )
    );
}

#[test]
fn endpoints_of_all_services_are_set() {
    let mut services = Services::new();
    services.insert_handler(info("A", 2), "a");
    services.insert_handler(info("B", 3), "b");
    let endpoints = vec![Target::service("X")];
    let mut infos = services.set_endpoints(&endpoints);
    infos.sort_by_key(|info| info.id);
    assert_eq!(infos.len(), 2);
    assert_eq!(infos[0].name, "A");
    assert_eq!(infos[0].endpoints, endpoints);
    assert_eq!(infos[1].name, "B");
    assert_eq!(infos[1].endpoints, endpoints);
    assert_eq!(services.route_call(address(2, 1, 100)), Ok((&"a", ActionId(100))));
}

fn meta() -> MetaObject {
    let mut meta = MetaObject::new();
    meta.methods.push(MetaMethod {
        uid: ActionId(100),
        name: "double".to_owned(),
        parameters_signature: Signature(Some(Type::Int32)),
        return_signature: Signature(Some(Type::Int32)),
    });
    meta.signals.push(MetaSignal {
        uid: ActionId(101),
        name: "changed".to_owned(),
        signature: Signature(None),
    });
    meta
}

#[test]
fn calls_are_handled_step_by_step() {
    let meta = meta();
    match handle_meta_call(&meta, ActionId(100)) {
        CallStep::ReadArguments(ty) => assert_eq!(ty, Some(&Type::Int32)),
        other => panic!("not the expected step: {:?}", other),
    }
    match call_arguments_read(ActionId(100), Ok(Value::Int32(3))) {
        CallStep::Call(ident, args) => {
            assert_eq!(ident, ActionNameOrId::Id(ActionId(100)));
            assert_eq!(args, Value::Int32(3));
        }
        other => panic!("not the expected step: {:?}", other),
    }
    match method_called(Ok(Value::Int32(6))) {
        CallStep::WriteResult(value) => assert_eq!(value, Value::Int32(6)),
        other => panic!("not the expected step: {:?}", other),
    }
    match result_written(Ok(Bytes::from_static(&[6, 0, 0, 0]))) {
        CallStep::Answer(outcome) => assert_eq!(outcome, Ok(Bytes::from_static(&[6, 0, 0, 0]))),
        other => panic!("not the expected step: {:?}", other),
    }
}

#[test]
fn calls_fail_at_each_step() {
    let meta = meta();
    let six = || Ok(Bytes::from_static(&[6, 0, 0, 0]));
    let handle = |id, read, called, written| handle_call_with(&meta, ActionId(id), read, called, written);
    assert_eq!(
        handle(100, Ok(Value::Int32(3)), Ok(Value::Int32(6)), six()),
        Ok(Bytes::from_static(&[6, 0, 0, 0]))
    );
    assert_eq!(
        handle(101, Ok(Value::Int32(3)), Ok(Value::Int32(6)), six()),
        Err(Error::MethodNotFound(ActionNameOrId::Id(ActionId(101))))
    );
    assert_eq!(
        handle(100, Err(wire::Error::UnexpectedEnd), Ok(Value::Int32(6)), six()),
        Err(Error::from(FormatError::ArgumentsDeserialization(wire::Error::UnexpectedEnd)))
    );
    assert_eq!(
        handle(100, Ok(Value::Int32(3)), Err(Error::CallCanceled), six()),
        Err(Error::CallCanceled)
    );
    assert_eq!(
        handle(100, Ok(Value::Int32(3)), Ok(Value::Int32(6)), Err(wire::Error::TooLong)),
        Err(Error::from(FormatError::MethodReturnValueSerialization(wire::Error::TooLong)))
    );
}

#[test]
fn posts_are_handled_or_discarded() {
    let meta = meta();
    match handle_meta_post(&meta, ActionId(100)) {
        PostStep::ReadValue(ty) => assert_eq!(ty, Some(&Type::Int32)),
        other => panic!("not the expected step: {:?}", other),
    }
    match handle_meta_post(&meta, ActionId(101)) {
        PostStep::ReadValue(ty) => assert_eq!(ty, None),
        other => panic!("not the expected step: {:?}", other),
    }
    assert!(matches!(handle_meta_post(&meta, ActionId(102)), PostStep::Discard));
    assert!(matches!(handle_meta_event(&meta, ActionId(100)), PostStep::Discard));
    assert!(matches!(handle_meta_event(&meta, ActionId(101)), PostStep::ReadValue(None)));
    match value_read(ActionId(101), Ok(Value::Bool(true))) {
        PostStep::Hand(ident, value) => {
            assert_eq!(ident, ActionNameOrId::Id(ActionId(101)));
            assert_eq!(value, Value::Bool(true));
        }
        other => panic!("not the expected step: {:?}", other),
    }
    assert!(matches!(
        value_read(ActionId(101), Err(wire::Error::UnexpectedEnd)),
        PostStep::Discard
    ));
}

#[test]
fn errors_of_calls_are_fatal_unless_canceled() {
    assert_eq!(
        answer_call(Err(Error::from("no"))),
        Err(HandlerError::Custom { message: "no".to_owned(), is_fatal: true })
    );
    assert_eq!(answer_call(Err(Error::CallCanceled)), Err(HandlerError::CallCanceled));
    assert_eq!(answer_call(Ok(Bytes::new())), Ok(Bytes::new()));
}

#[test]
fn texts_of_errors() {
    let text = |err: Error| err.to_text();
    assert_eq!(text(Error::CallCanceled), "the call request has been canceled");
    assert_eq!(
        text(Error::MethodNotFound(ActionNameOrId::Name("log".to_owned()))),
        "there is no object method with identifier log"
    );
    assert_eq!(
        text(Error::MethodNotFound(ActionNameOrId::Id(ActionId(3)))),
        "there is no object method with identifier 3"
    );
    assert_eq!(text(Error::Other(BoxError::Message("oh".to_owned()))), "oh");
    assert_eq!(
        text(Error::from(NoHandlerError(message::Type::Event, address(1, 2, 3)))),
        "there is no handler for message of type event to address 1.2.3"
    );
}
