use qi::error::{BoxError, Error, ValueConversionError};
use qi::message;
use qi::meta::{ActionId, ActionNameOrId, MetaMethod, MetaObject, MetaProperty, MetaSignal};
use qi::object::{
    property_request, set_property_request, Id, Object, ObjectClient, ObjectExt, PostAction, SignalClient, SignalClientConnection, Uid,
};
use qi::service;
use qi::signal::Link;
use qi::value::{
    Expected, FromValue, FromValueError, IntoValue, Kind, Signature, Type, Value, ValueType,
};
use std::sync::Mutex;

struct Calculator {
    a: i32,
}

impl Calculator {
    fn new(a: i32) -> Self {
        Self { a }
    }

    fn add(&mut self, b: i32) -> i32 {
        self.a += b;
        self.a
    }

    fn sub(&mut self, b: i32) -> i32 {
        self.a -= b;
        self.a
    }

    fn mul(&mut self, b: i32) -> i32 {
        self.a *= b;
        self.a
    }

    fn div(&mut self, b: i32) -> Result<i32, DivisionByZeroError> {
        if b == 0 {
            Err(DivisionByZeroError)
        } else {
            self.a /= b;
            Ok(self.a)
        }
    }

    fn clamp(&mut self, min: i32, max: i32) -> i32 {
        self.a = self.a.clamp(min, max);
        self.a
    }

    fn ans(&self) -> i32 {
        self.a
    }
}

#[derive(Debug)]
struct DivisionByZeroError;

impl std::fmt::Display for DivisionByZeroError {
    fn fmt(&self, f: &mut std::fmt::Formatter<'_>) -> std::fmt::Result {
        f.write_str("division by zero")
    }
}

impl std::error::Error for DivisionByZeroError {}

struct CalculatorObject {
    calculator: Mutex<Calculator>,
    meta: MetaObject,
}

fn method(uid: ActionId, name: &str, parameters: Vec<Type>) -> MetaMethod {
    MetaMethod {
        uid,
        name: name.to_owned(),
        parameters_signature: Signature(Some(Type::Tuple(parameters))),
        return_signature: Signature(Some(Type::Int32)),
    }
}

impl CalculatorObject {
    fn new(a: i32) -> Self {
        let mut id = ActionId(0);
        let mut meta = MetaObject::new();
        meta.methods.push(method(id.wrapping_next(), "add", vec![Type::Int32]));
        meta.methods.push(method(id.wrapping_next(), "sub", vec![Type::Int32]));
        meta.methods.push(method(id.wrapping_next(), "mul", vec![Type::Int32]));
        meta.methods.push(method(id.wrapping_next(), "div", vec![Type::Int32]));
        meta.methods.push(method(id.wrapping_next(), "clamp", vec![Type::Int32, Type::Int32]));
        meta.methods.push(method(id.wrapping_next(), "ans", vec![]));
        Self { calculator: Mutex::new(Calculator::new(a)), meta }
    }
}

fn argument<T: FromValue>(args: Value) -> Result<T, Error> {
    T::from_value(args).map_err(|err| Error::from(ValueConversionError::Arguments(err)))
}

impl Object for CalculatorObject {
    fn meta(&self) -> &MetaObject {
        &self.meta
    }

    fn meta_call(&self, name_or_id: ActionNameOrId, args: Value) -> Result<Value, Error> {
        let uid = match self.meta.method(&name_or_id) {
            Some(method) => method.uid,
            None => return Err(Error::MethodNotFound(name_or_id)),
        };
        let mut calculator = self.calculator.lock().unwrap();
        let result: i32 = match uid.0 {
            0 => calculator.add(argument(args)?),
            1 => calculator.sub(argument(args)?),
            2 => calculator.mul(argument(args)?),
            3 => calculator.div(argument(args)?).map_err(std::io::Error::other)?,
            4 => {
                let (min, max): (i32, i32) = argument(args)?;
                calculator.clamp(min, max)
            }
            _ => {
                let () = argument(args)?;
                calculator.ans()
            }
        };
        Ok(result.into_value())
    }

    fn meta_post(&self, name_or_id: ActionNameOrId, args: Value) {
        let _res = self.meta_call(name_or_id, args);
    }

    fn meta_event(&self, _name_or_id: ActionNameOrId, _value: Value) {
        // no signal
    }

    fn uid(&self) -> Uid {
        Uid::zero()
    }
}

fn named(name: &str) -> ActionNameOrId {
    ActionNameOrId::Name(name.to_owned())
}

#[test]
fn test_calculator_object_call_methods() {
    let calc = CalculatorObject::new(42);
    let res: i32 = calc.call(named("add"), 100).unwrap();
    assert_eq!(res, 142);
    let res: i32 = calc.call(named("add"), 50).unwrap();
    assert_eq!(res, 192);
    let res: i32 = calc.call(named("sub"), 12).unwrap();
    assert_eq!(res, 180);
    let res: i32 = calc.call(named("div"), 90).unwrap();
    assert_eq!(res, 2);
    let res: i32 = calc.call(named("mul"), 64).unwrap();
    assert_eq!(res, 128);
    let res: i32 = calc.call(named("clamp"), (32, 127)).unwrap();
    assert_eq!(res, 127);
    let res: Result<i32, Error> = calc.call(named("div"), 0);
    match res {
        Err(Error::Other(BoxError::Io(err))) => {
            assert_eq!(err.shown, "division by zero");
            assert!(err.source.downcast::<DivisionByZeroError>().is_ok());
        }
        other => panic!("not the expected error: {:?}", other),
    }
    let res: Result<i32, Error> = calc.call(named("log"), 1);
    match res {
        Err(Error::MethodNotFound(name_or_id)) => assert_eq!(name_or_id, named("log")),
        other => panic!("not the expected error: {:?}", other),
    }
    let res: i32 = calc.call(named("ans"), ()).unwrap();
    assert_eq!(res, 127);
}

#[test]
fn result_of_another_kind_is_refused() {
    let calc = CalculatorObject::new(42);
    let res: Result<bool, Error> = calc.call(named("ans"), ());
    assert_eq!(
        res,
        Err(Error::Other(BoxError::ValueConversion(ValueConversionError::MethodReturnValue(
            FromValueError::TypeMismatch {
                expected: Expected::Kind(Kind::Bool),
                actual: ValueType::Int32
            }
        ))))
    );
    let res: Result<i32, Error> = calc.call(named("add"), true);
    assert_eq!(
        res,
        Err(Error::Other(BoxError::ValueConversion(ValueConversionError::Arguments(
            FromValueError::TypeMismatch {
                expected: Expected::Kind(Kind::Int32),
                actual: ValueType::Bool
            }
        ))))
    );
}

struct Recorder {
    meta: MetaObject,
    calls: Mutex<Vec<(ActionNameOrId, Value)>>,
}

impl Object for Recorder {
    fn meta(&self) -> &MetaObject {
        &self.meta
    }

    fn meta_call(&self, name_or_id: ActionNameOrId, args: Value) -> Result<Value, Error> {
        self.calls.lock().unwrap().push((name_or_id, args));
        Ok(Value::Unit)
    }

    fn meta_post(&self, _name_or_id: ActionNameOrId, _value: Value) {}

    fn meta_event(&self, _name_or_id: ActionNameOrId, _value: Value) {}

    fn uid(&self) -> Uid {
        Uid::from_bytes([7; 20])
    }
}

fn recorder() -> Recorder {
    let mut meta = MetaObject::new();
    for (i, name) in ["speed", "volume"].iter().enumerate() {
        meta.properties.push(MetaProperty {
            uid: ActionId(i as u32),
            name: name.to_string(),
            signature: Signature(None),
        });
    }
    Recorder { meta, calls: Mutex::new(Vec::new()) }
}

#[test]
fn properties_are_got_and_set_by_calls() {
    let object = recorder();
    let () = object.property(named("speed")).unwrap();
    let () = object.set_property(ActionNameOrId::Id(ActionId(1)), 12u32).unwrap();
    let calls = object.calls.lock().unwrap();
    assert_eq!(
        calls[0],
        (
            ActionNameOrId::Id(ActionId(5)),
            Value::Dynamic(Box::new(Value::String(b"speed".to_vec())))
        )
    );
    assert_eq!(
        calls[1],
        (
            ActionNameOrId::Id(ActionId(6)),
            Value::Tuple(vec![
                Value::Dynamic(Box::new(Value::UInt32(1))),
                Value::Dynamic(Box::new(Value::UInt32(12)))
            ])
        )
    );
}

#[test]
fn properties_are_told_by_name() {
    assert_eq!(recorder().properties(), vec!["speed".to_owned(), "volume".to_owned()]);
}

fn client() -> ObjectClient<&'static str> {
    let mut meta = CalculatorObject::new(0).meta;
    meta.signals.push(MetaSignal {
        uid: ActionId(12),
        name: "changed".to_owned(),
        signature: Signature(Some(Type::Int32)),
    });
    ObjectClient::new(service::Id(4), Id(1), Uid::from_bytes([3; 20]), meta, "session")
}

#[test]
fn client_calls_are_addressed() {
    let client = client();
    let (address, return_type) = client.meta_call(named("mul")).unwrap();
    assert_eq!(address, message::Address(service::Id(4), Id(1), ActionId(2)));
    assert_eq!(return_type, Some(&Type::Int32));
    assert_eq!(
        client.meta_call(ActionNameOrId::Id(ActionId(40))),
        Err(Error::MethodNotFound(ActionNameOrId::Id(ActionId(40))))
    );
    assert_eq!(client.uid(), Uid::from_bytes([3; 20]));
    assert_eq!(client.meta().methods.len(), 6);
}

#[test]
fn client_posts_are_addressed() {
    let client = client();
    let address = |action| Some(message::Address(service::Id(4), Id(1), ActionId(action)));
    assert_eq!(client.meta_post(&named("ans")), address(5));
    assert_eq!(client.meta_post(&named("changed")), address(12));
    assert_eq!(client.meta_post(&named("log")), None);
    assert_eq!(client.meta_event(&named("changed")), address(12));
    assert_eq!(client.meta_event(&named("ans")), None);
}

#[test]
fn posts_are_for_methods_first() {
    let mut meta = client().meta;
    meta.signals.push(MetaSignal {
        uid: ActionId(13),
        name: "add".to_owned(),
        signature: Signature(None),
    });
    match PostAction::get(&meta, &named("add")) {
        Some(PostAction::Method(method)) => assert_eq!(method.uid, ActionId(0)),
        other => panic!("not a method: {:?}", other),
    }
    let action = PostAction::get(&meta, &named("changed")).unwrap();
    assert_eq!(action.action_id(), ActionId(12));
    assert_eq!(action.parameters_signature().as_type(), Some(&Type::Int32));
}

#[test]
fn client_is_connected_by_what_its_object_tells() {
    let (address, args) = ObjectClient::<()>::meta_object_request(service::Id(4), Id(1));
    assert_eq!(address, message::Address(service::Id(4), Id(1), ActionId(2)));
    assert_eq!(args, Value::Int32(0));
    let connect = |fetched| {
        ObjectClient::connect(service::Id(4), Id(1), Uid::zero(), (), fetched)
            .map(|client| client.meta.methods.len())
    };
    assert_eq!(connect(Ok(Ok(client().meta))), Ok(6));
    assert_eq!(connect(Err(Error::CallCanceled)), Err(Error::CallCanceled));
    assert_eq!(
        connect(Ok(Err(FromValueError::NotText))),
        Err(Error::Other(BoxError::ValueConversion(ValueConversionError::MethodReturnValue(
            FromValueError::NotText
        ))))
    );
}

#[test]
fn detached_connections_give_their_link() {
    let signal = SignalClient::new(client(), ActionId(12));
    assert_eq!(signal.id, ActionId(12));
    let connection = SignalClientConnection { object: signal.object, link: Some(Link(3)) };
    assert_eq!(connection.detach(), Some(Link(3)));
}

#[test]
fn methods_are_found_by_name_and_by_id() {
    let meta = client().meta;
    for name in ["add", "sub", "mul", "div", "clamp", "ans"] {
        let by_name = meta.method(&named(name)).unwrap();
        let by_id = meta.method(&ActionNameOrId::Id(by_name.uid)).unwrap();
        assert_eq!(by_id.name, name);
    }
    assert!(meta.method(&named("changed")).is_none());
    assert_eq!(meta.signal(&named("changed")).unwrap().uid, ActionId(12));
}

#[test]
fn action_ids_follow_each_other() {
    let mut id = ActionId(u32::MAX - 1);
    assert_eq!(id.next(), Some(ActionId(u32::MAX - 1)));
    assert_eq!(id.next(), None);
    assert_eq!(id.wrapping_next(), ActionId(u32::MAX));
    assert_eq!(id.wrapping_next(), ActionId(0));
}

#[test]
fn object_uids_have_twenty_bytes() {
    assert_eq!(Uid::from_slice(&[1; 20]), Some(Uid::from_bytes([1; 20])));
    assert_eq!(Uid::from_slice(&[1; 19]), None);
    assert_eq!(Uid::zero().bytes(), &[0; 20][..]);
}

struct Plain {
    meta: MetaObject,
}

impl Object for Plain {
    fn meta(&self) -> &MetaObject {
        &self.meta
    }

    fn meta_call(&self, name_or_id: ActionNameOrId, _args: Value) -> Result<Value, Error> {
        Err(Error::MethodNotFound(name_or_id))
    }

    fn meta_post(&self, _name_or_id: ActionNameOrId, _value: Value) {}

    fn meta_event(&self, _name_or_id: ActionNameOrId, _value: Value) {}
}

#[test]
fn objects_are_identified_by_their_addresses() {
    let objects = [Plain { meta: MetaObject::new() }, Plain { meta: MetaObject::new() }];
    assert_eq!(objects[0].uid(), objects[0].uid());
    assert_eq!(objects[0].uid(), Uid::from_ptr(&objects[0]));
    assert_ne!(objects[0].uid(), objects[1].uid());
    let mut bytes = [0; 20];
    bytes[..4].copy_from_slice(&[4, 3, 2, 1]);
    assert_eq!(Uid::from_address(0x0102_0304), Uid::from_bytes(bytes));
}

#[test]
fn properties_are_asked_for_by_name() {
    let (action, args) = property_request(named("p"));
    assert_eq!(action, ActionNameOrId::Id(ActionId(5)));
    assert_eq!(args, Value::Dynamic(Box::new("p".into_value())));
    let (action, args) = set_property_request(named("p"), 3);
    assert_eq!(action, ActionNameOrId::Id(ActionId(6)));
    assert_eq!(
        args,
        Value::Tuple(vec![
            Value::Dynamic(Box::new("p".into_value())),
            Value::Dynamic(Box::new(Value::Int32(3)))
        ])
    );
}
