use bytes::Bytes;
use qi::error::{BoxError, Error, FormatError, HandlerError, ValueConversionError};
use qi::handler::answer_joined_call;
use qi::messaging::CallError;
use qi::name_map::NameMap;
use qi::server::Poll;
use qi::signal::{poll_next, Link};
use qi::formats::{
    args_of, format_args_of, format_return_value_of, reflect_args_of, reflect_return_value_of,
    reflect_value_of, return_value_error, return_value_of, FormatInto, IntoFormat, Reflect, ReflectError,
};
use qi::value::{
    Entry, EntryType, Expected, FromValue, FromValueError, IntoValue, Kind, Type, Value, ValueType,
};
use qi::wire::{self, read_number, read_string, read_string_list, write_number, write_string,
    write_string_list};

#[test]
fn numbers_are_little_endian() {
    let mut buffer = vec![9];
    write_number(&mut buffer, 0x0102_0304);
    assert_eq!(buffer, vec![9, 4, 3, 2, 1]);
    assert_eq!(read_number(&buffer, 1), Ok((0x0102_0304, 5)));
    assert_eq!(read_number(&buffer, 2), Err(wire::Error::UnexpectedEnd));
}

#[test]
fn strings_stand_behind_their_length() {
    let mut buffer = vec![];
    write_string(&mut buffer, b"abc").unwrap();
    assert_eq!(buffer, vec![3, 0, 0, 0, b'a', b'b', b'c']);
    assert_eq!(read_string(&buffer, 0), Ok((b"abc".to_vec(), 7)));
    assert_eq!(read_string(&buffer[..6], 0), Err(wire::Error::UnexpectedEnd));
}

#[test]
fn lists_of_strings_stand_behind_their_number() {
    let list = vec![b"a".to_vec(), b"".to_vec()];
    let mut buffer = vec![];
    write_string_list(&mut buffer, &list).unwrap();
    assert_eq!(buffer, vec![2, 0, 0, 0, 1, 0, 0, 0, b'a', 0, 0, 0, 0]);
    assert_eq!(read_string_list(&buffer, 0), Ok((list, 13)));
    assert_eq!(read_string_list(&buffer[..12], 0), Err(wire::Error::UnexpectedEnd));
}

#[test]
fn values_are_converted_and_back() {
    assert_eq!(u32::from_value(12u32.into_value()), Ok(12));
    assert_eq!(i32::from_value((-12i32).into_value()), Ok(-12));
    assert_eq!(bool::from_value(true.into_value()), Ok(true));
    assert_eq!(<()>::from_value(().into_value()), Ok(()));
    assert_eq!(String::from_value("qi".into_value()), Ok("qi".to_owned()));
    assert_eq!(String::from_value("qi".to_owned().into_value()), Ok("qi".to_owned()));
    assert_eq!(<(i32, String)>::from_value((1, "a").into_value()), Ok((1, "a".to_owned())));
}

#[test]
fn values_of_another_kind_are_refused() {
    let mismatch = |expected, actual| FromValueError::TypeMismatch {
        expected: Expected::Kind(expected),
        actual,
    };
    assert_eq!(u32::from_value(Value::Int32(1)), Err(mismatch(Kind::UInt32, ValueType::Int32)));
    assert_eq!(bool::from_value(Value::Unit), Err(mismatch(Kind::Bool, ValueType::Unit)));
    assert_eq!(<()>::from_value(Value::Bool(true)), Err(mismatch(Kind::Unit, ValueType::Bool)));
    assert_eq!(
        String::from_value(Value::List(vec![Value::Unit, Value::Tuple(vec![Value::Int8(1)])])),
        Err(mismatch(
            Kind::String,
            ValueType::List(vec![ValueType::Unit, ValueType::Tuple(vec![ValueType::Int8])])
        ))
    );
    let entry = Entry { key: Value::Bool(true), value: Value::Float32(0) };
    assert_eq!(
        <()>::from_value(Value::Dict(vec![entry])),
        Err(mismatch(
            Kind::Unit,
            ValueType::Dict(vec![EntryType { key: ValueType::Bool, value: ValueType::Float32 }])
        ))
    );
    assert_eq!(String::from_value(Value::String(vec![0xff])), Err(FromValueError::NotText));
    assert_eq!(
        <(i32, i32)>::from_value(Value::Dynamic(Box::new(Value::Unit))),
        Err(mismatch(Kind::Tuple, ValueType::Dynamic(Box::new(ValueType::Unit))))
    );
    assert_eq!(
        <(i32, i32)>::from_value(Value::Tuple(vec![Value::Int32(1)])),
        Err(FromValueError::Length { wanted: 2, found: 1 })
    );
    assert_eq!(
        <(i32, i32)>::from_value(Value::Tuple(vec![Value::Int32(1), Value::UInt32(1)])),
        Err(mismatch(Kind::Int32, ValueType::UInt32))
    );
}

#[test]
fn read_values_are_converted() {
    let mismatch = || FromValueError::TypeMismatch {
        expected: Expected::Kind(Kind::UInt32),
        actual: ValueType::Unit,
    };
    let end = || wire::Error::UnexpectedEnd;
    assert_eq!(reflect_value_of::<u32>(Ok(Value::UInt32(3))), Ok(3));
    assert_eq!(reflect_value_of::<u32>(Err(end())), Err(ReflectError::Format(end())));
    assert_eq!(
        reflect_value_of::<u32>(Ok(Value::Unit)),
        Err(ReflectError::Conversion(mismatch()))
    );
    assert_eq!(reflect_return_value_of::<u32>(Ok(Value::UInt32(3))), Ok(3));
    assert_eq!(
        reflect_return_value_of::<u32>(Err(end())),
        Err(Error::from(FormatError::MethodReturnValueDeserialization(end())))
    );
    assert_eq!(
        reflect_return_value_of::<u32>(Ok(Value::Unit)),
        Err(Error::from(ValueConversionError::MethodReturnValue(mismatch())))
    );
    assert_eq!(reflect_args_of::<u32>(Ok(Value::UInt32(3))), Ok(3));
    assert_eq!(
        reflect_args_of::<u32>(Err(end())),
        Err(Error::from(FormatError::ArgumentsDeserialization(end())))
    );
    assert_eq!(
        reflect_args_of::<u32>(Ok(Value::Unit)),
        Err(Error::from(ValueConversionError::Arguments(mismatch())))
    );
}

#[test]
fn unreadable_return_values_are_errors() {
    assert_eq!(
        return_value_error(ReflectError::Format(wire::Error::UnexpectedEnd)),
        Error::from(FormatError::MethodReturnValueDeserialization(wire::Error::UnexpectedEnd))
    );
    assert_eq!(
        return_value_error(ReflectError::Conversion(FromValueError::NotText)),
        Error::from(ValueConversionError::MethodReturnValue(FromValueError::NotText))
    );
}

#[test]
fn faults_of_the_format_are_told_apart() {
    let end = || wire::Error::UnexpectedEnd;
    let text = |err: Error| err.to_text();
    assert_eq!(return_value_of(Ok(Value::Unit)), Ok(Value::Unit));
    assert_eq!(
        text(return_value_of::<Value>(Err(end())).unwrap_err()),
        "the deserialization of the method return value has failed"
    );
    assert_eq!(args_of(Ok(Value::Unit)), Ok(Value::Unit));
    assert_eq!(
        text(args_of::<Value>(Err(end())).unwrap_err()),
        "the deserialization of the request arguments has failed"
    );
    assert_eq!(format_args_of(Ok(Bytes::new())), Ok(Bytes::new()));
    assert_eq!(
        text(format_args_of(Err(end())).unwrap_err()),
        "the serialization of the request arguments has failed"
    );
    assert_eq!(format_return_value_of(Ok(Bytes::new())), Ok(Bytes::new()));
    assert_eq!(
        text(format_return_value_of(Err(end())).unwrap_err()),
        "the serialization of the method return value has failed"
    );
    assert_eq!(
        ValueConversionError::Arguments(FromValueError::NotText).to_text(),
        "the conversion of the request arguments has failed"
    );
    assert_eq!(
        ValueConversionError::MethodReturnValue(FromValueError::NotText).to_text(),
        "the conversion of the object method return value has failed"
    );
}

/// A payload that holds one number.
struct Number(Vec<u8>);

impl FormatInto for Number {
    fn to_value(&self, ty: Option<&Type>) -> Result<Value, wire::Error> {
        match ty {
            Some(Type::UInt32) => read_number(&self.0, 0).map(|(n, _)| Value::UInt32(n)),
            _ => Err(wire::Error::Other("not a number".to_owned())),
        }
    }
}

impl IntoFormat for Number {
    fn into_format(self) -> Result<Bytes, wire::Error> {
        Ok(Bytes::from(self.0))
    }
}

#[test]
fn payloads_are_read_by_type() {
    let number = || Number(vec![5, 0, 0, 0]);
    assert_eq!(number().to_reflect_value::<u32>(), Ok(5));
    assert_eq!(number().to_reflect_args::<u32>(), Ok(5));
    assert_eq!(number().into_reflect_return_value::<u32>(), Ok(5));
    assert_eq!(number().to_args(Some(&Type::UInt32)), Ok(Value::UInt32(5)));
    assert_eq!(number().into_return_value(Some(&Type::UInt32)), Ok(Value::UInt32(5)));
    let other = || wire::Error::Other("not a number".to_owned());
    assert_eq!(number().to_reflect_value::<bool>(), Err(ReflectError::Format(other())));
    assert_eq!(
        number().to_args(None),
        Err(Error::from(FormatError::ArgumentsDeserialization(other())))
    );
    assert_eq!(
        Number(vec![5]).into_reflect_return_value::<u32>(),
        Err(Error::from(FormatError::MethodReturnValueDeserialization(
            wire::Error::UnexpectedEnd
        )))
    );
    assert_eq!(number().into_format_args(), Ok(Bytes::from_static(&[5, 0, 0, 0])));
    assert_eq!(number().into_format_return_value(), Ok(Bytes::from_static(&[5, 0, 0, 0])));
    assert_eq!(<Value as Reflect>::ty(), None);
    assert_eq!(<String as Reflect>::ty(), Some(Type::String));
}

#[test]
fn integers_are_converted_back() {
    let mismatch = |expected: Kind, actual: ValueType| FromValueError::TypeMismatch {
        expected: Expected::Kind(expected),
        actual,
    };
    assert_eq!(i8::from_value((-8i8).into_value()), Ok(-8));
    assert_eq!(u8::from_value(200u8.into_value()), Ok(200));
    assert_eq!(i16::from_value((-300i16).into_value()), Ok(-300));
    assert_eq!(u16::from_value(60000u16.into_value()), Ok(60000));
    assert_eq!(i64::from_value(i64::MIN.into_value()), Ok(i64::MIN));
    assert_eq!(u64::from_value(u64::MAX.into_value()), Ok(u64::MAX));
    assert_eq!(u64::from_value(Value::UInt32(1)), Err(mismatch(Kind::UInt64, ValueType::UInt32)));
    assert_eq!(i8::from_value(Value::UInt8(1)), Err(mismatch(Kind::Int8, ValueType::UInt8)));
    assert_eq!(<u16 as Reflect>::ty(), Some(Type::UInt16));
    assert_eq!(Link(7).into_value(), Value::UInt64(7));
    assert_eq!(Link::from_value(Value::UInt64(7)), Ok(Link(7)));
    assert_eq!(<Link as Reflect>::ty(), Some(Type::UInt64));
}

#[test]
fn copies_of_values_are_equal() {
    let value = Value::Tuple(vec![
        Value::Dict(vec![Entry {
            key: Value::String(b"k".to_vec()),
            value: Value::Float64(0x3ff0_0000_0000_0000),
        }]),
        Value::Int64(-1),
        Value::List(vec![Value::String(b"a".to_vec()), Value::Unit]),
        Value::Dynamic(Box::new(Value::UInt32(3))),
    ]);
    assert_eq!(value.copy(), value);
}

#[test]
fn input_and_output_errors_are_kept() {
    let err = std::io::Error::new(std::io::ErrorKind::AddrInUse, "broken");
    let err = Error::from(err);
    assert_eq!(err.to_text(), "broken");
    match err {
        Error::Other(BoxError::Io(err)) => {
            assert_eq!(err.source.kind(), std::io::ErrorKind::AddrInUse);
        }
        other => panic!("not the expected error: {:?}", other),
    }
    let same = || Error::from(std::io::Error::new(std::io::ErrorKind::Other, "same"));
    assert_eq!(same(), same());
    assert_ne!(same(), Error::from(std::io::Error::new(std::io::ErrorKind::Other, "other")));
    assert_eq!(
        Error::from("oh".to_owned()),
        Error::Other(BoxError::Message("oh".to_owned()))
    );
}

#[test]
fn tasks_that_do_not_end_by_themselves_are_answered() {
    let runtime = tokio::runtime::Builder::new_current_thread().build().unwrap();
    let joined = runtime.block_on(async {
        let task = tokio::spawn(std::future::pending::<Result<Bytes, Error>>());
        task.abort();
        task.await
    });
    assert_eq!(answer_joined_call(joined), Err(HandlerError::CallCanceled));
    let joined = runtime.block_on(runtime.spawn(async { Ok(Bytes::from_static(b"done")) }));
    assert_eq!(answer_joined_call(joined), Ok(Bytes::from_static(b"done")));
    let failing = |fails: bool| {
        if fails {
            panic!("oh");
        }
        Ok(Bytes::new())
    };
    let joined = runtime.block_on(runtime.spawn(async move { failing(true) }));
    match answer_joined_call(joined) {
        Err(err) => {
            assert!(!err.is_canceled() && !err.is_fatal());
            assert!(err.to_text().contains("panic"));
        }
        Ok(_) => panic!("no error"),
    }
}

#[test]
fn failures_of_tasks_are_told_apart() {
    assert_eq!(
        HandlerError::from_join_failure(true, "oh".to_owned()),
        HandlerError::CallCanceled
    );
    assert_eq!(
        HandlerError::from_join_failure(false, "oh".to_owned()),
        HandlerError::Custom { message: "oh".to_owned(), is_fatal: false }
    );
}

#[test]
fn missed_values_of_signals_are_passed_over() {
    let poll = |polled: Poll<Option<Result<u32, &'static str>>>| poll_next(polled);
    assert_eq!(poll(Poll::Pending), (Poll::Pending, false));
    assert_eq!(poll(Poll::Ready(None)), (Poll::Ready(None), false));
    assert_eq!(poll(Poll::Ready(Some(Ok(3)))), (Poll::Ready(Some(3)), false));
    assert_eq!(poll(Poll::Ready(Some(Err("lagged")))), (Poll::Pending, true));
}

#[test]
fn names_have_one_value() {
    let mut map = NameMap::new();
    map.set("a".to_owned(), 1);
    map.set("b".to_owned(), 2);
    map.set("a".to_owned(), 3);
    assert_eq!(map.get("a"), Some(&3));
    let mut other = NameMap::new();
    other.set("b".to_owned(), 4);
    other.set("c".to_owned(), 5);
    map.extend(other);
    assert_eq!(map.remove("a"), Some(3));
    assert_eq!(map.remove("a"), None);
    let mut entries = map.into_entries();
    entries.sort();
    assert_eq!(entries, vec![("b".to_owned(), 4), ("c".to_owned(), 5)]);
}
