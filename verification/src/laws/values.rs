//! What values are, and how they are converted.

use vstd::prelude::*;
use vstd::utf8::{
    encode_utf8, encode_utf8_decode_utf8, encode_utf8_valid_utf8, valid_utf8,
};
use crate::error::{BoxError, Error, FormatError, ValueConversionError};
use crate::formats::{
    args_of, format_args_of, format_return_value_of, is_reflected, reflect_args_of,
    reflect_return_value_of, reflect_value_of, return_value_error, return_value_of, FormatInto,
    IntoFormat, Reflect, ReflectError,
};
use crate::meta::ActionNameOrId;
use crate::node;
use crate::object;
use crate::os::MachineId;
use crate::server::Poll;
use crate::service::{self, ObjectUidAsStr};
use crate::signal::{poll_next, Link};
use crate::value::{
    entry_views, field_views, mismatch, push_field, push_type, type_views, value_views, Dynamic,
    Entry, Expected, Field, FromValue, FromValueError, IntoValue, Kind, Signature, Type, Value,
    ValueType,
};
use crate::wire;

verus! {

/// Whether a type is the one that a value has, all the way down.
pub open spec fn has_type(value: Value, ty: ValueType) -> bool
    decreases value,
{
    match (value, ty) {
        (Value::Unit, ValueType::Unit) => true,
        (Value::Bool(_), ValueType::Bool) => true,
        (Value::Int8(_), ValueType::Int8) => true,
        (Value::UInt8(_), ValueType::UInt8) => true,
        (Value::Int16(_), ValueType::Int16) => true,
        (Value::UInt16(_), ValueType::UInt16) => true,
        (Value::Int32(_), ValueType::Int32) => true,
        (Value::UInt32(_), ValueType::UInt32) => true,
        (Value::Int64(_), ValueType::Int64) => true,
        (Value::UInt64(_), ValueType::UInt64) => true,
        (Value::Float32(_), ValueType::Float32) => true,
        (Value::Float64(_), ValueType::Float64) => true,
        (Value::String(_), ValueType::String) => true,
        (Value::List(elements), ValueType::List(types)) => types@.len() == elements@.len()
            && forall|i: int|
            0 <= i < elements@.len() ==> has_type(elements@[i], #[trigger] types@[i]),
        (Value::Dict(entries), ValueType::Dict(types)) => types@.len() == entries@.len()
            && forall|i: int|
            0 <= i < entries@.len() ==> has_type(entries@[i].key, (#[trigger] types@[i]).key)
                && has_type(entries@[i].value, types@[i].value),
        (Value::Tuple(elements), ValueType::Tuple(types)) => types@.len() == elements@.len()
            && forall|i: int|
            0 <= i < elements@.len() ==> has_type(elements@[i], #[trigger] types@[i]),
        (Value::Dynamic(inner), ValueType::Dynamic(own)) => has_type(*inner, *own),
        _ => false,
    }
}

/// The type of a value is one that it has.
proof fn type_fits(value: Value, ty: ValueType)
    requires
        ty.is_of(value),
    ensures
        has_type(value, ty),
    decreases value,
{
    match (value, ty) {
        (Value::List(elements), ValueType::List(types)) => {
            assert forall|i: int| 0 <= i < elements@.len() implies has_type(
                elements@[i],
                #[trigger] types@[i],
            ) by {
                type_fits(elements@[i], types@[i]);
            }
        },
        (Value::Dict(entries), ValueType::Dict(types)) => {
            assert forall|i: int| 0 <= i < entries@.len() implies has_type(
                entries@[i].key,
                (#[trigger] types@[i]).key,
            ) && has_type(entries@[i].value, types@[i].value) by {
                type_fits(entries@[i].key, types@[i].key);
                type_fits(entries@[i].value, types@[i].value);
            }
        },
        (Value::Tuple(elements), ValueType::Tuple(types)) => {
            assert forall|i: int| 0 <= i < elements@.len() implies has_type(
                elements@[i],
                #[trigger] types@[i],
            ) by {
                type_fits(elements@[i], types@[i]);
            }
        },
        (Value::Dynamic(inner), ValueType::Dynamic(own)) => {
            type_fits(*inner, *own);
        },
        _ => {},
    }
}

/// The type of a value tells what it is made of, all the way down.
pub proof fn type_of_a_value(value: &Value, ty: ValueType)
    requires
        call_ensures(Value::ty, (value,), ty),
    ensures
        has_type(*value, ty),
{
    type_fits(*value, ty);
}

/// Whether two values are alike, all the way down.
pub open spec fn alike(a: Value, b: Value) -> bool
    decreases a,
{
    match (a, b) {
        (Value::String(x), Value::String(y)) => x@ == y@,
        (Value::List(x), Value::List(y)) => x@.len() == y@.len() && forall|i: int|
            0 <= i < x@.len() ==> alike(#[trigger] x@[i], y@[i]),
        (Value::Dict(x), Value::Dict(y)) => x@.len() == y@.len() && forall|i: int|
            0 <= i < x@.len() ==> alike((#[trigger] x@[i]).key, y@[i].key) && alike(
                x@[i].value,
                y@[i].value,
            ),
        (Value::Tuple(x), Value::Tuple(y)) => x@.len() == y@.len() && forall|i: int|
            0 <= i < x@.len() ==> alike(#[trigger] x@[i], y@[i]),
        (Value::Dynamic(x), Value::Dynamic(y)) => alike(*x, *y),
        _ => a == b,
    }
}

/// What a list of values holds, in contracts, is what each of them is.
proof fn views_of_values(list: Seq<Value>)
    ensures
        value_views(list).len() == list.len(),
        forall|i: int| 0 <= i < list.len() ==> value_views(list)[i] == (#[trigger] list[i]).view(),
    decreases list.len(),
{
    if list.len() > 0 {
        let front = list.subrange(0, list.len() - 1);
        views_of_values(front);
        assert forall|i: int| 0 <= i < list.len() implies value_views(list)[i] == (
        #[trigger] list[i]).view() by {
            if i < front.len() {
                assert(front[i] == list[i]);
            }
        }
    }
}

/// What a list of entries holds, in contracts, is what each of them is.
proof fn views_of_entries(list: Seq<Entry>)
    ensures
        entry_views(list).len() == list.len(),
        forall|i: int|
            0 <= i < list.len() ==> entry_views(list)[i] == (
                (#[trigger] list[i]).key.view(),
                list[i].value.view(),
            ),
    decreases list.len(),
{
    if list.len() > 0 {
        let front = list.subrange(0, list.len() - 1);
        views_of_entries(front);
        assert forall|i: int| 0 <= i < list.len() implies entry_views(list)[i] == (
            (#[trigger] list[i]).key.view(),
            list[i].value.view(),
        ) by {
            if i < front.len() {
                assert(front[i] == list[i]);
            }
        }
    }
}

/// Values that are the same in contracts are alike.
proof fn same_views_are_alike(a: Value, b: Value)
    requires
        a.view() == b.view(),
    ensures
        alike(a, b),
    decreases a,
{
    match (a, b) {
        (Value::List(x), Value::List(y)) => {
            views_of_values(x@);
            views_of_values(y@);
            assert forall|i: int| 0 <= i < x@.len() implies alike(#[trigger] x@[i], y@[i]) by {
                assert(y@[i].view() == x@[i].view());
                same_views_are_alike(x@[i], y@[i]);
            }
        },
        (Value::Dict(x), Value::Dict(y)) => {
            views_of_entries(x@);
            views_of_entries(y@);
            assert forall|i: int| 0 <= i < x@.len() implies alike(
                (#[trigger] x@[i]).key,
                y@[i].key,
            ) && alike(x@[i].value, y@[i].value) by {
                assert(y@[i].key.view() == x@[i].key.view());
                assert(y@[i].value.view() == x@[i].value.view());
                same_views_are_alike(x@[i].key, y@[i].key);
                same_views_are_alike(x@[i].value, y@[i].value);
            }
        },
        (Value::Tuple(x), Value::Tuple(y)) => {
            views_of_values(x@);
            views_of_values(y@);
            assert forall|i: int| 0 <= i < x@.len() implies alike(#[trigger] x@[i], y@[i]) by {
                assert(y@[i].view() == x@[i].view());
                same_views_are_alike(x@[i], y@[i]);
            }
        },
        (Value::Dynamic(x), Value::Dynamic(y)) => {
            same_views_are_alike(*x, *y);
        },
        _ => {},
    }
}

/// A copy of a value is alike to it.
pub proof fn copies_are_alike(value: &Value, copy: Value)
    requires
        call_ensures(Value::copy, (value,), copy),
    ensures
        alike(*value, copy),
{
    same_views_are_alike(*value, copy);
}

/// The kind of a value is the variant that it is.
pub proof fn kind_of_a_value(value: &Value, kind: Kind)
    requires
        call_ensures(Value::kind, (value,), kind),
    ensures
        match value {
            Value::Unit => kind is Unit,
            Value::Bool(_) => kind is Bool,
            Value::Int8(_) => kind is Int8,
            Value::UInt8(_) => kind is UInt8,
            Value::Int16(_) => kind is Int16,
            Value::UInt16(_) => kind is UInt16,
            Value::Int32(_) => kind is Int32,
            Value::UInt32(_) => kind is UInt32,
            Value::Int64(_) => kind is Int64,
            Value::UInt64(_) => kind is UInt64,
            Value::Float32(_) => kind is Float32,
            Value::Float64(_) => kind is Float64,
            Value::String(_) => kind is String,
            Value::List(_) => kind is List,
            Value::Dict(_) => kind is Dict,
            Value::Tuple(_) => kind is Tuple,
            Value::Dynamic(_) => kind is Dynamic,
        },
{
}

/// A signature stands for the type that it holds.
pub proof fn type_of_a_signature(signature: &Signature, ty: Option<&Type>)
    requires
        call_ensures(Signature::as_type, (signature,), ty),
    ensures
        signature.0 is Some <==> ty is Some,
        ty is Some ==> signature.0 == Some(*ty->Some_0),
{
}

/// Whether an error says that a value is of another type than was expected.
pub open spec fn refused<T>(
    result: Result<T, FromValueError>,
    expected: Expected,
    value: Value,
) -> bool {
    result matches Err(FromValueError::TypeMismatch { expected: wanted, actual }) && wanted
        == expected && has_type(value, actual)
}

/// A mismatch in contracts is a refusal.
pub(crate) proof fn mismatch_is_refused<T>(
    result: Result<T, FromValueError>,
    expected: Expected,
    value: Value,
)
    ensures
        crate::value::mismatched(result, expected, value) ==> refused(result, expected, value),
{
    if let Err(FromValueError::TypeMismatch { actual, .. }) = result {
        if actual.is_of(value) {
            type_fits(value, actual);
        }
    }
}

/// An error that a value is of another type says what was expected, and what the value is.
pub proof fn mismatches_tell_both_types(expected: Expected, value: &Value, err: FromValueError)
    requires
        call_ensures(mismatch, (expected, value), err),
    ensures
        refused(Err::<(), FromValueError>(err), expected, *value),
{
    mismatch_is_refused(Err::<(), FromValueError>(err), expected, *value);
}

/// A truth value is the value of its own kind, and comes back from it; any other value is refused.
pub proof fn truth_comes_back(
    given: bool,
    converted: Value,
    value: Value,
    result: Result<bool, FromValueError>,
    ty: Option<Type>,
)
    requires
        call_ensures(<bool as IntoValue>::into_value, (given,), converted),
        call_ensures(<bool as FromValue>::from_value, (value,), result),
        call_ensures(<bool as Reflect>::ty, (), ty),
    ensures
        converted == Value::Bool(given),
        value matches Value::Bool(held) ==> result == Ok::<bool, FromValueError>(held),
        !(value is Bool) ==> refused(result, Expected::Kind(Kind::Bool), value),
        ty is Some && ty->Some_0 is Bool,
{
    mismatch_is_refused(result, Expected::Kind(Kind::Bool), value);
}

/// A signed number of eight bits is the value of its own kind, and comes back from it; any other value is refused.
pub proof fn i8_comes_back(
    given: i8,
    converted: Value,
    value: Value,
    result: Result<i8, FromValueError>,
    ty: Option<Type>,
)
    requires
        call_ensures(<i8 as IntoValue>::into_value, (given,), converted),
        call_ensures(<i8 as FromValue>::from_value, (value,), result),
        call_ensures(<i8 as Reflect>::ty, (), ty),
    ensures
        converted == Value::Int8(given),
        value matches Value::Int8(held) ==> result == Ok::<i8, FromValueError>(held),
        !(value is Int8) ==> refused(result, Expected::Kind(Kind::Int8), value),
        ty is Some && ty->Some_0 is Int8,
{
    mismatch_is_refused(result, Expected::Kind(Kind::Int8), value);
}

/// A number of eight bits is the value of its own kind, and comes back from it; any other value is refused.
pub proof fn u8_comes_back(
    given: u8,
    converted: Value,
    value: Value,
    result: Result<u8, FromValueError>,
    ty: Option<Type>,
)
    requires
        call_ensures(<u8 as IntoValue>::into_value, (given,), converted),
        call_ensures(<u8 as FromValue>::from_value, (value,), result),
        call_ensures(<u8 as Reflect>::ty, (), ty),
    ensures
        converted == Value::UInt8(given),
        value matches Value::UInt8(held) ==> result == Ok::<u8, FromValueError>(held),
        !(value is UInt8) ==> refused(result, Expected::Kind(Kind::UInt8), value),
        ty is Some && ty->Some_0 is UInt8,
{
    mismatch_is_refused(result, Expected::Kind(Kind::UInt8), value);
}

/// A signed number of sixteen bits is the value of its own kind, and comes back from it; any other value is refused.
pub proof fn i16_comes_back(
    given: i16,
    converted: Value,
    value: Value,
    result: Result<i16, FromValueError>,
    ty: Option<Type>,
)
    requires
        call_ensures(<i16 as IntoValue>::into_value, (given,), converted),
        call_ensures(<i16 as FromValue>::from_value, (value,), result),
        call_ensures(<i16 as Reflect>::ty, (), ty),
    ensures
        converted == Value::Int16(given),
        value matches Value::Int16(held) ==> result == Ok::<i16, FromValueError>(held),
        !(value is Int16) ==> refused(result, Expected::Kind(Kind::Int16), value),
        ty is Some && ty->Some_0 is Int16,
{
    mismatch_is_refused(result, Expected::Kind(Kind::Int16), value);
}

/// A number of sixteen bits is the value of its own kind, and comes back from it; any other value is refused.
pub proof fn u16_comes_back(
    given: u16,
    converted: Value,
    value: Value,
    result: Result<u16, FromValueError>,
    ty: Option<Type>,
)
    requires
        call_ensures(<u16 as IntoValue>::into_value, (given,), converted),
        call_ensures(<u16 as FromValue>::from_value, (value,), result),
        call_ensures(<u16 as Reflect>::ty, (), ty),
    ensures
        converted == Value::UInt16(given),
        value matches Value::UInt16(held) ==> result == Ok::<u16, FromValueError>(held),
        !(value is UInt16) ==> refused(result, Expected::Kind(Kind::UInt16), value),
        ty is Some && ty->Some_0 is UInt16,
{
    mismatch_is_refused(result, Expected::Kind(Kind::UInt16), value);
}

/// A signed number of thirty-two bits is the value of its own kind, and comes back from it; any other value is refused.
pub proof fn i32_comes_back(
    given: i32,
    converted: Value,
    value: Value,
    result: Result<i32, FromValueError>,
    ty: Option<Type>,
)
    requires
        call_ensures(<i32 as IntoValue>::into_value, (given,), converted),
        call_ensures(<i32 as FromValue>::from_value, (value,), result),
        call_ensures(<i32 as Reflect>::ty, (), ty),
    ensures
        converted == Value::Int32(given),
        value matches Value::Int32(held) ==> result == Ok::<i32, FromValueError>(held),
        !(value is Int32) ==> refused(result, Expected::Kind(Kind::Int32), value),
        ty is Some && ty->Some_0 is Int32,
{
    mismatch_is_refused(result, Expected::Kind(Kind::Int32), value);
}

/// A number of thirty-two bits is the value of its own kind, and comes back from it; any other value is refused.
pub proof fn u32_comes_back(
    given: u32,
    converted: Value,
    value: Value,
    result: Result<u32, FromValueError>,
    ty: Option<Type>,
)
    requires
        call_ensures(<u32 as IntoValue>::into_value, (given,), converted),
        call_ensures(<u32 as FromValue>::from_value, (value,), result),
        call_ensures(<u32 as Reflect>::ty, (), ty),
    ensures
        converted == Value::UInt32(given),
        value matches Value::UInt32(held) ==> result == Ok::<u32, FromValueError>(held),
        !(value is UInt32) ==> refused(result, Expected::Kind(Kind::UInt32), value),
        ty is Some && ty->Some_0 is UInt32,
{
    mismatch_is_refused(result, Expected::Kind(Kind::UInt32), value);
}

/// A signed number of sixty-four bits is the value of its own kind, and comes back from it; any other value is refused.
pub proof fn i64_comes_back(
    given: i64,
    converted: Value,
    value: Value,
    result: Result<i64, FromValueError>,
    ty: Option<Type>,
)
    requires
        call_ensures(<i64 as IntoValue>::into_value, (given,), converted),
        call_ensures(<i64 as FromValue>::from_value, (value,), result),
        call_ensures(<i64 as Reflect>::ty, (), ty),
    ensures
        converted == Value::Int64(given),
        value matches Value::Int64(held) ==> result == Ok::<i64, FromValueError>(held),
        !(value is Int64) ==> refused(result, Expected::Kind(Kind::Int64), value),
        ty is Some && ty->Some_0 is Int64,
{
    mismatch_is_refused(result, Expected::Kind(Kind::Int64), value);
}

/// A number of sixty-four bits is the value of its own kind, and comes back from it; any other value is refused.
pub proof fn u64_comes_back(
    given: u64,
    converted: Value,
    value: Value,
    result: Result<u64, FromValueError>,
    ty: Option<Type>,
)
    requires
        call_ensures(<u64 as IntoValue>::into_value, (given,), converted),
        call_ensures(<u64 as FromValue>::from_value, (value,), result),
        call_ensures(<u64 as Reflect>::ty, (), ty),
    ensures
        converted == Value::UInt64(given),
        value matches Value::UInt64(held) ==> result == Ok::<u64, FromValueError>(held),
        !(value is UInt64) ==> refused(result, Expected::Kind(Kind::UInt64), value),
        ty is Some && ty->Some_0 is UInt64,
{
    mismatch_is_refused(result, Expected::Kind(Kind::UInt64), value);
}

/// Nothing is the value without contents, and comes back from it; any other value is refused.
pub proof fn nothing_comes_back(
    converted: Value,
    value: Value,
    result: Result<(), FromValueError>,
    ty: Option<Type>,
)
    requires
        call_ensures(<() as IntoValue>::into_value, ((),), converted),
        call_ensures(<() as FromValue>::from_value, (value,), result),
        call_ensures(<() as Reflect>::ty, (), ty),
    ensures
        converted is Unit,
        value is Unit ==> result is Ok,
        !(value is Unit) ==> refused(result, Expected::Kind(Kind::Unit), value),
        ty is Some && ty->Some_0 is Unit,
{
    mismatch_is_refused(result, Expected::Kind(Kind::Unit), value);
}

/// Whether a value is a string of the bytes of a text.
pub open spec fn is_text(value: Value, text: Seq<char>) -> bool {
    value matches Value::String(raw) && raw@ == encode_utf8(text)
}

/// A text is the string of its bytes, and comes back from it; bytes that are no text, and any other
/// value, are refused.
pub proof fn text_comes_back(
    given: String,
    converted: Value,
    value: Value,
    result: Result<String, FromValueError>,
    text: &str,
    of_text: Value,
    ty: Option<Type>,
)
    requires
        call_ensures(<String as IntoValue>::into_value, (given,), converted),
        call_ensures(<String as FromValue>::from_value, (value,), result),
        call_ensures(<&str as IntoValue>::into_value, (text,), of_text),
        call_ensures(<String as Reflect>::ty, (), ty),
    ensures
        is_text(converted, given@),
        is_text(of_text, text@),
        forall|words: Seq<char>| #[trigger]
            is_text(value, words) ==> result is Ok && result->Ok_0@ == words,
        value matches Value::String(raw) ==> (result is Ok <==> valid_utf8(raw@)),
        value is String && result is Err ==> result->Err_0 is NotText,
        !(value is String) ==> refused(result, Expected::Kind(Kind::String), value),
        ty is Some && ty->Some_0 is String,
{
    broadcast use {encode_utf8_valid_utf8, encode_utf8_decode_utf8};

    mismatch_is_refused(result, Expected::Kind(Kind::String), value);
}

/// A value is converted to itself, and carries its type.
pub proof fn values_are_converted_to_themselves(given: Value, converted: Value, ty: Option<Type>)
    requires
        call_ensures(<Value as IntoValue>::into_value, (given,), converted),
        call_ensures(<Value as Reflect>::ty, (), ty),
    ensures
        converted == given,
        ty is None,
{
}

/// A pair is the tuple of what its parts are converted to, in their order, and comes back from it.
pub proof fn pairs_come_back(
    given: (u32, String),
    converted: Value,
    value: Value,
    result: Result<(u32, String), FromValueError>,
)
    requires
        call_ensures(<(u32, String) as IntoValue>::into_value, (given,), converted),
        call_ensures(<(u32, String) as FromValue>::from_value, (value,), result),
    ensures
        converted matches Value::Tuple(elements) && elements@.len() == 2 && elements@[0]
            == Value::UInt32(given.0) && is_text(elements@[1], given.1@),
        value matches Value::Tuple(elements) ==> forall|words: Seq<char>|
            elements@.len() == 2 && elements@[0] is UInt32 && #[trigger] is_text(
                elements@[1],
                words,
            ) ==> result is Ok && Value::UInt32(result->Ok_0.0) == elements@[0]
                && result->Ok_0.1@ == words,
        value matches Value::Tuple(elements) ==> (elements@.len() != 2 ==> result == Err::<
            (u32, String),
            FromValueError,
        >(FromValueError::Length { wanted: 2, found: elements@.len() as usize })),
        value matches Value::Tuple(elements) ==> (elements@.len() == 2 && !(elements@[0] is UInt32)
            ==> refused(result, Expected::Kind(Kind::UInt32), elements@[0])),
        value matches Value::Tuple(elements) ==> (elements@.len() == 2 && elements@[0] is UInt32
            && !(elements@[1] is String) ==> refused(
            result,
            Expected::Kind(Kind::String),
            elements@[1],
        )),
        !(value is Tuple) ==> refused(result, Expected::Kind(Kind::Tuple), value),
{
    broadcast use {encode_utf8_valid_utf8, encode_utf8_decode_utf8};

    mismatch_is_refused(result, Expected::Kind(Kind::Tuple), value);
    if let Value::Tuple(elements) = value {
        mismatch_is_refused(result, Expected::Kind(Kind::UInt32), elements@[0]);
        mismatch_is_refused(result, Expected::Kind(Kind::String), elements@[1]);
    }
}

/// A value that carries its type is what it is converted to, with its type.
pub proof fn dynamic_values_carry_what_they_hold(given: Dynamic<u32>, converted: Value)
    requires
        call_ensures(<Dynamic<u32> as IntoValue>::into_value, (given,), converted),
    ensures
        converted matches Value::Dynamic(inner) && *inner == Value::UInt32(given.0),
{
}

/// What names an action is its number or its text.
pub proof fn actions_are_numbers_or_texts(given: ActionNameOrId, converted: Value)
    requires
        call_ensures(<ActionNameOrId as IntoValue>::into_value, (given,), converted),
    ensures
        match given {
            ActionNameOrId::Id(id) => converted == Value::UInt32(id.0),
            ActionNameOrId::Name(name) => is_text(converted, name@),
        },
{
}

/// The identifier of a service is a number, and comes back from it; any other value is refused.
pub proof fn service_id_comes_back(
    given: service::Id,
    converted: Value,
    value: Value,
    result: Result<service::Id, FromValueError>,
    ty: Option<Type>,
)
    requires
        call_ensures(<service::Id as IntoValue>::into_value, (given,), converted),
        call_ensures(<service::Id as FromValue>::from_value, (value,), result),
        call_ensures(<service::Id as Reflect>::ty, (), ty),
    ensures
        converted == Value::UInt32(given.0),
        value matches Value::UInt32(held) ==> result is Ok && result->Ok_0.0 == held,
        !(value is UInt32) ==> refused(result, Expected::Kind(Kind::UInt32), value),
        ty is Some && ty->Some_0 is UInt32,
{
    mismatch_is_refused(result, Expected::Kind(Kind::UInt32), value);
}

/// The identifier of a connection to a signal is a long number, and comes back from it; any other
/// value is refused.
pub proof fn link_comes_back(
    given: Link,
    converted: Value,
    value: Value,
    result: Result<Link, FromValueError>,
    ty: Option<Type>,
)
    requires
        call_ensures(<Link as IntoValue>::into_value, (given,), converted),
        call_ensures(<Link as FromValue>::from_value, (value,), result),
        call_ensures(<Link as Reflect>::ty, (), ty),
    ensures
        converted == Value::UInt64(given.0),
        value matches Value::UInt64(held) ==> result is Ok && result->Ok_0.0 == held,
        !(value is UInt64) ==> refused(result, Expected::Kind(Kind::UInt64), value),
        ty is Some && ty->Some_0 is UInt64,
{
    mismatch_is_refused(result, Expected::Kind(Kind::UInt64), value);
}

/// The identifier of a node is its text, and comes back from it; bytes that are no text, and any
/// other value, are refused.
pub proof fn node_uid_comes_back(
    given: node::Uid,
    converted: Value,
    value: Value,
    result: Result<node::Uid, FromValueError>,
    ty: Option<Type>,
)
    requires
        call_ensures(<node::Uid as IntoValue>::into_value, (given,), converted),
        call_ensures(<node::Uid as FromValue>::from_value, (value,), result),
        call_ensures(<node::Uid as Reflect>::ty, (), ty),
    ensures
        is_text(converted, given.0@),
        forall|words: Seq<char>| #[trigger]
            is_text(value, words) ==> result is Ok && result->Ok_0.0@ == words,
        value matches Value::String(raw) ==> (result is Ok <==> valid_utf8(raw@)),
        value is String && result is Err ==> result->Err_0 is NotText,
        !(value is String) ==> refused(result, Expected::Kind(Kind::String), value),
        ty is Some && ty->Some_0 is String,
{
    broadcast use {encode_utf8_valid_utf8, encode_utf8_decode_utf8};

    mismatch_is_refused(result, Expected::Kind(Kind::String), value);
}

/// The identifier of a machine is its text, and comes back from it; bytes that are no text, texts
/// that are no such identifier, and any other value, are refused.
pub proof fn machine_id_comes_back(
    given: MachineId,
    text: String,
    converted: Value,
    back: Result<MachineId, FromValueError>,
    value: Value,
    result: Result<MachineId, FromValueError>,
    ty: Option<Type>,
)
    requires
        call_ensures(MachineId::to_text, (&given,), text),
        call_ensures(<MachineId as IntoValue>::into_value, (given,), converted),
        call_ensures(<MachineId as FromValue>::from_value, (converted,), back),
        call_ensures(<MachineId as FromValue>::from_value, (value,), result),
        call_ensures(<MachineId as Reflect>::ty, (), ty),
    ensures
        is_text(converted, text@),
        back is Ok && back->Ok_0.0 == given.0,
        value matches Value::String(raw) ==> (!valid_utf8(raw@) ==> result is Err && result->Err_0
            is NotText),
        value matches Value::String(raw) ==> (valid_utf8(raw@) && result is Err ==> result->Err_0
            is NotAMachineId),
        !(value is String) ==> refused(result, Expected::Kind(Kind::String), value),
        ty is Some && ty->Some_0 is String,
{
    assert(given.valued(converted));
    mismatch_is_refused(result, Expected::Kind(Kind::String), value);
}

/// A machine is read out of its text as the same machine, and its text is thirty-six characters
/// long.
pub proof fn machine_is_read_out_of_its_text(
    given: &MachineId,
    text: String,
    words: &str,
    read: Option<MachineId>,
)
    requires
        call_ensures(MachineId::to_text, (given,), text),
        words@ == text@,
        call_ensures(MachineId::parse, (words,), read),
    ensures
        text@.len() == 36,
        read is Some,
        read->Some_0.0 == given.0,
{
    assert(words@ == given.text());
}

/// The unique identifier of an object is a string of its twenty bytes, and comes back from it; a
/// string of another length, and any other value, is refused.
pub proof fn object_uid_comes_back(
    given: ObjectUidAsStr,
    converted: Value,
    told: Value,
    value: Value,
    result: Result<ObjectUidAsStr, FromValueError>,
    raw: &[u8],
    of_raw: Result<ObjectUidAsStr, FromValueError>,
    ty: Option<Type>,
)
    requires
        call_ensures(<ObjectUidAsStr as IntoValue>::into_value, (given,), converted),
        call_ensures(ObjectUidAsStr::to_value, (&given,), told),
        call_ensures(<ObjectUidAsStr as FromValue>::from_value, (value,), result),
        call_ensures(ObjectUidAsStr::from_raw, (raw,), of_raw),
        call_ensures(<ObjectUidAsStr as Reflect>::ty, (), ty),
    ensures
        converted matches Value::String(bytes) && bytes@ == given.0@,
        told matches Value::String(bytes) && bytes@ == given.0@,
        given.0@.len() == 20,
        value matches Value::String(bytes) ==> (bytes@.len() == 20 ==> result is Ok
            && result->Ok_0.0@ == bytes@),
        value matches Value::String(bytes) ==> (bytes@.len() != 20 ==> result == Err::<
            ObjectUidAsStr,
            FromValueError,
        >(FromValueError::Length { wanted: 20, found: bytes@.len() as usize })),
        !(value is String) ==> refused(result, Expected::ObjectUid, value),
        raw@.len() == 20 ==> of_raw is Ok && of_raw->Ok_0.0@ == raw@,
        raw@.len() != 20 ==> of_raw == Err::<ObjectUidAsStr, FromValueError>(
            FromValueError::Length { wanted: 20, found: raw@.len() as usize },
        ),
        ty is Some && ty->Some_0 is String,
{
    given.0.length();
    mismatch_is_refused(result, Expected::ObjectUid, value);
}

/// The unique identifier of an object holds the bytes that it is made of.
pub proof fn object_uid_holds_its_bytes(
    array: [u8; 20],
    of_array: object::Uid,
    zero: object::Uid,
    slice: &[u8],
    of_slice: Option<object::Uid>,
    uid: &object::Uid,
    bytes: &[u8],
)
    requires
        call_ensures(object::Uid::from_bytes, (array,), of_array),
        call_ensures(object::Uid::zero, (), zero),
        call_ensures(object::Uid::from_slice, (slice,), of_slice),
        call_ensures(object::Uid::bytes, (uid,), bytes),
    ensures
        of_array@ == array@,
        zero@.len() == 20 && forall|i: int| 0 <= i < 20 ==> #[trigger] zero@[i] == 0,
        of_slice is Some <==> slice@.len() == 20,
        of_slice is Some ==> of_slice->Some_0@ == slice@,
        bytes@ == uid@,
{
}

/// The identifier of a value that is made of where it stands in memory holds that address.
pub proof fn object_uid_holds_where_a_value_stands<T: ?Sized>(value: &T, uid: object::Uid)
    requires
        call_ensures(object::Uid::from_ptr::<T>, (value,), uid),
    ensures
        exists|address: usize| #[trigger] object::stands_at(value, address) && holds_address(
            uid@,
            address,
        ),
{
    let address = choose|address: usize| #[trigger]
        object::stands_at(value, address) && uid@ == object::address_uid(address);
    address_is_held(address);
}

/// Whether bytes are those of an address, the least significant one first, and then zeros.
pub open spec fn holds_address(uid: Seq<u8>, address: usize) -> bool {
    &&& uid.len() == 20
    &&& uid[0] + uid[1] * 0x100 + uid[2] * 0x1_0000 + uid[3] * 0x100_0000 + uid[4] * 0x1_0000_0000
        + uid[5] * 0x100_0000_0000 + uid[6] * 0x1_0000_0000_0000 + uid[7] * 0x100_0000_0000_0000
        == address
    &&& forall|i: int| 8 <= i < 20 ==> #[trigger] uid[i] == 0
}

/// The identifier that is made of an address in memory holds its bytes, the least significant one
/// first, and then zeros.
pub proof fn object_uid_holds_an_address(address: usize, uid: object::Uid)
    requires
        call_ensures(object::Uid::from_address, (address,), uid),
    ensures
        holds_address(uid@, address),
{
    address_is_held(address);
}

/// The bytes that are made of an address hold it.
proof fn address_is_held(address: usize)
    ensures
        holds_address(object::address_uid(address), address),
{
    reveal(wire::number_bytes);
    let uid = object::address_uid(address);
    let low = (address as u64 % 0x1_0000_0000) as u32;
    let high = (address as u64 / 0x1_0000_0000) as u32;
    assert(low == low % 0x100 + low / 0x100 % 0x100 * 0x100 + low / 0x1_0000 % 0x100 * 0x1_0000 + low
        / 0x100_0000 * 0x100_0000);
    assert(high == high % 0x100 + high / 0x100 % 0x100 * 0x100 + high / 0x1_0000 % 0x100 * 0x1_0000
        + high / 0x100_0000 * 0x100_0000);
    assert(low / 0x100_0000 < 0x100);
    assert(high / 0x100_0000 < 0x100);
    assert(address == low + high * 0x1_0000_0000);
    assert(uid[0] == low % 0x100);
    assert(uid[1] == low / 0x100 % 0x100);
    assert(uid[2] == low / 0x1_0000 % 0x100);
    assert(uid[3] == low / 0x100_0000);
    assert(uid[4] == high % 0x100);
    assert(uid[5] == high / 0x100 % 0x100);
    assert(uid[6] == high / 0x1_0000 % 0x100);
    assert(uid[7] == high / 0x100_0000);
}

/// Identifiers that are not given are made of zeros, and those that are stay what they are, as
/// strings too.
pub proof fn object_uids_stay_what_they_are(
    fresh: object::Uid,
    fresh_text: ObjectUidAsStr,
    uid: object::Uid,
    text: ObjectUidAsStr,
    given: ObjectUidAsStr,
    back: object::Uid,
)
    requires
        call_ensures(<object::Uid as Default>::default, (), fresh),
        call_ensures(<ObjectUidAsStr as Default>::default, (), fresh_text),
        call_ensures(<ObjectUidAsStr as From<object::Uid>>::from, (uid,), text),
        call_ensures(<object::Uid as From<ObjectUidAsStr>>::from, (given,), back),
    ensures
        forall|i: int| 0 <= i < 20 ==> #[trigger] fresh@[i] == 0,
        forall|i: int| 0 <= i < 20 ==> #[trigger] fresh_text.0@[i] == 0,
        text.0 == uid,
        back == given.0,
{
}

/// What was read is handed on, and what could not be read is an error of the thing that was read:
/// the return value of a method, or the arguments of a request.
pub proof fn what_was_read_is_handed_on(
    read: Result<Value, wire::Error>,
    returned: Result<Value, Error>,
    args: Result<Value, Error>,
)
    requires
        call_ensures(return_value_of::<Value>, (read,), returned),
        call_ensures(args_of::<Value>, (read,), args),
    ensures
        read matches Ok(value) ==> returned == Ok::<Value, Error>(value) && args == Ok::<Value, Error>(
            value,
        ),
        read matches Err(err) ==> (returned matches Err(
            Error::Other(BoxError::Format(FormatError::MethodReturnValueDeserialization(why))),
        ) && why == err),
        read matches Err(err) ==> (args matches Err(
            Error::Other(BoxError::Format(FormatError::ArgumentsDeserialization(why))),
        ) && why == err),
{
}

/// What was read is converted: a number is taken as it is, another value is an error of the thing
/// that was read, and so is what could not be read.
pub proof fn what_was_read_is_converted(
    read: Result<Value, wire::Error>,
    plain: Result<u32, ReflectError>,
    returned: Result<u32, Error>,
    args: Result<u32, Error>,
)
    requires
        call_ensures(reflect_value_of::<u32>, (read,), plain),
        call_ensures(reflect_return_value_of::<u32>, (read,), returned),
        call_ensures(reflect_args_of::<u32>, (read,), args),
    ensures
        read matches Ok(Value::UInt32(n)) ==> plain == Ok::<u32, ReflectError>(n) && returned == Ok::<
            u32,
            Error,
        >(n) && args == Ok::<u32, Error>(n),
        read matches Ok(value) ==> (!(value is UInt32) ==> (plain matches Err(
            ReflectError::Conversion(why),
        ) && refused(Err::<u32, FromValueError>(why), Expected::Kind(Kind::UInt32), value))),
        read matches Ok(value) ==> (!(value is UInt32) ==> (returned matches Err(
            Error::Other(BoxError::ValueConversion(ValueConversionError::MethodReturnValue(why))),
        ) && refused(Err::<u32, FromValueError>(why), Expected::Kind(Kind::UInt32), value))),
        read matches Ok(value) ==> (!(value is UInt32) ==> (args matches Err(
            Error::Other(BoxError::ValueConversion(ValueConversionError::Arguments(why))),
        ) && refused(Err::<u32, FromValueError>(why), Expected::Kind(Kind::UInt32), value))),
        read matches Err(err) ==> plain == Err::<u32, ReflectError>(ReflectError::Format(err)),
        read matches Err(err) ==> (returned matches Err(
            Error::Other(BoxError::Format(FormatError::MethodReturnValueDeserialization(why))),
        ) && why == err),
        read matches Err(err) ==> (args matches Err(
            Error::Other(BoxError::Format(FormatError::ArgumentsDeserialization(why))),
        ) && why == err),
{
    if let Ok(value) = read {
        let expected = Expected::Kind(Kind::UInt32);
        if let Err(ReflectError::Conversion(why)) = plain {
            mismatch_is_refused(Err::<u32, FromValueError>(why), expected, value);
        }
        if let Err(
            Error::Other(BoxError::ValueConversion(ValueConversionError::MethodReturnValue(why))),
        ) = returned {
            mismatch_is_refused(Err::<u32, FromValueError>(why), expected, value);
        }
        if let Err(
            Error::Other(BoxError::ValueConversion(ValueConversionError::Arguments(why))),
        ) = args {
            mismatch_is_refused(Err::<u32, FromValueError>(why), expected, value);
        }
    }
}

/// A return value that could not be read as one of its type is an error of the return value.
pub proof fn unread_return_values_are_errors(err: ReflectError, error: Error)
    requires
        call_ensures(return_value_error, (err,), error),
    ensures
        match err {
            ReflectError::Format(why) => error == Error::Other(
                BoxError::Format(FormatError::MethodReturnValueDeserialization(why)),
            ),
            ReflectError::Conversion(why) => error == Error::Other(
                BoxError::ValueConversion(ValueConversionError::MethodReturnValue(why)),
            ),
        },
{
}

/// What was written is handed on, and what could not be written is an error of the thing that was
/// written: the arguments of a request, or the return value of a method.
pub proof fn what_was_written_is_handed_on(
    written: Result<bytes::Bytes, wire::Error>,
    args: Result<bytes::Bytes, Error>,
    returned: Result<bytes::Bytes, Error>,
)
    requires
        call_ensures(format_args_of, (written,), args),
        call_ensures(format_return_value_of, (written,), returned),
    ensures
        written matches Ok(payload) ==> args == Ok::<bytes::Bytes, Error>(payload) && returned == Ok::<
            bytes::Bytes,
            Error,
        >(payload),
        written matches Err(err) ==> (args matches Err(
            Error::Other(BoxError::Format(FormatError::ArgumentsSerialization(why))),
        ) && why == err),
        written matches Err(err) ==> (returned matches Err(
            Error::Other(BoxError::Format(FormatError::MethodReturnValueSerialization(why))),
        ) && why == err),
{
}

/// What bytes hold is read as the given type, and handed on as the return value of a method or as
/// the arguments of a request, or is an error of that.
pub proof fn bytes_are_read_as_the_given_type<F: FormatInto>(
    payload: &F,
    owned: F,
    ty: Option<&Type>,
    args: Result<Value, Error>,
    returned: Result<Value, Error>,
)
    requires
        call_ensures(F::to_args, (payload, ty), args),
        call_ensures(F::into_return_value, (owned, ty), returned),
    ensures
        exists|read: Result<Value, wire::Error>| #[trigger]
            call_ensures(F::to_value, (payload, ty), read) && (read matches Ok(value) ==> args == Ok::<
                Value,
                Error,
            >(value)) && (read matches Err(err) ==> args == Err::<Value, Error>(
                Error::Other(BoxError::Format(FormatError::ArgumentsDeserialization(err))),
            )),
        exists|read: Result<Value, wire::Error>| #[trigger]
            call_ensures(F::to_value, (&owned, ty), read) && (read matches Ok(value) ==> returned
                == Ok::<Value, Error>(value)) && (read matches Err(err) ==> returned == Err::<
                Value,
                Error,
            >(Error::Other(BoxError::Format(FormatError::MethodReturnValueDeserialization(err))))),
{
}

/// What is written is handed on as the arguments of a request or as the return value of a method,
/// or is an error of that.
pub proof fn bytes_are_written_as_what_they_are<F: IntoFormat>(
    given: F,
    args: Result<bytes::Bytes, Error>,
    returned: Result<bytes::Bytes, Error>,
)
    requires
        call_ensures(F::into_format_args, (given,), args),
        call_ensures(F::into_format_return_value, (given,), returned),
    ensures
        exists|written: Result<bytes::Bytes, wire::Error>| #[trigger]
            call_ensures(F::into_format, (given,), written) && (written matches Ok(payload) ==> args
                == Ok::<bytes::Bytes, Error>(payload)) && (written matches Err(err) ==> args == Err::<
                bytes::Bytes,
                Error,
            >(Error::Other(BoxError::Format(FormatError::ArgumentsSerialization(err))))),
        exists|written: Result<bytes::Bytes, wire::Error>| #[trigger]
            call_ensures(F::into_format, (given,), written) && (written matches Ok(payload)
                ==> returned == Ok::<bytes::Bytes, Error>(payload)) && (written matches Err(err)
                ==> returned == Err::<bytes::Bytes, Error>(
                Error::Other(BoxError::Format(FormatError::MethodReturnValueSerialization(err))),
            )),
{
}

/// What is converted is read as the type that it is converted to: a number as a number, a text as a
/// text, and a value of any type as one that carries its type.
pub proof fn converted_values_are_read_as_their_type(ty: Option<&Type>)
    ensures
        is_reflected::<u32>(ty) ==> ty is Some && *ty->Some_0 is UInt32,
        is_reflected::<String>(ty) ==> ty is Some && *ty->Some_0 is String,
        is_reflected::<bool>(ty) ==> ty is Some && *ty->Some_0 is Bool,
        is_reflected::<()>(ty) ==> ty is Some && *ty->Some_0 is Unit,
        is_reflected::<Value>(ty) ==> ty is None,
{
}

/// A type or a field that is added to a list comes last, and those before it stay.
pub proof fn types_and_fields_are_added_last(
    types: &mut Vec<Type>,
    ty: Type,
    fields: &mut Vec<Field>,
    name: &str,
    field_ty: Type,
)
    requires
        call_ensures(push_type, (types, ty), ()),
        call_ensures(push_field, (fields, name, field_ty), ()),
    ensures
        type_views(final(types)@).drop_last() == type_views(old(types)@),
        type_views(final(types)@).last() == ty.view(),
        field_views(final(fields)@).drop_last() == field_views(old(fields)@),
        field_views(final(fields)@).last() == (name@, field_ty.view()),
{
    assert(type_views(old(types)@).push(ty.view()).drop_last() =~= type_views(old(types)@));
    assert(field_views(old(fields)@).push((name@, field_ty.view())).drop_last() =~= field_views(
        old(fields)@,
    ));
}

/// A connection to a signal gives each value of its stream, ends where the stream does, and is
/// polled again right away, and only then, where values were missed.
pub proof fn connections_pass_over_missed_values<T, E>(
    polled: Poll<Option<Result<T, E>>>,
    next: (Poll<Option<T>>, bool),
)
    requires
        call_ensures(poll_next::<T, E>, (polled,), next),
    ensures
        match polled {
            Poll::Pending => next.0 is Pending && !next.1,
            Poll::Ready(None) => next.0 == Poll::<Option<T>>::Ready(None) && !next.1,
            Poll::Ready(Some(Ok(value))) => next.0 == Poll::Ready(Some(value)) && !next.1,
            Poll::Ready(Some(Err(_))) => next.0 is Pending && next.1,
        },
{
}

} // verus!
