//! Conversions between integers and values.

use vstd::prelude::*;
use crate::formats::Reflect;
use crate::value::{
    mismatch, mismatched, Expected, FromValue, FromValueError, IntoValue, Kind, Type, TypeView, Value,
};

verus! {

impl Reflect for i8 {
    open spec fn reflected() -> Option<TypeView> {
        Some(TypeView::Int8)
    }

    fn ty() -> (ty: Option<Type>) {
        Some(Type::Int8)
    }
}

impl IntoValue for i8 {
    open spec fn valued(self, value: Value) -> bool {
        value == Value::Int8(self)
    }

    fn into_value(self) -> (value: Value) {
        Value::Int8(self)
    }
}

impl FromValue for i8 {
    open spec fn converts(value: Value, result: Result<i8, FromValueError>) -> bool {
        match value {
            Value::Int8(n) => result == Ok::<i8, FromValueError>(n),
            _ => mismatched(result, Expected::Kind(Kind::Int8), value),
        }
    }

    fn from_value(value: Value) -> (result: Result<i8, FromValueError>) {
        match value {
            Value::Int8(n) => Ok(n),
            other => Err(mismatch(Expected::Kind(Kind::Int8), &other)),
        }
    }
}

impl Reflect for u8 {
    open spec fn reflected() -> Option<TypeView> {
        Some(TypeView::UInt8)
    }

    fn ty() -> (ty: Option<Type>) {
        Some(Type::UInt8)
    }
}

impl IntoValue for u8 {
    open spec fn valued(self, value: Value) -> bool {
        value == Value::UInt8(self)
    }

    fn into_value(self) -> (value: Value) {
        Value::UInt8(self)
    }
}

impl FromValue for u8 {
    open spec fn converts(value: Value, result: Result<u8, FromValueError>) -> bool {
        match value {
            Value::UInt8(n) => result == Ok::<u8, FromValueError>(n),
            _ => mismatched(result, Expected::Kind(Kind::UInt8), value),
        }
    }

    fn from_value(value: Value) -> (result: Result<u8, FromValueError>) {
        match value {
            Value::UInt8(n) => Ok(n),
            other => Err(mismatch(Expected::Kind(Kind::UInt8), &other)),
        }
    }
}

impl Reflect for i16 {
    open spec fn reflected() -> Option<TypeView> {
        Some(TypeView::Int16)
    }

    fn ty() -> (ty: Option<Type>) {
        Some(Type::Int16)
    }
}

impl IntoValue for i16 {
    open spec fn valued(self, value: Value) -> bool {
        value == Value::Int16(self)
    }

    fn into_value(self) -> (value: Value) {
        Value::Int16(self)
    }
}

impl FromValue for i16 {
    open spec fn converts(value: Value, result: Result<i16, FromValueError>) -> bool {
        match value {
            Value::Int16(n) => result == Ok::<i16, FromValueError>(n),
            _ => mismatched(result, Expected::Kind(Kind::Int16), value),
        }
    }

    fn from_value(value: Value) -> (result: Result<i16, FromValueError>) {
        match value {
            Value::Int16(n) => Ok(n),
            other => Err(mismatch(Expected::Kind(Kind::Int16), &other)),
        }
    }
}

impl Reflect for u16 {
    open spec fn reflected() -> Option<TypeView> {
        Some(TypeView::UInt16)
    }

    fn ty() -> (ty: Option<Type>) {
        Some(Type::UInt16)
    }
}

impl IntoValue for u16 {
    open spec fn valued(self, value: Value) -> bool {
        value == Value::UInt16(self)
    }

    fn into_value(self) -> (value: Value) {
        Value::UInt16(self)
    }
}

impl FromValue for u16 {
    open spec fn converts(value: Value, result: Result<u16, FromValueError>) -> bool {
        match value {
            Value::UInt16(n) => result == Ok::<u16, FromValueError>(n),
            _ => mismatched(result, Expected::Kind(Kind::UInt16), value),
        }
    }

    fn from_value(value: Value) -> (result: Result<u16, FromValueError>) {
        match value {
            Value::UInt16(n) => Ok(n),
            other => Err(mismatch(Expected::Kind(Kind::UInt16), &other)),
        }
    }
}

impl Reflect for i64 {
    open spec fn reflected() -> Option<TypeView> {
        Some(TypeView::Int64)
    }

    fn ty() -> (ty: Option<Type>) {
        Some(Type::Int64)
    }
}

impl IntoValue for i64 {
    open spec fn valued(self, value: Value) -> bool {
        value == Value::Int64(self)
    }

    fn into_value(self) -> (value: Value) {
        Value::Int64(self)
    }
}

impl FromValue for i64 {
    open spec fn converts(value: Value, result: Result<i64, FromValueError>) -> bool {
        match value {
            Value::Int64(n) => result == Ok::<i64, FromValueError>(n),
            _ => mismatched(result, Expected::Kind(Kind::Int64), value),
        }
    }

    fn from_value(value: Value) -> (result: Result<i64, FromValueError>) {
        match value {
            Value::Int64(n) => Ok(n),
            other => Err(mismatch(Expected::Kind(Kind::Int64), &other)),
        }
    }
}

impl Reflect for u64 {
    open spec fn reflected() -> Option<TypeView> {
        Some(TypeView::UInt64)
    }

    fn ty() -> (ty: Option<Type>) {
        Some(Type::UInt64)
    }
}

impl IntoValue for u64 {
    open spec fn valued(self, value: Value) -> bool {
        value == Value::UInt64(self)
    }

    fn into_value(self) -> (value: Value) {
        Value::UInt64(self)
    }
}

impl FromValue for u64 {
    open spec fn converts(value: Value, result: Result<u64, FromValueError>) -> bool {
        match value {
            Value::UInt64(n) => result == Ok::<u64, FromValueError>(n),
            _ => mismatched(result, Expected::Kind(Kind::UInt64), value),
        }
    }

    fn from_value(value: Value) -> (result: Result<u64, FromValueError>) {
        match value {
            Value::UInt64(n) => Ok(n),
            other => Err(mismatch(Expected::Kind(Kind::UInt64), &other)),
        }
    }
}

} // verus!
