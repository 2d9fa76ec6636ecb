//! Values in and out of the payloads of messages.

use bytes::Bytes;
use vstd::prelude::*;
use crate::error::{BoxError, Error, FormatError, ValueConversionError};
use crate::value::{FromValue, FromValueError, Type, TypeView, Value};
use crate::wire;

verus! {

/// Why bytes could not be read as a value of a given type.
#[derive(PartialEq, Eq, Debug)]
pub enum ReflectError {
    /// The bytes do not hold a value of the type.
    Format(wire::Error),
    /// The value cannot be converted.
    Conversion(FromValueError),
}

/// What a value that was read is converted to.
pub open spec fn reflected_value<T: FromValue>(
    read: Result<Value, wire::Error>,
    result: Result<T, ReflectError>,
) -> bool {
    match read {
        Err(err) => result == Err::<T, ReflectError>(ReflectError::Format(err)),
        Ok(value) => match result {
            Ok(t) => T::converts(value, Ok(t)),
            Err(ReflectError::Conversion(err)) => T::converts(value, Err(err)),
            Err(_) => false,
        },
    }
}

/// The return value that the reply of a method was read as. `V` stands for what was read.
pub open spec fn read_return_value<V>(read: Result<V, wire::Error>) -> Result<V, Error> {
    match read {
        Ok(value) => Ok(value),
        Err(err) => Err(
            Error::Other(BoxError::Format(FormatError::MethodReturnValueDeserialization(err))),
        ),
    }
}

/// What the return value that the reply of a method was read as is converted to.
pub open spec fn reflected_return_value<T: FromValue>(
    read: Result<Value, wire::Error>,
    result: Result<T, Error>,
) -> bool {
    match read_return_value(read) {
        Err(err) => result == Err::<T, Error>(err),
        Ok(value) => match result {
            Ok(t) => T::converts(value, Ok(t)),
            Err(Error::Other(BoxError::ValueConversion(ValueConversionError::MethodReturnValue(err)))) =>
                T::converts(value, Err(err)),
            Err(_) => false,
        },
    }
}

/// The arguments that a request was read as. `V` stands for what was read.
pub open spec fn read_args<V>(read: Result<V, wire::Error>) -> Result<V, Error> {
    match read {
        Ok(value) => Ok(value),
        Err(err) => Err(Error::Other(BoxError::Format(FormatError::ArgumentsDeserialization(err)))),
    }
}

/// What the arguments that a request was read as are converted to.
pub open spec fn reflected_args<T: FromValue>(
    read: Result<Value, wire::Error>,
    result: Result<T, Error>,
) -> bool {
    match read_args(read) {
        Err(err) => result == Err::<T, Error>(err),
        Ok(value) => match result {
            Ok(t) => T::converts(value, Ok(t)),
            Err(Error::Other(BoxError::ValueConversion(ValueConversionError::Arguments(err)))) =>
                T::converts(value, Err(err)),
            Err(_) => false,
        },
    }
}

/// The arguments of a request that were written.
pub open spec fn written_args(written: Result<Bytes, wire::Error>) -> Result<Bytes, Error> {
    match written {
        Ok(payload) => Ok(payload),
        Err(err) => Err(Error::Other(BoxError::Format(FormatError::ArgumentsSerialization(err)))),
    }
}

/// The return value of a method that was written.
pub open spec fn written_return_value(written: Result<Bytes, wire::Error>) -> Result<Bytes, Error> {
    match written {
        Ok(payload) => Ok(payload),
        Err(err) => Err(
            Error::Other(BoxError::Format(FormatError::MethodReturnValueSerialization(err))),
        ),
    }
}

/// Converts what was read out of bytes.
pub fn reflect_value_of<T: FromValue>(read: Result<Value, wire::Error>) -> (result: Result<
    T,
    ReflectError,
>)
    ensures
        reflected_value(read, result),
{
    match read {
        Err(err) => Err(ReflectError::Format(err)),
        Ok(value) => match T::from_value(value) {
            Ok(t) => Ok(t),
            Err(err) => Err(ReflectError::Conversion(err)),
        },
    }
}

/// Takes what was read out of the reply of a method as its return value.
pub fn return_value_of<V>(read: Result<V, wire::Error>) -> (result: Result<V, Error>)
    ensures
        result == read_return_value(read),
{
    match read {
        Ok(value) => Ok(value),
        Err(err) => Err(
            Error::Other(BoxError::Format(FormatError::MethodReturnValueDeserialization(err))),
        ),
    }
}

/// Takes what was read out of the reply of a method as its return value, and converts it.
pub fn reflect_return_value_of<T: FromValue>(read: Result<Value, wire::Error>) -> (result: Result<
    T,
    Error,
>)
    ensures
        reflected_return_value(read, result),
{
    match return_value_of(read) {
        Err(err) => Err(err),
        Ok(value) => match T::from_value(value) {
            Ok(t) => Ok(t),
            Err(err) => Err(
                Error::Other(BoxError::ValueConversion(ValueConversionError::MethodReturnValue(err))),
            ),
        },
    }
}

/// The error of a method whose return value could not be read as a value of a given type.
pub fn return_value_error(err: ReflectError) -> (error: Error)
    ensures
        error == (match err {
            ReflectError::Format(err) => Error::Other(
                BoxError::Format(FormatError::MethodReturnValueDeserialization(err)),
            ),
            ReflectError::Conversion(err) => Error::Other(
                BoxError::ValueConversion(ValueConversionError::MethodReturnValue(err)),
            ),
        }),
{
    match err {
        ReflectError::Format(err) => Error::Other(
            BoxError::Format(FormatError::MethodReturnValueDeserialization(err)),
        ),
        ReflectError::Conversion(err) => Error::Other(
            BoxError::ValueConversion(ValueConversionError::MethodReturnValue(err)),
        ),
    }
}

/// Takes what was read out of a request as its arguments.
pub fn args_of<V>(read: Result<V, wire::Error>) -> (result: Result<V, Error>)
    ensures
        result == read_args(read),
{
    match read {
        Ok(value) => Ok(value),
        Err(err) => Err(Error::Other(BoxError::Format(FormatError::ArgumentsDeserialization(err)))),
    }
}

/// Takes what was read out of a request as its arguments, and converts them.
pub fn reflect_args_of<T: FromValue>(read: Result<Value, wire::Error>) -> (result: Result<T, Error>)
    ensures
        reflected_args(read, result),
{
    match args_of(read) {
        Err(err) => Err(err),
        Ok(value) => match T::from_value(value) {
            Ok(t) => Ok(t),
            Err(err) => Err(
                Error::Other(BoxError::ValueConversion(ValueConversionError::Arguments(err))),
            ),
        },
    }
}

/// Takes written bytes as the arguments of a request.
pub fn format_args_of(written: Result<Bytes, wire::Error>) -> (result: Result<Bytes, Error>)
    ensures
        result == written_args(written),
{
    match written {
        Ok(payload) => Ok(payload),
        Err(err) => Err(Error::Other(BoxError::Format(FormatError::ArgumentsSerialization(err)))),
    }
}

/// Takes written bytes as the return value of a method.
pub fn format_return_value_of(written: Result<Bytes, wire::Error>) -> (result: Result<Bytes, Error>)
    ensures
        result == written_return_value(written),
{
    match written {
        Ok(payload) => Ok(payload),
        Err(err) => Err(
            Error::Other(BoxError::Format(FormatError::MethodReturnValueSerialization(err))),
        ),
    }
}

/// The type that a type of values stands for, or nothing where its values carry their types.
pub trait Reflect {
    /// The type, in contracts.
    spec fn reflected() -> Option<TypeView>;

    /// The type.
    fn ty() -> (ty: Option<Type>)
        ensures
            match ty {
                Some(ty) => Self::reflected() == Some(ty.view()),
                None => Self::reflected() is None,
            },
    ;
}

impl Reflect for () {
    open spec fn reflected() -> Option<TypeView> {
        Some(TypeView::Unit)
    }

    fn ty() -> (ty: Option<Type>) {
        Some(Type::Unit)
    }
}

impl Reflect for bool {
    open spec fn reflected() -> Option<TypeView> {
        Some(TypeView::Bool)
    }

    fn ty() -> (ty: Option<Type>) {
        Some(Type::Bool)
    }
}

impl Reflect for i32 {
    open spec fn reflected() -> Option<TypeView> {
        Some(TypeView::Int32)
    }

    fn ty() -> (ty: Option<Type>) {
        Some(Type::Int32)
    }
}

impl Reflect for u32 {
    open spec fn reflected() -> Option<TypeView> {
        Some(TypeView::UInt32)
    }

    fn ty() -> (ty: Option<Type>) {
        Some(Type::UInt32)
    }
}

impl Reflect for String {
    open spec fn reflected() -> Option<TypeView> {
        Some(TypeView::String)
    }

    fn ty() -> (ty: Option<Type>) {
        Some(Type::String)
    }
}

impl Reflect for Value {
    open spec fn reflected() -> Option<TypeView> {
        None
    }

    fn ty() -> (ty: Option<Type>) {
        None
    }
}

/// Whether a type is the one that is reflected.
pub open spec fn is_reflected<T: Reflect>(ty: Option<&Type>) -> bool {
    match ty {
        Some(ty) => T::reflected() == Some(ty.view()),
        None => T::reflected() is None,
    }
}

/// Bytes that values are read out of.
pub trait FormatInto: Sized {
    /// Reads a value of the given type, or of the type that it carries.
    fn to_value(&self, ty: Option<&Type>) -> (read: Result<Value, wire::Error>);

    /// Reads a value and converts it.
    fn to_reflect_value<T: Reflect + FromValue>(&self) -> (result: Result<T, ReflectError>)
        ensures
            exists|ty: Option<&Type>, read: Result<Value, wire::Error>| #[trigger]
                call_ensures(Self::to_value, (self, ty), read) && is_reflected::<T>(ty)
                    && reflected_value(read, result),
    {
        let ty = T::ty();
        let wanted = ty.as_ref();
        let read = self.to_value(wanted);
        assert(call_ensures(Self::to_value, (self, wanted), read));
        reflect_value_of(read)
    }

    /// Reads the return value of a method.
    fn into_return_value(self, ty: Option<&Type>) -> (result: Result<Value, Error>)
        ensures
            exists|read: Result<Value, wire::Error>| #[trigger]
                call_ensures(Self::to_value, (&self, ty), read) && result == read_return_value(
                    read,
                ),
    {
        return_value_of(self.to_value(ty))
    }

    /// Reads the return value of a method and converts it.
    fn into_reflect_return_value<T: Reflect + FromValue>(self) -> (result: Result<T, Error>)
        ensures
            exists|ty: Option<&Type>, read: Result<Value, wire::Error>| #[trigger]
                call_ensures(Self::to_value, (&self, ty), read) && is_reflected::<T>(ty)
                    && reflected_return_value(read, result),
    {
        let ty = T::ty();
        let wanted = ty.as_ref();
        let read = self.to_value(wanted);
        assert(call_ensures(Self::to_value, (&self, wanted), read));
        reflect_return_value_of(read)
    }

    /// Reads the arguments of a request.
    fn to_args(&self, ty: Option<&Type>) -> (result: Result<Value, Error>)
        ensures
            exists|read: Result<Value, wire::Error>| #[trigger]
                call_ensures(Self::to_value, (self, ty), read) && result == read_args(read),
    {
        args_of(self.to_value(ty))
    }

    /// Reads the arguments of a request and converts them.
    fn to_reflect_args<T: Reflect + FromValue>(&self) -> (result: Result<T, Error>)
        ensures
            exists|ty: Option<&Type>, read: Result<Value, wire::Error>| #[trigger]
                call_ensures(Self::to_value, (self, ty), read) && is_reflected::<T>(ty)
                    && reflected_args(read, result),
    {
        let ty = T::ty();
        let wanted = ty.as_ref();
        let read = self.to_value(wanted);
        assert(call_ensures(Self::to_value, (self, wanted), read));
        reflect_args_of(read)
    }
}

/// What can be written into a payload.
pub trait IntoFormat: Sized {
    /// Writes a payload.
    fn into_format(self) -> (written: Result<Bytes, wire::Error>);

    /// Writes the arguments of a request.
    fn into_format_args(self) -> (result: Result<Bytes, Error>)
        ensures
            exists|written: Result<Bytes, wire::Error>| #[trigger]
                call_ensures(Self::into_format, (self,), written) && result == written_args(
                    written,
                ),
    {
        format_args_of(self.into_format())
    }

    /// Writes the return value of a method.
    fn into_format_return_value(self) -> (result: Result<Bytes, Error>)
        ensures
            exists|written: Result<Bytes, wire::Error>| #[trigger]
                call_ensures(Self::into_format, (self,), written) && result == written_return_value(
                    written,
                ),
    {
        format_return_value_of(self.into_format())
    }
}

} // verus!
