//! Values that travel in messages, their types, and the conversions between them.

use vstd::prelude::*;
use vstd::utf8::{
    decode_utf8, encode_utf8, encode_utf8_decode_utf8, encode_utf8_valid_utf8, valid_utf8,
};
use crate::text::from_utf8;

verus! {

/// A field of a structure type.
#[derive(PartialEq, Eq, Debug)]
pub struct Field {
    pub name: String,
    pub ty: Type,
}

/// The type of a value.
#[derive(PartialEq, Eq, Debug)]
pub enum Type {
    Unit,
    Bool,
    Int8,
    UInt8,
    Int16,
    UInt16,
    Int32,
    UInt32,
    Int64,
    UInt64,
    Float32,
    Float64,
    String,
    List(Box<Type>),
    Dict(Box<Type>, Box<Type>),
    Tuple(Vec<Type>),
    Struct { name: String, fields: Vec<Field> },
}

/// A type in contracts.
#[verifier::ext_equal]
pub enum TypeView {
    Unit,
    Bool,
    Int8,
    UInt8,
    Int16,
    UInt16,
    Int32,
    UInt32,
    Int64,
    UInt64,
    Float32,
    Float64,
    String,
    List(Box<TypeView>),
    Dict(Box<TypeView>, Box<TypeView>),
    Tuple(Seq<TypeView>),
    Struct { name: Seq<char>, fields: Seq<(Seq<char>, TypeView)> },
}

/// The types of a list, in contracts.
pub open spec fn type_views(list: Seq<Type>) -> Seq<TypeView>
    decreases list,
{
    if list.len() == 0 {
        Seq::empty()
    } else {
        type_views(list.subrange(0, list.len() - 1)).push(list[list.len() - 1].view())
    }
}

/// The fields of a list, in contracts.
pub open spec fn field_views(list: Seq<Field>) -> Seq<(Seq<char>, TypeView)>
    decreases list,
{
    if list.len() == 0 {
        Seq::empty()
    } else {
        field_views(list.subrange(0, list.len() - 1)).push(
            (list[list.len() - 1].name@, list[list.len() - 1].ty.view()),
        )
    }
}

/// The types of a list that gets one more.
pub proof fn type_views_push(list: Seq<Type>, ty: Type)
    ensures
        type_views(list.push(ty)) == type_views(list).push(ty.view()),
{
    let longer = list.push(ty);
    assert(longer.subrange(0, longer.len() - 1) =~= list);
}

/// The fields of a list that gets one more.
pub proof fn field_views_push(list: Seq<Field>, field: Field)
    ensures
        field_views(list.push(field)) == field_views(list).push((field.name@, field.ty.view())),
{
    let longer = list.push(field);
    assert(longer.subrange(0, longer.len() - 1) =~= list);
}

/// Adds a type to a list.
pub fn push_type(list: &mut Vec<Type>, ty: Type)
    ensures
        type_views(final(list)@) == type_views(old(list)@).push(ty.view()),
{
    proof {
        type_views_push(list@, ty);
    }
    list.push(ty);
}

/// Adds a field to a list.
pub fn push_field(list: &mut Vec<Field>, name: &str, ty: Type)
    ensures
        field_views(final(list)@) == field_views(old(list)@).push((name@, ty.view())),
{
    let field = Field { name: name.to_owned(), ty };
    proof {
        field_views_push(list@, field);
    }
    list.push(field);
}

impl Type {
    /// The type in contracts.
    pub open spec fn view(&self) -> TypeView
        decreases self,
    {
        match self {
            Type::Unit => TypeView::Unit,
            Type::Bool => TypeView::Bool,
            Type::Int8 => TypeView::Int8,
            Type::UInt8 => TypeView::UInt8,
            Type::Int16 => TypeView::Int16,
            Type::UInt16 => TypeView::UInt16,
            Type::Int32 => TypeView::Int32,
            Type::UInt32 => TypeView::UInt32,
            Type::Int64 => TypeView::Int64,
            Type::UInt64 => TypeView::UInt64,
            Type::Float32 => TypeView::Float32,
            Type::Float64 => TypeView::Float64,
            Type::String => TypeView::String,
            Type::List(element) => TypeView::List(Box::new(element.view())),
            Type::Dict(key, value) => TypeView::Dict(Box::new(key.view()), Box::new(value.view())),
            Type::Tuple(elements) => TypeView::Tuple(type_views(elements@)),
            Type::Struct { name, fields } => TypeView::Struct {
                name: name@,
                fields: field_views(fields@),
            },
        }
    }
}

/// The signature of a value: its type, or nothing where the value carries its type itself.
#[derive(PartialEq, Eq, Debug)]
pub struct Signature(pub Option<Type>);

impl Signature {
    /// The type that the signature stands for, in contracts.
    pub open spec fn view(&self) -> Option<TypeView> {
        match self.0 {
            Some(ty) => Some(ty.view()),
            None => None,
        }
    }

    /// The type that the signature stands for.
    pub fn as_type(&self) -> (ty: Option<&Type>)
        ensures
            match ty {
                Some(ty) => self.0 == Some(*ty),
                None => self.0 is None,
            },
    {
        match &self.0 {
            Some(ty) => Some(ty),
            None => None,
        }
    }
}

/// An entry of a dictionary.
#[derive(PartialEq, Eq, Debug)]
pub struct Entry {
    pub key: Value,
    pub value: Value,
}

/// A value. Strings are raw bytes, since the protocol does not hold them to be text. Floating
/// point numbers are told by their bits, and dictionaries, which map keys to values, by their entries in order.
#[derive(PartialEq, Eq, Debug)]
pub enum Value {
    Unit,
    Bool(bool),
    Int8(i8),
    UInt8(u8),
    Int16(i16),
    UInt16(u16),
    Int32(i32),
    UInt32(u32),
    Int64(i64),
    UInt64(u64),
    Float32(u32),
    Float64(u64),
    String(Vec<u8>),
    List(Vec<Value>),
    Dict(Vec<Entry>),
    Tuple(Vec<Value>),
    Dynamic(Box<Value>),
}

/// A value in contracts.
#[verifier::ext_equal]
pub enum ValueView {
    Unit,
    Bool(bool),
    Int8(i8),
    UInt8(u8),
    Int16(i16),
    UInt16(u16),
    Int32(i32),
    UInt32(u32),
    Int64(i64),
    UInt64(u64),
    Float32(u32),
    Float64(u64),
    String(Seq<u8>),
    List(Seq<ValueView>),
    Dict(Seq<(ValueView, ValueView)>),
    Tuple(Seq<ValueView>),
    Dynamic(Box<ValueView>),
}

/// The values of a list, in contracts.
pub open spec fn value_views(list: Seq<Value>) -> Seq<ValueView>
    decreases list,
{
    if list.len() == 0 {
        Seq::empty()
    } else {
        value_views(list.subrange(0, list.len() - 1)).push(list[list.len() - 1].view())
    }
}

/// The entries of a list, in contracts.
pub open spec fn entry_views(list: Seq<Entry>) -> Seq<(ValueView, ValueView)>
    decreases list,
{
    if list.len() == 0 {
        Seq::empty()
    } else {
        entry_views(list.subrange(0, list.len() - 1)).push(
            (list[list.len() - 1].key.view(), list[list.len() - 1].value.view()),
        )
    }
}

impl Value {
    /// The value in contracts.
    pub open spec fn view(&self) -> ValueView
        decreases self,
    {
        match self {
            Value::Unit => ValueView::Unit,
            Value::Bool(b) => ValueView::Bool(*b),
            Value::Int8(n) => ValueView::Int8(*n),
            Value::UInt8(n) => ValueView::UInt8(*n),
            Value::Int16(n) => ValueView::Int16(*n),
            Value::UInt16(n) => ValueView::UInt16(*n),
            Value::Int32(n) => ValueView::Int32(*n),
            Value::UInt32(n) => ValueView::UInt32(*n),
            Value::Int64(n) => ValueView::Int64(*n),
            Value::UInt64(n) => ValueView::UInt64(*n),
            Value::Float32(n) => ValueView::Float32(*n),
            Value::Float64(n) => ValueView::Float64(*n),
            Value::String(raw) => ValueView::String(raw@),
            Value::List(elements) => ValueView::List(value_views(elements@)),
            Value::Dict(entries) => ValueView::Dict(entry_views(entries@)),
            Value::Tuple(elements) => ValueView::Tuple(value_views(elements@)),
            Value::Dynamic(inner) => ValueView::Dynamic(Box::new(inner.view())),
        }
    }
}

/// A copy of a list of values.
fn copy_values(list: &Vec<Value>) -> (copy: Vec<Value>)
    ensures
        value_views(copy@) == value_views(list@),
    decreases list,
{
    let mut copy: Vec<Value> = Vec::new();
    let mut i: usize = 0;
    assert(list@.subrange(0, 0) =~= Seq::<Value>::empty());
    while i < list.len()
        invariant
            i <= list@.len(),
            copy@.len() == i,
            value_views(copy@) == value_views(list@.subrange(0, i as int)),
        decreases list@.len() - i,
    {
        let element = list[i].copy();
        proof {
            let next = list@.subrange(0, i + 1);
            assert(next.subrange(0, i as int) =~= list@.subrange(0, i as int));
            let longer = copy@.push(element);
            assert(longer.subrange(0, i as int) =~= copy@);
        }
        copy.push(element);
        i += 1;
    }
    assert(list@.subrange(0, list@.len() as int) =~= list@);
    copy
}

/// A copy of a list of entries.
fn copy_entries(list: &Vec<Entry>) -> (copy: Vec<Entry>)
    ensures
        entry_views(copy@) == entry_views(list@),
    decreases list,
{
    let mut copy: Vec<Entry> = Vec::new();
    let mut i: usize = 0;
    assert(list@.subrange(0, 0) =~= Seq::<Entry>::empty());
    while i < list.len()
        invariant
            i <= list@.len(),
            copy@.len() == i,
            entry_views(copy@) == entry_views(list@.subrange(0, i as int)),
        decreases list@.len() - i,
    {
        let entry = Entry { key: list[i].key.copy(), value: list[i].value.copy() };
        proof {
            let next = list@.subrange(0, i + 1);
            assert(next.subrange(0, i as int) =~= list@.subrange(0, i as int));
            let longer = copy@.push(entry);
            assert(longer.subrange(0, i as int) =~= copy@);
        }
        copy.push(entry);
        i += 1;
    }
    assert(list@.subrange(0, list@.len() as int) =~= list@);
    copy
}

impl Value {
    /// A copy of the value.
    pub fn copy(&self) -> (copy: Value)
        ensures
            copy.view() == self.view(),
            *self is Bool || *self is UInt32 || *self is Int32 ==> copy == *self,
        decreases self,
    {
        match self {
            Value::Unit => Value::Unit,
            Value::Bool(b) => Value::Bool(*b),
            Value::Int8(n) => Value::Int8(*n),
            Value::UInt8(n) => Value::UInt8(*n),
            Value::Int16(n) => Value::Int16(*n),
            Value::UInt16(n) => Value::UInt16(*n),
            Value::Int32(n) => Value::Int32(*n),
            Value::UInt32(n) => Value::UInt32(*n),
            Value::Int64(n) => Value::Int64(*n),
            Value::UInt64(n) => Value::UInt64(*n),
            Value::Float32(n) => Value::Float32(*n),
            Value::Float64(n) => Value::Float64(*n),
            Value::String(raw) => {
                let copy = raw.clone();
                assert(copy@ =~= raw@);
                Value::String(copy)
            },
            Value::List(elements) => Value::List(copy_values(elements)),
            Value::Dict(entries) => Value::Dict(copy_entries(entries)),
            Value::Tuple(elements) => Value::Tuple(copy_values(elements)),
            Value::Dynamic(inner) => Value::Dynamic(Box::new(inner.copy())),
        }
    }
}

/// What kind of value a value is.
#[derive(Clone, Copy, PartialEq, Eq, Structural, Debug)]
pub enum Kind {
    Unit,
    Bool,
    Int8,
    UInt8,
    Int16,
    UInt16,
    Int32,
    UInt32,
    Int64,
    UInt64,
    Float32,
    Float64,
    String,
    List,
    Dict,
    Tuple,
    Dynamic,
}

impl Value {
    /// The kind of the value, in contracts.
    pub open spec fn spec_kind(self) -> Kind {
        match self {
            Value::Unit => Kind::Unit,
            Value::Bool(_) => Kind::Bool,
            Value::Int8(_) => Kind::Int8,
            Value::UInt8(_) => Kind::UInt8,
            Value::Int16(_) => Kind::Int16,
            Value::UInt16(_) => Kind::UInt16,
            Value::Int32(_) => Kind::Int32,
            Value::UInt32(_) => Kind::UInt32,
            Value::Int64(_) => Kind::Int64,
            Value::UInt64(_) => Kind::UInt64,
            Value::Float32(_) => Kind::Float32,
            Value::Float64(_) => Kind::Float64,
            Value::String(_) => Kind::String,
            Value::List(_) => Kind::List,
            Value::Dict(_) => Kind::Dict,
            Value::Tuple(_) => Kind::Tuple,
            Value::Dynamic(_) => Kind::Dynamic,
        }
    }

    /// The kind of the value.
    pub fn kind(&self) -> (kind: Kind)
        ensures
            kind == self.spec_kind(),
    {
        match self {
            Value::Unit => Kind::Unit,
            Value::Bool(_) => Kind::Bool,
            Value::Int8(_) => Kind::Int8,
            Value::UInt8(_) => Kind::UInt8,
            Value::Int16(_) => Kind::Int16,
            Value::UInt16(_) => Kind::UInt16,
            Value::Int32(_) => Kind::Int32,
            Value::UInt32(_) => Kind::UInt32,
            Value::Int64(_) => Kind::Int64,
            Value::UInt64(_) => Kind::UInt64,
            Value::Float32(_) => Kind::Float32,
            Value::Float64(_) => Kind::Float64,
            Value::String(_) => Kind::String,
            Value::List(_) => Kind::List,
            Value::Dict(_) => Kind::Dict,
            Value::Tuple(_) => Kind::Tuple,
            Value::Dynamic(_) => Kind::Dynamic,
        }
    }
}

/// The types of an entry of a dictionary.
#[derive(PartialEq, Eq, Debug)]
pub struct EntryType {
    pub key: ValueType,
    pub value: ValueType,
}

/// The type that a value has. Of what holds other values it tells the types of all of them, in
/// order.
#[derive(PartialEq, Eq, Debug)]
pub enum ValueType {
    Unit,
    Bool,
    Int8,
    UInt8,
    Int16,
    UInt16,
    Int32,
    UInt32,
    Int64,
    UInt64,
    Float32,
    Float64,
    String,
    List(Vec<ValueType>),
    Dict(Vec<EntryType>),
    Tuple(Vec<ValueType>),
    Dynamic(Box<ValueType>),
}

impl ValueType {
    /// Whether this is the type that a value has.
    pub open spec fn is_of(self, value: Value) -> bool
        decreases value,
    {
        match value {
            Value::Unit => self is Unit,
            Value::Bool(_) => self is Bool,
            Value::Int8(_) => self is Int8,
            Value::UInt8(_) => self is UInt8,
            Value::Int16(_) => self is Int16,
            Value::UInt16(_) => self is UInt16,
            Value::Int32(_) => self is Int32,
            Value::UInt32(_) => self is UInt32,
            Value::Int64(_) => self is Int64,
            Value::UInt64(_) => self is UInt64,
            Value::Float32(_) => self is Float32,
            Value::Float64(_) => self is Float64,
            Value::String(_) => self is String,
            Value::List(elements) => self matches ValueType::List(types) && types@.len()
                == elements@.len() && forall|i: int|
                0 <= i < elements@.len() ==> (#[trigger] types@[i]).is_of(elements@[i]),
            Value::Dict(entries) => self matches ValueType::Dict(types) && types@.len()
                == entries@.len() && forall|i: int|
                0 <= i < entries@.len() ==> (#[trigger] types@[i]).key.is_of(entries@[i].key)
                    && types@[i].value.is_of(entries@[i].value),
            Value::Tuple(elements) => self matches ValueType::Tuple(types) && types@.len()
                == elements@.len() && forall|i: int|
                0 <= i < elements@.len() ==> (#[trigger] types@[i]).is_of(elements@[i]),
            Value::Dynamic(inner) => self matches ValueType::Dynamic(ty) && ty.is_of(*inner),
        }
    }
}

/// The types of the values of a list.
fn types_of(list: &Vec<Value>) -> (types: Vec<ValueType>)
    ensures
        types@.len() == list@.len(),
        forall|i: int| 0 <= i < list@.len() ==> (#[trigger] types@[i]).is_of(list@[i]),
    decreases list,
{
    let mut types: Vec<ValueType> = Vec::new();
    let mut i: usize = 0;
    while i < list.len()
        invariant
            i <= list@.len(),
            types@.len() == i,
            forall|j: int| 0 <= j < i ==> (#[trigger] types@[j]).is_of(list@[j]),
        decreases list@.len() - i,
    {
        types.push(list[i].ty());
        i += 1;
    }
    types
}

/// The types of the entries of a list.
fn entry_types_of(list: &Vec<Entry>) -> (types: Vec<EntryType>)
    ensures
        types@.len() == list@.len(),
        forall|i: int|
            0 <= i < list@.len() ==> (#[trigger] types@[i]).key.is_of(list@[i].key)
                && types@[i].value.is_of(list@[i].value),
    decreases list,
{
    let mut types: Vec<EntryType> = Vec::new();
    let mut i: usize = 0;
    while i < list.len()
        invariant
            i <= list@.len(),
            types@.len() == i,
            forall|j: int|
                0 <= j < i ==> (#[trigger] types@[j]).key.is_of(list@[j].key)
                    && types@[j].value.is_of(list@[j].value),
        decreases list@.len() - i,
    {
        types.push(EntryType { key: list[i].key.ty(), value: list[i].value.ty() });
        i += 1;
    }
    types
}

impl Value {
    /// The type of the value.
    pub fn ty(&self) -> (ty: ValueType)
        ensures
            ty.is_of(*self),
        decreases self,
    {
        match self {
            Value::Unit => ValueType::Unit,
            Value::Bool(_) => ValueType::Bool,
            Value::Int8(_) => ValueType::Int8,
            Value::UInt8(_) => ValueType::UInt8,
            Value::Int16(_) => ValueType::Int16,
            Value::UInt16(_) => ValueType::UInt16,
            Value::Int32(_) => ValueType::Int32,
            Value::UInt32(_) => ValueType::UInt32,
            Value::Int64(_) => ValueType::Int64,
            Value::UInt64(_) => ValueType::UInt64,
            Value::Float32(_) => ValueType::Float32,
            Value::Float64(_) => ValueType::Float64,
            Value::String(_) => ValueType::String,
            Value::List(elements) => ValueType::List(types_of(elements)),
            Value::Dict(entries) => ValueType::Dict(entry_types_of(entries)),
            Value::Tuple(elements) => ValueType::Tuple(types_of(elements)),
            Value::Dynamic(inner) => ValueType::Dynamic(Box::new(inner.ty())),
        }
    }
}

/// What a conversion expects of a value.
#[derive(Clone, Copy, PartialEq, Eq, Structural, Debug)]
pub enum Expected {
    Kind(Kind),
    /// "an Object UID"
    ObjectUid,
}

/// Why a value cannot be converted.
#[derive(PartialEq, Eq, Debug)]
pub enum FromValueError {
    /// The value is of another type than the conversion expects.
    TypeMismatch { expected: Expected, actual: ValueType },
    /// The value holds another number of elements than the conversion expects.
    Length { wanted: usize, found: usize },
    /// The string is not text.
    NotText,
    /// The text does not identify a machine.
    NotAMachineId,
    /// The text does not stand for a target of a session.
    NotATarget,
}

/// A type that values can be converted to.
pub trait FromValue: Sized {
    /// What a value is converted to.
    spec fn converts(value: Value, result: Result<Self, FromValueError>) -> bool;

    /// Converts a value.
    fn from_value(value: Value) -> (result: Result<Self, FromValueError>)
        ensures
            Self::converts(value, result),
    ;
}

/// Whether a conversion fails since the value is of another type than expected.
pub open spec fn mismatched<T>(
    result: Result<T, FromValueError>,
    expected: Expected,
    value: Value,
) -> bool {
    result matches Err(FromValueError::TypeMismatch { expected: wanted, actual }) && wanted
        == expected && actual.is_of(value)
}

/// The error for a value that is of another type than expected.
pub fn mismatch(expected: Expected, value: &Value) -> (err: FromValueError)
    ensures
        mismatched(Err::<(), FromValueError>(err), expected, *value),
{
    FromValueError::TypeMismatch { expected, actual: value.ty() }
}

impl FromValue for () {
    open spec fn converts(value: Value, result: Result<(), FromValueError>) -> bool {
        match value {
            Value::Unit => result == Ok::<(), FromValueError>(()),
            _ => mismatched(result, Expected::Kind(Kind::Unit), value),
        }
    }

    fn from_value(value: Value) -> (result: Result<(), FromValueError>) {
        match value {
            Value::Unit => Ok(()),
            other => Err(mismatch(Expected::Kind(Kind::Unit), &other)),
        }
    }
}

impl FromValue for bool {
    open spec fn converts(value: Value, result: Result<bool, FromValueError>) -> bool {
        match value {
            Value::Bool(b) => result == Ok::<bool, FromValueError>(b),
            _ => mismatched(result, Expected::Kind(Kind::Bool), value),
        }
    }

    fn from_value(value: Value) -> (result: Result<bool, FromValueError>) {
        match value {
            Value::Bool(b) => Ok(b),
            other => Err(mismatch(Expected::Kind(Kind::Bool), &other)),
        }
    }
}

impl FromValue for i32 {
    open spec fn converts(value: Value, result: Result<i32, FromValueError>) -> bool {
        match value {
            Value::Int32(n) => result == Ok::<i32, FromValueError>(n),
            _ => mismatched(result, Expected::Kind(Kind::Int32), value),
        }
    }

    fn from_value(value: Value) -> (result: Result<i32, FromValueError>) {
        match value {
            Value::Int32(n) => Ok(n),
            other => Err(mismatch(Expected::Kind(Kind::Int32), &other)),
        }
    }
}

impl FromValue for u32 {
    open spec fn converts(value: Value, result: Result<u32, FromValueError>) -> bool {
        match value {
            Value::UInt32(n) => result == Ok::<u32, FromValueError>(n),
            _ => mismatched(result, Expected::Kind(Kind::UInt32), value),
        }
    }

    fn from_value(value: Value) -> (result: Result<u32, FromValueError>) {
        match value {
            Value::UInt32(n) => Ok(n),
            other => Err(mismatch(Expected::Kind(Kind::UInt32), &other)),
        }
    }
}

impl FromValue for String {
    open spec fn converts(value: Value, result: Result<String, FromValueError>) -> bool {
        match value {
            Value::String(raw) => if valid_utf8(raw@) {
                result is Ok && result->Ok_0@ == decode_utf8(raw@)
            } else {
                result == Err::<String, FromValueError>(FromValueError::NotText)
            },
            _ => mismatched(result, Expected::Kind(Kind::String), value),
        }
    }

    fn from_value(value: Value) -> (result: Result<String, FromValueError>) {
        match value {
            Value::String(raw) => match from_utf8(raw) {
                Some(text) => Ok(text),
                None => Err(FromValueError::NotText),
            },
            other => Err(mismatch(Expected::Kind(Kind::String), &other)),
        }
    }
}

impl<A: FromValue, B: FromValue> FromValue for (A, B) {
    open spec fn converts(value: Value, result: Result<(A, B), FromValueError>) -> bool {
        match value {
            Value::Tuple(elements) => if elements@.len() != 2 {
                result == Err::<(A, B), FromValueError>(
                    FromValueError::Length { wanted: 2, found: elements@.len() as usize },
                )
            } else {
                match result {
                    Ok((first, second)) => {
                        &&& A::converts(elements@[0], Ok(first))
                        &&& B::converts(elements@[1], Ok(second))
                    },
                    Err(err) => {
                        ||| A::converts(elements@[0], Err(err))
                        ||| (exists|first: A| A::converts(elements@[0], Ok(first)))
                            && B::converts(elements@[1], Err(err))
                    },
                }
            },
            _ => mismatched(result, Expected::Kind(Kind::Tuple), value),
        }
    }

    fn from_value(value: Value) -> (result: Result<(A, B), FromValueError>) {
        match value {
            Value::Tuple(mut elements) => {
                let length: usize = elements.len();
                if length != 2 {
                    return Err(FromValueError::Length { wanted: 2, found: length });
                }
                let second = elements.remove(1);
                let first = elements.remove(0);
                match A::from_value(first) {
                    Err(err) => Err(err),
                    Ok(first) => match B::from_value(second) {
                        Err(err) => Err(err),
                        Ok(second) => Ok((first, second)),
                    },
                }
            },
            other => Err(mismatch(Expected::Kind(Kind::Tuple), &other)),
        }
    }
}

/// A type that can be converted to values.
pub trait IntoValue: Sized {
    /// Whether a value is the one that this is converted to.
    spec fn valued(self, value: Value) -> bool;

    /// Converts to a value.
    fn into_value(self) -> (value: Value)
        ensures
            self.valued(value),
    ;
}

impl IntoValue for () {
    open spec fn valued(self, value: Value) -> bool {
        value == Value::Unit
    }

    fn into_value(self) -> (value: Value) {
        Value::Unit
    }
}

impl IntoValue for bool {
    open spec fn valued(self, value: Value) -> bool {
        value == Value::Bool(self)
    }

    fn into_value(self) -> (value: Value) {
        Value::Bool(self)
    }
}

impl IntoValue for i32 {
    open spec fn valued(self, value: Value) -> bool {
        value == Value::Int32(self)
    }

    fn into_value(self) -> (value: Value) {
        Value::Int32(self)
    }
}

impl IntoValue for u32 {
    open spec fn valued(self, value: Value) -> bool {
        value == Value::UInt32(self)
    }

    fn into_value(self) -> (value: Value) {
        Value::UInt32(self)
    }
}

impl IntoValue for Value {
    open spec fn valued(self, value: Value) -> bool {
        value == self
    }

    fn into_value(self) -> (value: Value) {
        self
    }
}

impl IntoValue for String {
    open spec fn valued(self, value: Value) -> bool {
        value matches Value::String(raw) && raw@ == encode_utf8(self@)
    }

    fn into_value(self) -> (value: Value) {
        Value::String(self.as_str().as_bytes_vec())
    }
}

impl<'a> IntoValue for &'a str {
    open spec fn valued(self, value: Value) -> bool {
        value matches Value::String(raw) && raw@ == encode_utf8(self@)
    }

    fn into_value(self) -> (value: Value) {
        Value::String(self.as_bytes_vec())
    }
}

impl<A: IntoValue, B: IntoValue> IntoValue for (A, B) {
    open spec fn valued(self, value: Value) -> bool {
        &&& value matches Value::Tuple(elements)
        &&& elements@.len() == 2
        &&& self.0.valued(elements@[0])
        &&& self.1.valued(elements@[1])
    }

    fn into_value(self) -> (value: Value) {
        let mut elements: Vec<Value> = Vec::new();
        elements.push(self.0.into_value());
        elements.push(self.1.into_value());
        Value::Tuple(elements)
    }
}

/// A value that carries its type with it.
pub struct Dynamic<T>(pub T);

impl<T: IntoValue> IntoValue for Dynamic<T> {
    open spec fn valued(self, value: Value) -> bool {
        value matches Value::Dynamic(inner) && self.0.valued(*inner)
    }

    fn into_value(self) -> (value: Value) {
        Value::Dynamic(Box::new(self.0.into_value()))
    }
}

/// A number that is converted to a value and back is the same number.
pub proof fn number_converted_back(n: u32, value: Value, result: Result<u32, FromValueError>)
    requires
        n.valued(value),
        <u32 as FromValue>::converts(value, result),
    ensures
        result == Ok::<u32, FromValueError>(n),
{
}

/// A signed number that is converted to a value and back is the same number.
pub proof fn signed_number_converted_back(n: i32, value: Value, result: Result<i32, FromValueError>)
    requires
        n.valued(value),
        <i32 as FromValue>::converts(value, result),
    ensures
        result == Ok::<i32, FromValueError>(n),
{
}

/// A text that is converted to a value and back is the same text.
pub proof fn text_converted_back(
    text: String,
    value: Value,
    result: Result<String, FromValueError>,
)
    requires
        text.valued(value),
        <String as FromValue>::converts(value, result),
    ensures
        result is Ok,
        result->Ok_0@ == text@,
{
    encode_utf8_valid_utf8(text@);
    encode_utf8_decode_utf8(text@);
}

} // verus!
