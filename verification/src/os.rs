//! Identification of machines.

use vstd::prelude::*;
use vstd::utf8::{
    decode_utf8, encode_utf8, encode_utf8_decode_utf8, encode_utf8_valid_utf8, valid_utf8,
};
use crate::formats::Reflect;
use crate::unique_id;
use crate::value::{
    mismatched, Expected, FromValue, FromValueError, IntoValue, Kind, Type, TypeView, Value,
};

verus! {

/// The identifier of a machine: a universally unique identifier, by its value.
#[derive(Clone, Copy, PartialEq, Eq, Structural, PartialOrd, Ord, Hash, Debug, Default)]
pub struct MachineId(pub u128);

impl MachineId {
    /// Reads the identifier of a machine out of its text.
    pub fn parse(text: &str) -> (id: Option<MachineId>)
        ensures
            id == MachineId::read(text@),
            forall|m: MachineId| text@ == #[trigger] m.text() ==> id == Some(m),
    {
        let value = unique_id::parse(text);
        proof {
            assert forall|m: MachineId| text@ == #[trigger] m.text() implies value == Some(m.0) by {
                assert(text@ == unique_id::hyphenated(m.0));
            }
        }
        match value {
            Some(value) => Some(MachineId(value)),
            None => None,
        }
    }

    /// What a text stands for.
    pub open spec fn read(text: Seq<char>) -> Option<MachineId> {
        match unique_id::parsed(text) {
            Some(value) => Some(MachineId(value)),
            None => None,
        }
    }

    /// The text of the identifier.
    pub open spec fn text(self) -> Seq<char> {
        unique_id::hyphenated(self.0)
    }

    /// Renders the identifier.
    pub fn to_text(&self) -> (text: String)
        ensures
            text@ == self.text(),
    {
        unique_id::write(self.0)
    }
}

impl Reflect for MachineId {
    open spec fn reflected() -> Option<TypeView> {
        Some(TypeView::String)
    }

    fn ty() -> (ty: Option<Type>) {
        Some(Type::String)
    }
}

impl IntoValue for MachineId {
    open spec fn valued(self, value: Value) -> bool {
        value matches Value::String(raw) && raw@ == encode_utf8(self.text())
    }

    fn into_value(self) -> (value: Value) {
        self.to_text().into_value()
    }
}

impl FromValue for MachineId {
    open spec fn converts(value: Value, result: Result<MachineId, FromValueError>) -> bool {
        match value {
            Value::String(raw) => if !valid_utf8(raw@) {
                result == Err::<MachineId, FromValueError>(FromValueError::NotText)
            } else {
                match MachineId::read(decode_utf8(raw@)) {
                    Some(id) => result == Ok::<MachineId, FromValueError>(id),
                    None => result == Err::<MachineId, FromValueError>(
                        FromValueError::NotAMachineId,
                    ),
                }
            },
            _ => mismatched(result, Expected::Kind(Kind::String), value),
        }
    }

    fn from_value(value: Value) -> (result: Result<MachineId, FromValueError>)
        ensures
            forall|id: MachineId| #[trigger]
                id.valued(value) ==> result == Ok::<MachineId, FromValueError>(id),
    {
        broadcast use {encode_utf8_valid_utf8, encode_utf8_decode_utf8};

        match String::from_value(value) {
            Ok(text) => match MachineId::parse(text.as_str()) {
                Some(id) => Ok(id),
                None => Err(FromValueError::NotAMachineId),
            },
            Err(err) => Err(err),
        }
    }
}

} // verus!
