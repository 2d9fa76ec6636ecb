//! Services: what a node tells of them.

use bytes::Bytes;
use vstd::prelude::*;
use vstd::std_specs::convert::FromSpecImpl;
use vstd::utf8::{
    decode_utf8, encode_utf8, encode_utf8_decode_utf8, encode_utf8_valid_utf8, valid_utf8,
};
use crate::address::SocketAddr;
use crate::formats::{IntoFormat, Reflect, ReflectError};
use crate::info_record::{
    record_converted_back, record_read_back, InfoRecord, InfoRecordView,
};
use crate::node;
use crate::object;
use crate::os::MachineId;
use crate::payload;
use crate::target::{copy_targets, Target};
use crate::target_text::{
    encoded, networks_of, read_targets, same_targets, target_texts, targets_read,
    targets_read_back, targets_read_once, texts_of,
};
use crate::text::{decimal, decimal_text, from_utf8};
use crate::value::{
    field_views, mismatch, mismatched, push_field, Expected, Field, FromValue, FromValueError,
    IntoValue, Kind, Type, TypeView, Value,
};
use crate::wire;

verus! {

/// The identifier of a service.
#[derive(Clone, Copy, PartialEq, Eq, Structural, PartialOrd, Ord, Hash, Debug, Default)]
pub struct Id(pub u32);

/// The identifier of the object that a service is.
pub const MAIN_OBJECT_ID: u32 = 1;

/// The identifier of a service that no directory has given one yet.
pub const UNSPECIFIED_ID: u32 = 0;

/// What is told of a service.
#[derive(PartialEq, Eq, PartialOrd, Ord, Hash, Debug)]
pub struct Info {
    pub name: String,
    pub id: Id,
    pub machine_id: MachineId,
    pub process_id: u32,
    pub endpoints: Vec<Target>,
    pub node_uid: node::Uid,
    /// Unique identifiers of objects are told as strings that hold raw binary data. They are
    /// therefore not text, and may hold characters that cannot be printed.
    pub object_uid: ObjectUidAsStr,
}

/// What is told of a service, in contracts.
#[verifier::ext_equal]
pub struct InfoView {
    pub name: Seq<char>,
    pub id: Id,
    pub machine_id: MachineId,
    pub process_id: u32,
    pub endpoints: Seq<Target>,
    pub node_uid: Seq<char>,
    pub object_uid: Seq<u8>,
}

impl View for Info {
    type V = InfoView;

    open spec fn view(&self) -> InfoView {
        InfoView {
            name: self.name@,
            id: self.id,
            machine_id: self.machine_id,
            process_id: self.process_id,
            endpoints: self.endpoints@,
            node_uid: self.node_uid.0@,
            object_uid: self.object_uid.0@,
        }
    }
}

impl Default for Info {
    fn default() -> (info: Info)
        ensures
            info@ == (InfoView {
                name: Seq::empty(),
                id: Id(0),
                machine_id: MachineId(0),
                process_id: 0,
                endpoints: Seq::empty(),
                node_uid: Seq::empty(),
                object_uid: Seq::new(20, |i: int| 0u8),
            }),
    {
        Info {
            name: String::new(),
            id: Id(0),
            machine_id: MachineId(0),
            process_id: 0,
            endpoints: Vec::new(),
            node_uid: node::Uid::from_string(String::new()),
            object_uid: ObjectUidAsStr(object::Uid::zero()),
        }
    }
}

impl Info {
    /// What a node tells of a service of its own, on this machine and in this process, that no
    /// directory knows yet.
    pub fn unregistered(
        name: String,
        endpoints: Vec<Target>,
        node_uid: node::Uid,
        object_uid: object::Uid,
        machine_id: MachineId,
        process_id: u32,
    ) -> (info: Info)
        ensures
            info@ == (InfoView {
                name: name@,
                id: Id(UNSPECIFIED_ID),
                machine_id,
                process_id,
                endpoints: endpoints@,
                node_uid: node_uid.0@,
                object_uid: object_uid@,
            }),
    {
        Info::process_local(
            name,
            Id(UNSPECIFIED_ID),
            endpoints,
            node_uid,
            object_uid,
            machine_id,
            process_id,
        )
    }

    /// What a node tells of a service of its own, on this machine and in this process.
    pub fn process_local(
        name: String,
        id: Id,
        endpoints: Vec<Target>,
        node_uid: node::Uid,
        object_uid: object::Uid,
        machine_id: MachineId,
        process_id: u32,
    ) -> (info: Info)
        ensures
            info@ == (InfoView {
                name: name@,
                id,
                machine_id,
                process_id,
                endpoints: endpoints@,
                node_uid: node_uid.0@,
                object_uid: object_uid@,
            }),
    {
        Info {
            name,
            id,
            machine_id,
            process_id,
            endpoints,
            node_uid,
            object_uid: ObjectUidAsStr(object_uid),
        }
    }

    /// The identifier of the service.
    pub fn id(&self) -> (id: Id)
        ensures
            id == self@.id,
    {
        self.id
    }

    /// The machine of the service.
    pub fn machine_id(&self) -> (id: MachineId)
        ensures
            id == self@.machine_id,
    {
        self.machine_id
    }

    /// The process of the service.
    pub fn process_id(&self) -> (id: u32)
        ensures
            id == self@.process_id,
    {
        self.process_id
    }

    /// Where the service can be reached.
    pub fn endpoints(&self) -> (endpoints: &[Target])
        ensures
            endpoints@ == self@.endpoints,
    {
        self.endpoints.as_slice()
    }

    /// The node of the service.
    pub fn node_uid(&self) -> (uid: node::Uid)
        ensures
            uid.0@ == self@.node_uid,
    {
        self.node_uid.clone()
    }

    /// The object that the service is.
    pub fn object_uid(&self) -> (uid: object::Uid)
        ensures
            uid@ == self@.object_uid,
    {
        self.object_uid.0
    }
}

impl Clone for Info {
    fn clone(&self) -> (copy: Info)
        ensures
            copy@ == self@,
    {
        Info {
            name: self.name.clone(),
            id: self.id,
            machine_id: self.machine_id,
            process_id: self.process_id,
            endpoints: copy_targets(&self.endpoints),
            node_uid: self.node_uid.clone(),
            object_uid: self.object_uid,
        }
    }
}

/// The unique identifier of an object as a string.
#[derive(Clone, Copy, PartialEq, Eq, PartialOrd, Ord, Hash, Debug)]
pub struct ObjectUidAsStr(pub object::Uid);

impl From<object::Uid> for ObjectUidAsStr {
    fn from(uid: object::Uid) -> (result: ObjectUidAsStr) {
        ObjectUidAsStr(uid)
    }
}

impl FromSpecImpl<object::Uid> for ObjectUidAsStr {
    open spec fn obeys_from_spec() -> bool {
        true
    }

    open spec fn from_spec(uid: object::Uid) -> ObjectUidAsStr {
        ObjectUidAsStr(uid)
    }
}

impl From<ObjectUidAsStr> for object::Uid {
    fn from(uid: ObjectUidAsStr) -> (result: object::Uid) {
        uid.0
    }
}

impl FromSpecImpl<ObjectUidAsStr> for object::Uid {
    open spec fn obeys_from_spec() -> bool {
        true
    }

    open spec fn from_spec(uid: ObjectUidAsStr) -> object::Uid {
        uid.0
    }
}

impl Default for ObjectUidAsStr {
    fn default() -> (uid: ObjectUidAsStr)
        ensures
            uid.0@ == Seq::new(20, |i: int| 0u8),
    {
        ObjectUidAsStr(object::Uid::zero())
    }
}

impl ObjectUidAsStr {
    /// The identifier as a value: a string of its bytes.
    pub fn to_value(&self) -> (value: Value)
        ensures
            value matches Value::String(raw) && raw@ == self.0@,
    {
        Value::String(slice_to_vec(self.0.bytes()))
    }

    /// The identifier that a string of raw bytes holds.
    pub fn from_raw(raw: &[u8]) -> (result: Result<ObjectUidAsStr, FromValueError>)
        ensures
            if raw@.len() == 20 {
                result is Ok && result->Ok_0.0@ == raw@
            } else {
                result == Err::<ObjectUidAsStr, FromValueError>(
                    FromValueError::Length { wanted: 20, found: raw@.len() as usize },
                )
            },
    {
        match object::Uid::from_slice(raw) {
            Some(uid) => Ok(ObjectUidAsStr(uid)),
            None => Err(FromValueError::Length { wanted: 20, found: raw.len() }),
        }
    }

    /// Reads the identifier out of a payload: the string that the payload starts with.
    pub fn to_reflect_value(payload: &Bytes) -> (result: Result<ObjectUidAsStr, ReflectError>)
        ensures
            match wire::string_at(payload::contents(*payload), 0) {
                Ok((raw, _)) => if raw.len() == 20 {
                    result is Ok && result->Ok_0.0@ == raw
                } else {
                    result == Err::<ObjectUidAsStr, ReflectError>(
                        ReflectError::Conversion(
                            FromValueError::Length { wanted: 20, found: raw.len() as usize },
                        ),
                    )
                },
                Err(err) => result == Err::<ObjectUidAsStr, ReflectError>(ReflectError::Format(err)),
            },
    {
        match wire::read_string(payload::as_slice(payload), 0) {
            Err(err) => Err(ReflectError::Format(err)),
            Ok((raw, _)) => match ObjectUidAsStr::from_value(Value::String(raw)) {
                Ok(uid) => Ok(uid),
                Err(err) => Err(ReflectError::Conversion(err)),
            },
        }
    }
}

impl IntoFormat for ObjectUidAsStr {
    /// Writes the identifier into a payload, as the string of its bytes.
    fn into_format(self) -> (result: Result<Bytes, wire::Error>)
        ensures
            result is Ok,
            payload::contents(result->Ok_0) == wire::string_bytes(self.0@),
    {
        let mut bytes: Vec<u8> = Vec::new();
        proof {
            self.0.length();
        }
        match wire::write_string(&mut bytes, self.0.bytes()) {
            Ok(()) => {
                assert(bytes@ =~= wire::string_bytes(self.0@));
                Ok(payload::from_vec(bytes))
            },
            Err(err) => Err(err),
        }
    }
}

impl Reflect for ObjectUidAsStr {
    open spec fn reflected() -> Option<TypeView> {
        Some(TypeView::String)
    }

    fn ty() -> (ty: Option<Type>) {
        Some(Type::String)
    }
}

impl IntoValue for ObjectUidAsStr {
    open spec fn valued(self, value: Value) -> bool {
        value matches Value::String(raw) && raw@ == self.0@
    }

    fn into_value(self) -> (value: Value) {
        self.to_value()
    }
}

impl FromValue for ObjectUidAsStr {
    open spec fn converts(value: Value, result: Result<ObjectUidAsStr, FromValueError>) -> bool {
        match value {
            Value::String(raw) => if raw@.len() == 20 {
                result is Ok && result->Ok_0.0@ == raw@
            } else {
                result == Err::<ObjectUidAsStr, FromValueError>(
                    FromValueError::Length { wanted: 20, found: raw@.len() as usize },
                )
            },
            _ => mismatched(result, Expected::ObjectUid, value),
        }
    }

    fn from_value(value: Value) -> (result: Result<ObjectUidAsStr, FromValueError>) {
        match value {
            Value::String(raw) => ObjectUidAsStr::from_raw(raw.as_slice()),
            other => Err(mismatch(Expected::ObjectUid, &other)),
        }
    }
}

/// The unique identifier of an object that is converted to a value and back is the same one.
pub proof fn object_uid_converted_back(
    uid: ObjectUidAsStr,
    value: Value,
    result: Result<ObjectUidAsStr, FromValueError>,
)
    requires
        uid.valued(value),
        ObjectUidAsStr::converts(value, result),
    ensures
        result is Ok,
        result->Ok_0.0@ == uid.0@,
{
    uid.0.length();
}

impl Reflect for Id {
    open spec fn reflected() -> Option<TypeView> {
        Some(TypeView::UInt32)
    }

    fn ty() -> (ty: Option<Type>) {
        Some(Type::UInt32)
    }
}

impl IntoValue for Id {
    open spec fn valued(self, value: Value) -> bool {
        value == Value::UInt32(self.0)
    }

    fn into_value(self) -> (value: Value) {
        Value::UInt32(self.0)
    }
}

impl FromValue for Id {
    open spec fn converts(value: Value, result: Result<Id, FromValueError>) -> bool {
        match value {
            Value::UInt32(n) => result == Ok::<Id, FromValueError>(Id(n)),
            _ => mismatched(result, Expected::Kind(Kind::UInt32), value),
        }
    }

    fn from_value(value: Value) -> (result: Result<Id, FromValueError>) {
        match u32::from_value(value) {
            Ok(n) => Ok(Id(n)),
            Err(err) => Err(err),
        }
    }
}

/// The identifier of an object that is read out of a payload is the one that was written into it.
pub proof fn object_uid_read_back(uid: object::Uid)
    ensures
        wire::string_at(wire::string_bytes(uid@), 0) == Ok::<(Seq<u8>, int), wire::Error>(
            (uid@, wire::string_bytes(uid@).len() as int),
        ),
        uid@.len() == 20,
{
    uid.length();
    let none = Seq::<u8>::empty();
    wire::string_read_back(uid@, none, none);
    assert(none + wire::string_bytes(uid@) + none =~= wire::string_bytes(uid@));
    assert(none + wire::string_bytes(uid@) =~= wire::string_bytes(uid@));
}

/// The bytes of a slice.
fn slice_to_vec(bytes: &[u8]) -> (copy: Vec<u8>)
    ensures
        copy@ == bytes@,
{
    let mut copy: Vec<u8> = Vec::new();
    let mut i: usize = 0;
    while i < bytes.len()
        invariant
            i <= bytes@.len(),
            copy@ == bytes@.take(i as int),
        decreases bytes@.len() - i,
    {
        copy.push(bytes[i]);
        i += 1;
        assert(copy@ =~= bytes@.take(i as int));
    }
    assert(bytes@.take(bytes@.len() as int) =~= bytes@);
    copy
}

impl InfoView {
    /// The record of the information. `networks` are the texts of the network addresses of its
    /// endpoints, at the same positions.
    pub open spec fn record(self, networks: Seq<String>) -> InfoRecordView {
        InfoRecordView {
            name: encode_utf8(self.name),
            service_id: self.id.0,
            machine_id: encode_utf8(self.machine_id.text()),
            process_id: self.process_id,
            endpoints: encoded(texts_of(self.endpoints, networks)),
            session_id: encode_utf8(self.node_uid),
            object_uid: self.object_uid,
        }
    }

    /// Whether something is what a record says. `networks` are what the texts of the network
    /// addresses stand for that the texts of its endpoints hold, at the same positions.
    pub open spec fn says(
        record: InfoRecordView,
        networks: Seq<Option<SocketAddr>>,
        result: Result<InfoView, FromValueError>,
    ) -> bool {
        if !valid_utf8(record.name) {
            result == Err::<InfoView, FromValueError>(FromValueError::NotText)
        } else if !valid_utf8(record.machine_id) {
            result == Err::<InfoView, FromValueError>(FromValueError::NotText)
        } else if MachineId::read(decode_utf8(record.machine_id)) is None {
            result == Err::<InfoView, FromValueError>(FromValueError::NotAMachineId)
        } else if targets_read(record.endpoints, networks, None) {
            result == Err::<InfoView, FromValueError>(FromValueError::NotATarget)
        } else if !valid_utf8(record.session_id) {
            result == Err::<InfoView, FromValueError>(FromValueError::NotText)
        } else if record.object_uid.len() != 20 {
            result == Err::<InfoView, FromValueError>(
                FromValueError::Length { wanted: 20, found: record.object_uid.len() as usize },
            )
        } else {
            &&& result is Ok
            &&& targets_read(record.endpoints, networks, Some(result->Ok_0.endpoints))
            &&& result->Ok_0 == (InfoView {
                name: decode_utf8(record.name),
                id: Id(record.service_id),
                machine_id: MachineId::read(decode_utf8(record.machine_id))->Some_0,
                process_id: record.process_id,
                endpoints: result->Ok_0.endpoints,
                node_uid: decode_utf8(record.session_id),
                object_uid: record.object_uid,
            })
        }
    }

    /// Whether two tell the same.
    pub open spec fn same(self, other: InfoView) -> bool {
        &&& self == (InfoView { endpoints: self.endpoints, ..other })
        &&& same_targets(self.endpoints, other.endpoints)
    }
}

/// What a conversion gives, in contracts.
pub open spec fn viewed(result: Result<Info, FromValueError>) -> Result<InfoView, FromValueError> {
    match result {
        Ok(info) => Ok(info@),
        Err(err) => Err(err),
    }
}

/// The record of information says that information, where the texts of the network addresses of
/// its endpoints stand for those addresses, and the text of its machine for that machine.
proof fn record_says_the_info(
    info: InfoView,
    texts: Seq<String>,
    networks: Seq<Option<SocketAddr>>,
    result: Result<InfoView, FromValueError>,
)
    requires
        info.object_uid.len() == 20,
        networks_of(info.endpoints, networks),
        MachineId::read(info.machine_id.text()) == Some(info.machine_id),
        InfoView::says(info.record(texts), networks, result),
    ensures
        result is Ok,
        result->Ok_0.same(info),
{
    broadcast use {encode_utf8_valid_utf8, encode_utf8_decode_utf8};

    let record = info.record(texts);
    if targets_read(record.endpoints, networks, None) {
        targets_read_back(info.endpoints, texts, networks, None);
    }
    targets_read_back(info.endpoints, texts, networks, Some(result->Ok_0.endpoints));
}

impl Info {
    /// The record of the information. `networks` are the texts of the network addresses of its
    /// endpoints, at the same positions.
    pub fn to_record(&self, networks: &Vec<String>) -> (record: InfoRecord)
        ensures
            record@ == self@.record(networks@),
    {
        let texts = target_texts(&self.endpoints, networks);
        let ghost rendered = texts_of(self@.endpoints, networks@);
        let mut endpoints: Vec<Vec<u8>> = Vec::new();
        let mut i: usize = 0;
        while i < texts.len()
            invariant
                i <= texts@.len(),
                texts@.map_values(|text: String| text@) == rendered,
                endpoints@.len() == i,
                forall|j: int|
                    0 <= j < i ==> (#[trigger] endpoints@[j])@ == encode_utf8(texts@[j]@),
            decreases texts@.len() - i,
        {
            endpoints.push(texts[i].as_str().as_bytes_vec());
            i += 1;
        }
        assert(texts@.len() == rendered.len());
        assert forall|j: int| 0 <= j < texts@.len() implies (#[trigger] texts@[j])@ == rendered[j] by {
            assert(texts@.map_values(|text: String| text@)[j] == texts@[j]@);
        }
        assert(wire::raw_strings(endpoints@) =~= encoded(rendered));
        InfoRecord {
            name: self.name.as_str().as_bytes_vec(),
            service_id: self.id.0,
            machine_id: self.machine_id.to_text().as_str().as_bytes_vec(),
            process_id: self.process_id,
            endpoints,
            session_id: self.node_uid.0.as_str().as_bytes_vec(),
            object_uid: slice_to_vec(self.object_uid.0.bytes()),
        }
    }

    /// What a record says. `networks` are what the texts of the network addresses stand for that
    /// the texts of its endpoints hold, at the same positions. The record of information says that
    /// information.
    pub fn from_record(record: InfoRecord, networks: &Vec<Option<SocketAddr>>) -> (result: Result<
        Info,
        FromValueError,
    >)
        ensures
            InfoView::says(record@, networks@, viewed(result)),
            forall|info: InfoView, texts: Seq<String>|
                record@ == #[trigger] info.record(texts) && networks_of(info.endpoints, networks@)
                    && info.object_uid.len() == 20 ==> result is Ok && result->Ok_0@.same(info),
    {
        broadcast use {encode_utf8_valid_utf8, encode_utf8_decode_utf8};

        let ghost given = record@;
        let name = match from_utf8(record.name) {
            Some(name) => name,
            None => return Err(FromValueError::NotText),
        };
        let machine = match from_utf8(record.machine_id) {
            Some(machine) => machine,
            None => return Err(FromValueError::NotText),
        };
        let parsed = MachineId::parse(machine.as_str());
        proof {
            assert forall|info: InfoView, texts: Seq<String>, said: Result<InfoView, FromValueError>|
                given == #[trigger] info.record(texts) && networks_of(info.endpoints, networks@)
                    && info.object_uid.len() == 20 && #[trigger] InfoView::says(
                    given,
                    networks@,
                    said,
                ) implies said is Ok && said->Ok_0.same(info) by {
                assert(machine@ == info.machine_id.text());
                record_says_the_info(info, texts, networks@, said);
            }
        }
        let machine_id = match parsed {
            Some(machine_id) => machine_id,
            None => {
                assert(InfoView::says(given, networks@, Err(FromValueError::NotAMachineId)));
                return Err(FromValueError::NotAMachineId);
            },
        };
        let endpoints = match read_targets(&record.endpoints, networks) {
            Some(endpoints) => endpoints,
            None => {
                assert(InfoView::says(given, networks@, Err(FromValueError::NotATarget)));
                return Err(FromValueError::NotATarget);
            },
        };
        proof {
            targets_read_once(given.endpoints, networks@, endpoints@);
        }
        let node_uid = match from_utf8(record.session_id) {
            Some(node_uid) => node_uid,
            None => {
                assert(InfoView::says(given, networks@, Err(FromValueError::NotText)));
                return Err(FromValueError::NotText);
            },
        };
        let object_uid = match ObjectUidAsStr::from_raw(record.object_uid.as_slice()) {
            Ok(object_uid) => object_uid,
            Err(err) => {
                assert(InfoView::says(given, networks@, Err(err)));
                return Err(err);
            },
        };
        let info = Info {
            name,
            id: Id(record.service_id),
            machine_id,
            process_id: record.process_id,
            endpoints,
            node_uid: node::Uid(node_uid),
            object_uid,
        };
        assert(InfoView::says(given, networks@, Ok(info@)));
        Ok(info)
    }
}

impl Info {
    /// Writes the information into a payload, as its record. `networks` are the texts of the
    /// network addresses of its endpoints, at the same positions. A record with a length that does
    /// not fit is refused.
    pub fn into_format(&self, networks: &Vec<String>) -> (result: Result<Bytes, wire::Error>)
        ensures
            self@.record(networks@).fits() ==> result is Ok && payload::contents(result->Ok_0)
                == self@.record(networks@).bytes(),
            !self@.record(networks@).fits() ==> result == Err::<Bytes, wire::Error>(
                wire::Error::TooLong,
            ),
    {
        self.to_record(networks).into_format()
    }

    /// Reads the information out of a payload that starts with its record. `networks` are what the
    /// texts of the network addresses stand for that the texts of its endpoints hold, at the same
    /// positions. Information that is read is the information that was written.
    pub fn to_reflect_value(payload: &Bytes, networks: &Vec<Option<SocketAddr>>) -> (result: Result<
        Info,
        ReflectError,
    >)
        ensures
            match InfoRecordView::read(payload::contents(*payload)) {
                Err(err) => result == Err::<Info, ReflectError>(ReflectError::Format(err)),
                Ok(record) => match result {
                    Ok(info) => InfoView::says(record, networks@, Ok(info@)),
                    Err(ReflectError::Conversion(err)) => InfoView::says(
                        record,
                        networks@,
                        Err(err),
                    ),
                    Err(_) => false,
                },
            },
            forall|info: InfoView, texts: Seq<String>|
                payload::contents(*payload) == (#[trigger] info.record(texts)).bytes()
                    && info.record(texts).fits() && networks_of(info.endpoints, networks@)
                    && info.object_uid.len() == 20 ==> result is Ok && result->Ok_0@.same(info),
    {
        proof {
            assert forall|info: InfoView, texts: Seq<String>|
                payload::contents(*payload) == (#[trigger] info.record(texts)).bytes()
                    && info.record(texts).fits() implies InfoRecordView::read(
                payload::contents(*payload),
            ) == Ok::<InfoRecordView, wire::Error>(info.record(texts)) by {
                let none = Seq::<u8>::empty();
                record_read_back(info.record(texts), none, none);
                assert(none + info.record(texts).bytes() + none =~= info.record(texts).bytes());
            }
        }
        match InfoRecord::read(payload::as_slice(payload)) {
            Err(err) => Err(ReflectError::Format(err)),
            Ok(record) => match Info::from_record(record, networks) {
                Ok(info) => Ok(info),
                Err(err) => Err(ReflectError::Conversion(err)),
            },
        }
    }
}

/// Information that is converted to a value and back is the same information: its record comes back
/// from the value, and the record says the information.
pub proof fn info_converted_back(
    info: InfoView,
    networks: Seq<String>,
    record: InfoRecord,
    value: Value,
    back: Result<InfoRecord, FromValueError>,
    addresses: &Vec<Option<SocketAddr>>,
    result: Result<Info, FromValueError>,
)
    requires
        record@ == info.record(networks),
        record.valued(value),
        InfoRecord::converts(value, back),
        networks_of(info.endpoints, addresses@),
        info.object_uid.len() == 20,
        back is Ok ==> call_ensures(Info::from_record, (back->Ok_0, addresses), result),
    ensures
        back is Ok,
        result is Ok,
        result->Ok_0@.same(info),
{
    record_converted_back(record, value, back);
    assert(back->Ok_0@ == info.record(networks));
}

/// Texts, one right after the other.
pub open spec fn joined(texts: Seq<Seq<char>>) -> Seq<char>
    decreases texts.len(),
{
    if texts.len() == 0 {
        Seq::empty()
    } else {
        joined(texts.drop_last()) + texts.last()
    }
}

impl InfoView {
    /// The text of the information. `networks` are the texts of the network addresses of its
    /// endpoints, at the same positions, and `object` is the text of the unique identifier of the
    /// object.
    pub open spec fn text(self, networks: Seq<String>, object: Seq<char>) -> Seq<char> {
        self.name + "("@ + decimal(self.id.0 as nat) + ", machine="@ + self.machine_id.text()
            + ", process="@ + decimal(self.process_id as nat) + ", endpoints=["@ + joined(
            texts_of(self.endpoints, networks),
        ) + "], node="@ + self.node_uid + ", object="@ + object + ")"@
    }
}

impl Info {
    /// Renders the information. `networks` are the texts of the network addresses of its endpoints,
    /// at the same positions, and `object` is the text of the unique identifier of the object.
    pub fn to_text(&self, networks: &Vec<String>, object: &String) -> (text: String)
        ensures
            text@ == self@.text(networks@, object@),
    {
        let mut text = self.name.clone();
        text.append("(");
        text.append(decimal_text(self.id.0).as_str());
        text.append(", machine=");
        text.append(self.machine_id.to_text().as_str());
        text.append(", process=");
        text.append(decimal_text(self.process_id).as_str());
        text.append(", endpoints=[");
        let ghost head = text@;
        let endpoints = target_texts(&self.endpoints, networks);
        let ghost texts = endpoints@.map_values(|text: String| text@);
        let mut i: usize = 0;
        assert(head =~= head + joined(texts.take(0)));
        while i < endpoints.len()
            invariant
                i <= endpoints@.len(),
                texts == endpoints@.map_values(|text: String| text@),
                text@ == head + joined(texts.take(i as int)),
            decreases endpoints@.len() - i,
        {
            text.append(endpoints[i].as_str());
            proof {
                let next = texts.take(i + 1);
                assert(next.drop_last() =~= texts.take(i as int));
                assert(text@ =~= head + joined(next));
            }
            i += 1;
        }
        assert(texts.take(texts.len() as int) =~= texts);
        text.append("], node=");
        text.append(self.node_uid.0.as_str());
        text.append(", object=");
        text.append(object.as_str());
        text.append(")");
        text
    }
}

/// The type of the information on a service, in contracts.
pub open spec fn info_type_view() -> TypeView {
    TypeView::Struct {
        name: "Info"@,
        fields: seq![
            ("name"@, TypeView::String),
            ("serviceId"@, TypeView::UInt32),
            ("machineId"@, TypeView::String),
            ("processId"@, TypeView::UInt32),
            ("endpoints"@, TypeView::List(Box::new(TypeView::String))),
            ("sessionId"@, TypeView::String),
            ("objectUid"@, TypeView::String),
        ],
    }
}

/// The type of the information on a service.
pub fn info_type() -> (ty: Type)
    ensures
        ty.view() == info_type_view(),
{
    let mut fields: Vec<Field> = Vec::new();
    push_field(&mut fields, "name", Type::String);
    push_field(&mut fields, "serviceId", Type::UInt32);
    push_field(&mut fields, "machineId", Type::String);
    push_field(&mut fields, "processId", Type::UInt32);
    push_field(&mut fields, "endpoints", Type::List(Box::new(Type::String)));
    push_field(&mut fields, "sessionId", Type::String);
    push_field(&mut fields, "objectUid", Type::String);
    let ty = Type::Struct { name: "Info".to_owned(), fields };
    proof {
        reveal_with_fuel(Type::view, 2);
        assert(Type::List(Box::new(Type::String)).view() == TypeView::List(
            Box::new(TypeView::String),
        ));
        assert(field_views(fields@) =~= info_type_view()->fields);
    }
    ty
}

} // verus!
