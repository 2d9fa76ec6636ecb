//! Objects: how requests to them are addressed, and what they are asked.

use vstd::prelude::*;
use crate::error::{BoxError, Error, ValueConversionError};
use crate::message;
use crate::meta::{
    find_method, find_signal, ActionId, ActionName, ActionNameOrId, MetaMethod, MetaObject,
    MetaProperty, MetaSignal,
};
use crate::service;
use crate::signal::Link;
use crate::value::{Dynamic, FromValue, FromValueError, IntoValue, Signature, Type, Value};
use crate::wire::{number_bytes, number_read_back, write_number};

verus! {

/// The identifier of an object of a service.
#[derive(Clone, Copy, PartialEq, Eq, Structural, PartialOrd, Ord, Hash, Debug, Default)]
pub struct Id(pub u32);

/// The number of bytes of the unique identifier of an object.
pub const UID_LENGTH: usize = 20;

/// The unique identifier of an object.
#[derive(Clone, Copy, PartialEq, Eq, PartialOrd, Ord, Hash, Debug)]
pub struct Uid([u8; 20]);

impl Default for Uid {
    fn default() -> (uid: Uid)
        ensures
            uid@ == Seq::new(20, |i: int| 0u8),
    {
        Uid::zero()
    }
}

impl View for Uid {
    type V = Seq<u8>;

    closed spec fn view(&self) -> Seq<u8> {
        self.0@
    }
}

impl Uid {
    /// The identifier that is made of the given bytes.
    pub fn from_bytes(bytes: [u8; 20]) -> (uid: Uid)
        ensures
            uid@ == bytes@,
    {
        Uid(bytes)
    }

    /// The identifier whose bytes are all zero.
    pub fn zero() -> (uid: Uid)
        ensures
            uid@ == Seq::new(20, |i: int| 0u8),
    {
        let bytes: [u8; 20] = [0, 0, 0, 0, 0, 0, 0, 0, 0, 0, 0, 0, 0, 0, 0, 0, 0, 0, 0, 0];
        assert(bytes@ =~= Seq::new(20, |i: int| 0u8));
        Uid(bytes)
    }

    /// The identifier that a slice holds, if it holds one and nothing else.
    pub fn from_slice(bytes: &[u8]) -> (uid: Option<Uid>)
        ensures
            match uid {
                Some(uid) => bytes@.len() == 20 && uid@ == bytes@,
                None => bytes@.len() != 20,
            },
    {
        if bytes.len() != UID_LENGTH {
            return None;
        }
        let mut array: [u8; 20] = [0u8; 20];
        let mut i: usize = 0;
        while i < 20
            invariant
                i <= 20,
                bytes@.len() == 20,
                array@.len() == 20,
                forall|j: int| 0 <= j < i ==> array@[j] == bytes@[j],
            decreases 20 - i,
        {
            array[i] = bytes[i];
            i += 1;
        }
        assert(array@ =~= bytes@);
        Some(Uid(array))
    }

    /// An identifier has twenty bytes.
    pub broadcast proof fn length(self)
        ensures
            #[trigger] self@.len() == 20,
    {
    }

    /// The bytes of the identifier.
    pub fn bytes(&self) -> (bytes: &[u8])
        ensures
            bytes@ == self@,
    {
        self.0.as_slice()
    }
}

/// Tells where a value stands in memory, with the `addr` of a pointer to it. Nothing is claimed of
/// the answer, which rests on the machine.
#[verifier::external_body]
fn address_of<T: ?Sized>(value: &T) -> usize {
    core::ptr::from_ref(value).addr()
}

/// Whether a value may stand at an address in memory.
pub closed spec fn stands_at<T: ?Sized>(value: &T, address: usize) -> bool {
    call_ensures(address_of::<T>, (value,), address)
}

/// The bytes of the identifier that is made of an address in memory: those of the address, the
/// least significant one first, and zeros.
pub open spec fn address_uid(address: usize) -> Seq<u8> {
    number_bytes((address as u64 % 0x1_0000_0000) as u32) + number_bytes(
        (address as u64 / 0x1_0000_0000) as u32,
    ) + Seq::new(12, |i: int| 0u8)
}

impl Uid {
    /// The identifier that is made of an address in memory.
    pub fn from_address(address: usize) -> (uid: Uid)
        ensures
            uid@ == address_uid(address),
    {
        let mut bytes: Vec<u8> = Vec::new();
        write_number(&mut bytes, (address as u64 % 0x1_0000_0000) as u32);
        write_number(&mut bytes, (address as u64 / 0x1_0000_0000) as u32);
        let ghost numbers = bytes@;
        let mut i: usize = 0;
        while i < 12
            invariant
                i <= 12,
                bytes@ == numbers + Seq::new(i as nat, |j: int| 0u8),
            decreases 12 - i,
        {
            bytes.push(0);
            i += 1;
            assert(bytes@ =~= numbers + Seq::new(i as nat, |j: int| 0u8));
        }
        proof {
            reveal(number_bytes);
            assert(bytes@ =~= address_uid(address));
        }
        match Uid::from_slice(bytes.as_slice()) {
            Some(uid) => uid,
            None => Uid::zero(),
        }
    }

    /// The identifier that is made of the address of a value in memory.
    pub fn from_ptr<T: ?Sized>(value: &T) -> (uid: Uid)
        ensures
            exists|address: usize| #[trigger]
                stands_at(value, address) && uid@ == address_uid(address),
    {
        let address: usize = address_of(value);
        assert(stands_at(value, address));
        Uid::from_address(address)
    }
}

/// Identifiers that are made of different addresses are different.
pub proof fn addresses_give_different_uids(a: usize, b: usize)
    requires
        address_uid(a) == address_uid(b),
    ensures
        a == b,
{
    let none = Seq::<u8>::empty();
    let zeros = Seq::new(12, |i: int| 0u8);
    let (p, q) = (
        (a as u64 % 0x1_0000_0000) as u32,
        (a as u64 / 0x1_0000_0000) as u32,
    );
    let (r, s) = (
        (b as u64 % 0x1_0000_0000) as u32,
        (b as u64 / 0x1_0000_0000) as u32,
    );
    number_read_back(p, none, number_bytes(q) + zeros);
    number_read_back(r, none, number_bytes(s) + zeros);
    number_read_back(q, number_bytes(p), zeros);
    number_read_back(s, number_bytes(r), zeros);
    assert(none + number_bytes(p) + (number_bytes(q) + zeros) =~= address_uid(a));
    assert(none + number_bytes(r) + (number_bytes(s) + zeros) =~= address_uid(b));
    assert(number_bytes(p).len() == number_bytes(r).len()) by {
        reveal(number_bytes);
    }
}

/// The identifier of the action that gives what an object tells of itself.
pub const ACTION_ID_METAOBJECT: u32 = 2;

/// The identifier of the action that gives the value of a property. This is not a typo: there is
/// no action 4.
pub const ACTION_ID_PROPERTY: u32 = 5;

/// The identifier of the action that sets the value of a property.
pub const ACTION_ID_SET_PROPERTY: u32 = 6;

/// The first identifier of the actions that objects define themselves.
pub const ACTION_START_ID: u32 = 100;

impl IntoValue for ActionNameOrId {
    open spec fn valued(self, value: Value) -> bool {
        match self {
            ActionNameOrId::Id(id) => value == Value::UInt32(id.0),
            ActionNameOrId::Name(name) => name.valued(value),
        }
    }

    fn into_value(self) -> (value: Value) {
        match self {
            ActionNameOrId::Id(id) => Value::UInt32(id.0),
            ActionNameOrId::Name(name) => name.into_value(),
        }
    }
}

/// An object: what it tells of itself, and the requests that it takes.
pub trait Object {
    /// What the object tells of itself.
    fn meta(&self) -> (meta: &MetaObject);

    /// Calls a method.
    fn meta_call(&self, name_or_id: ActionNameOrId, args: Value) -> (result: Result<Value, Error>);

    /// Posts to a method or a signal, which is not answered.
    fn meta_post(&self, name_or_id: ActionNameOrId, value: Value);

    /// Sends the value of a signal.
    fn meta_event(&self, name_or_id: ActionNameOrId, value: Value);

    /// The unique identifier of the object. An object that does not say otherwise is identified by
    /// its address in memory.
    fn uid(&self) -> (uid: Uid)
        default_ensures
            exists|address: usize| #[trigger]
                stands_at(self, address) && uid@ == address_uid(address),
    {
        Uid::from_ptr(self)
    }
}

/// What a call gives, where the method that was called gave `called`.
pub open spec fn returned<R: FromValue>(
    called: Result<Value, Error>,
    result: Result<R, Error>,
) -> bool {
    match called {
        Err(err) => result == Err::<R, Error>(err),
        Ok(value) => match result {
            Ok(r) => R::converts(value, Ok(r)),
            Err(Error::Other(BoxError::ValueConversion(ValueConversionError::MethodReturnValue(err)))) =>
                R::converts(value, Err(err)),
            Err(_) => false,
        },
    }
}

/// Converts what a method gave.
pub fn return_value<R: FromValue>(called: Result<Value, Error>) -> (result: Result<R, Error>)
    ensures
        returned(called, result),
{
    match called {
        Err(err) => Err(err),
        Ok(value) => match R::from_value(value) {
            Ok(r) => Ok(r),
            Err(err) => Err(
                Error::Other(BoxError::ValueConversion(ValueConversionError::MethodReturnValue(err))),
            ),
        },
    }
}

/// The names of properties.
pub open spec fn property_names(properties: Seq<MetaProperty>) -> Seq<Seq<char>> {
    properties.map_values(|property: MetaProperty| property.name@)
}

/// The names of the properties of a list.
pub fn names_of(properties: &Vec<MetaProperty>) -> (names: Vec<String>)
    ensures
        names@.map_values(|name: String| name@) == property_names(properties@),
{
    let mut names: Vec<String> = Vec::new();
    let mut i: usize = 0;
    while i < properties.len()
        invariant
            i <= properties@.len(),
            names@.len() == i,
            forall|j: int| 0 <= j < i ==> (#[trigger] names@[j])@ == properties@[j].name@,
        decreases properties@.len() - i,
    {
        names.push(properties[i].name.clone());
        i += 1;
    }
    assert(names@.map_values(|name: String| name@) =~= property_names(properties@));
    names
}

/// The call that gets the value of a property: its action and its arguments.
pub fn property_request(name_or_id: ActionNameOrId) -> (request: (ActionNameOrId, Value))
    ensures
        request.0 == ActionNameOrId::Id(ActionId(ACTION_ID_PROPERTY)),
        Dynamic(name_or_id).valued(request.1),
{
    (ActionNameOrId::Id(ActionId(ACTION_ID_PROPERTY)), Dynamic(name_or_id).into_value())
}

/// The call that sets the value of a property: its action and its arguments.
pub fn set_property_request<T: IntoValue>(name_or_id: ActionNameOrId, value: T) -> (request: (
    ActionNameOrId,
    Value,
))
    ensures
        request.0 == ActionNameOrId::Id(ActionId(ACTION_ID_SET_PROPERTY)),
        (Dynamic(name_or_id), Dynamic(value)).valued(request.1),
{
    (
        ActionNameOrId::Id(ActionId(ACTION_ID_SET_PROPERTY)),
        (Dynamic(name_or_id), Dynamic(value)).into_value(),
    )
}

/// Requests to objects with converted arguments and results.
pub trait ObjectExt: Object {
    /// Calls a method: hands it the converted arguments, and converts what it gives.
    fn call<R: FromValue, T: IntoValue>(&self, name_or_id: ActionNameOrId, args: T) -> (result: Result<
        R,
        Error,
    >)
        ensures
            exists|value: Value, called: Result<Value, Error>| #[trigger]
                call_ensures(Self::meta_call, (self, name_or_id, value), called) && args.valued(
                    value,
                ) && returned(called, result),
    {
        let value = args.into_value();
        let ghost given = value;
        let ghost ident = name_or_id;
        let called = self.meta_call(name_or_id, value);
        assert(call_ensures(Self::meta_call, (self, ident, given), called));
        return_value(called)
    }

    /// Gets the value of a property.
    fn property<R: FromValue>(&self, name_or_id: ActionNameOrId) -> (result: Result<R, Error>)
        ensures
            exists|value: Value, called: Result<Value, Error>| #[trigger]
                call_ensures(
                    Self::meta_call,
                    (self, ActionNameOrId::Id(ActionId(ACTION_ID_PROPERTY)), value),
                    called,
                ) && Dynamic(name_or_id).valued(value) && returned(called, result),
    {
        let (action, args) = property_request(name_or_id);
        self.call(action, args)
    }

    /// Sets the value of a property.
    fn set_property<T: IntoValue>(&self, name_or_id: ActionNameOrId, value: T) -> (result: Result<
        (),
        Error,
    >)
        ensures
            exists|args: Value, called: Result<Value, Error>| #[trigger]
                call_ensures(
                    Self::meta_call,
                    (self, ActionNameOrId::Id(ActionId(ACTION_ID_SET_PROPERTY)), args),
                    called,
                ) && (Dynamic(name_or_id), Dynamic(value)).valued(args) && returned(called, result),
    {
        let (action, args) = set_property_request(name_or_id, value);
        self.call(action, args)
    }

    /// The names of the properties of the object.
    fn properties(&self) -> (names: Vec<String>)
        ensures
            exists|meta: &MetaObject| #[trigger]
                call_ensures(Self::meta, (self,), meta) && names@.map_values(|name: String| name@)
                    == property_names(meta.properties@),
    {
        let meta = self.meta();
        assert(call_ensures(Self::meta, (self,), meta));
        names_of(&meta.properties)
    }
}

impl<O: Object> ObjectExt for O {

}

/// What a post is for: a method, or a signal where no method is meant.
#[derive(Debug)]
pub enum PostAction<'a> {
    Method(&'a MetaMethod),
    Signal(&'a MetaSignal),
}

/// The identifier and the signature of what a post is for, in contracts.
pub open spec fn post_action(meta: MetaObject, ident: ActionName) -> Option<(ActionId, Signature)> {
    match find_method(meta.methods@, ident) {
        Some(method) => Some((method.uid, method.parameters_signature)),
        None => match find_signal(meta.signals@, ident) {
            Some(signal) => Some((signal.uid, signal.signature)),
            None => None,
        },
    }
}

impl<'a> PostAction<'a> {
    /// The identifier of the action, in contracts.
    pub open spec fn spec_action_id(self) -> ActionId {
        match self {
            PostAction::Method(method) => method.uid,
            PostAction::Signal(signal) => signal.uid,
        }
    }

    /// The signature of the parameters of the action, in contracts.
    pub open spec fn spec_parameters_signature(self) -> Signature {
        match self {
            PostAction::Method(method) => method.parameters_signature,
            PostAction::Signal(signal) => signal.signature,
        }
    }

    /// What a post to an object is for.
    pub fn get(meta: &'a MetaObject, name_or_id: &ActionNameOrId) -> (action: Option<PostAction<'a>>)
        ensures
            match action {
                Some(PostAction::Method(method)) => find_method(meta.methods@, name_or_id@) == Some(
                    *method,
                ),
                Some(PostAction::Signal(signal)) => find_method(meta.methods@, name_or_id@) is None
                    && find_signal(meta.signals@, name_or_id@) == Some(*signal),
                None => find_method(meta.methods@, name_or_id@) is None && find_signal(
                    meta.signals@,
                    name_or_id@,
                ) is None,
            },
            match action {
                Some(action) => post_action(*meta, name_or_id@) == Some(
                    (action.spec_action_id(), action.spec_parameters_signature()),
                ),
                None => post_action(*meta, name_or_id@) is None,
            },
    {
        match meta.method(name_or_id) {
            Some(method) => Some(PostAction::Method(method)),
            None => match meta.signal(name_or_id) {
                Some(signal) => Some(PostAction::Signal(signal)),
                None => None,
            },
        }
    }

    /// The identifier of the action.
    pub fn action_id(&self) -> (id: ActionId)
        ensures
            id == self.spec_action_id(),
    {
        match self {
            PostAction::Method(method) => method.uid,
            PostAction::Signal(signal) => signal.uid,
        }
    }

    /// The signature of the parameters of the action.
    pub fn parameters_signature(&self) -> (signature: &Signature)
        ensures
            *signature == self.spec_parameters_signature(),
    {
        match self {
            PostAction::Method(method) => &method.parameters_signature,
            PostAction::Signal(signal) => &signal.signature,
        }
    }
}

/// An object of another node. `S` stands for the session over which it is reached.
#[derive(Debug)]
pub struct ObjectClient<S> {
    pub service_id: service::Id,
    pub id: Id,
    pub uid: Uid,
    pub meta: MetaObject,
    pub session: S,
}

impl<S> ObjectClient<S> {
    /// The object that tells the given things of itself.
    pub fn new(
        service_id: service::Id,
        id: Id,
        uid: Uid,
        meta: MetaObject,
        session: S,
    ) -> (client: ObjectClient<S>)
        ensures
            client == (ObjectClient { service_id, id, uid, meta, session }),
    {
        ObjectClient { service_id, id, uid, meta, session }
    }

    /// The request for what an object tells of itself: the address that it is sent to, and its
    /// argument, which counts for nothing.
    pub fn meta_object_request(service_id: service::Id, id: Id) -> (request: (
        message::Address,
        Value,
    ))
        ensures
            request.0 == message::Address(service_id, id, ActionId(ACTION_ID_METAOBJECT)),
            request.1 == Value::Int32(0),
    {
        (
            message::Address(service_id, id, ActionId(ACTION_ID_METAOBJECT)),
            0i32.into_value(),
        )
    }

    /// The object, once it has been asked what it tells of itself. `fetched` is what the request
    /// for it gave: an error, or a value that was converted.
    pub fn connect(
        service_id: service::Id,
        id: Id,
        uid: Uid,
        session: S,
        fetched: Result<Result<MetaObject, FromValueError>, Error>,
    ) -> (result: Result<ObjectClient<S>, Error>)
        ensures
            match fetched {
                Ok(Ok(meta)) => result == Ok::<ObjectClient<S>, Error>(
                    ObjectClient { service_id, id, uid, meta, session },
                ),
                Ok(Err(err)) => result == Err::<ObjectClient<S>, Error>(
                    Error::Other(
                        BoxError::ValueConversion(ValueConversionError::MethodReturnValue(err)),
                    ),
                ),
                Err(err) => result == Err::<ObjectClient<S>, Error>(err),
            },
    {
        match fetched {
            Ok(Ok(meta)) => Ok(ObjectClient { service_id, id, uid, meta, session }),
            Ok(Err(err)) => Err(
                Error::Other(BoxError::ValueConversion(ValueConversionError::MethodReturnValue(err))),
            ),
            Err(err) => Err(err),
        }
    }

    /// What the object tells of itself.
    pub fn meta(&self) -> (meta: &MetaObject)
        ensures
            *meta == self.meta,
    {
        &self.meta
    }

    /// The unique identifier of the object.
    pub fn uid(&self) -> (uid: Uid)
        ensures
            uid == self.uid,
    {
        self.uid
    }

    /// The request of a call: the address that it is sent to, and the type of the value that is
    /// read out of the reply. An action that is no method of the object is refused.
    pub fn meta_call(&self, name_or_id: ActionNameOrId) -> (request: Result<
        (message::Address, Option<&Type>),
        Error,
    >)
        ensures
            match find_method(self.meta.methods@, name_or_id@) {
                Some(method) => {
                    &&& request is Ok
                    &&& request->Ok_0.0 == message::Address(self.service_id, self.id, method.uid)
                    &&& match request->Ok_0.1 {
                        Some(ty) => method.return_signature.0 == Some(*ty),
                        None => method.return_signature.0 is None,
                    }
                },
                None => request == Err::<(message::Address, Option<&Type>), Error>(
                    Error::MethodNotFound(name_or_id),
                ),
            },
    {
        match self.meta.method(&name_or_id) {
            Some(method) => Ok(
                (
                    message::Address(self.service_id, self.id, method.uid),
                    method.return_signature.as_type(),
                ),
            ),
            None => Err(Error::MethodNotFound(name_or_id)),
        }
    }

    /// The address that a post is sent to, unless it is for nothing that the object has.
    pub fn meta_post(&self, name_or_id: &ActionNameOrId) -> (address: Option<message::Address>)
        ensures
            match post_action(self.meta, name_or_id@) {
                Some((action, _)) => address == Some(
                    message::Address(self.service_id, self.id, action),
                ),
                None => address is None,
            },
    {
        match PostAction::get(&self.meta, name_or_id) {
            Some(target) => Some(message::Address(self.service_id, self.id, target.action_id())),
            None => None,
        }
    }

    /// The address that the value of a signal is sent to, unless the object has no such signal.
    pub fn meta_event(&self, name_or_id: &ActionNameOrId) -> (address: Option<message::Address>)
        ensures
            match find_signal(self.meta.signals@, name_or_id@) {
                Some(signal) => address == Some(
                    message::Address(self.service_id, self.id, signal.uid),
                ),
                None => address is None,
            },
    {
        match self.meta.signal(name_or_id) {
            Some(signal) => Some(message::Address(self.service_id, self.id, signal.uid)),
            None => None,
        }
    }
}

/// A signal of an object of another node.
#[derive(Debug)]
pub struct SignalClient<S> {
    pub object: ObjectClient<S>,
    pub id: ActionId,
}

impl<S> SignalClient<S> {
    /// The signal of an object with the given identifier.
    pub fn new(object: ObjectClient<S>, id: ActionId) -> (signal: SignalClient<S>)
        ensures
            signal == (SignalClient { object, id }),
    {
        SignalClient { object, id }
    }
}

/// A connection to a signal of an object of another node.
#[derive(Debug)]
pub struct SignalClientConnection<S> {
    pub object: ObjectClient<S>,
    pub link: Option<Link>,
}

impl<S> SignalClientConnection<S> {
    /// Gives up the connection without ending it: gives its identifier, if it has one.
    pub fn detach(self) -> (link: Option<Link>)
        ensures
            link == self.link,
    {
        self.link
    }
}

} // verus!
