//! How requests to objects of other nodes are addressed.

use vstd::prelude::*;
use crate::error::{BoxError, Error, ValueConversionError};
use crate::laws::meta::{means, method_search, signal_search};
use crate::laws::values::{is_text, mismatch_is_refused, refused};
use crate::message;
use crate::meta::{
    find_method, find_signal, ActionId, ActionNameOrId, MetaObject, MetaProperty,
};
use crate::object::{
    self, names_of, property_request, return_value, set_property_request, Object, ObjectClient,
    ObjectExt, PostAction, SignalClient, SignalClientConnection,
};
use crate::service;
use crate::signal::Link;
use crate::value::{Expected, FromValueError, Kind, Signature, Type, Value};

verus! {

/// Whether a method is the first of an object that is meant.
pub open spec fn is_meant_method(meta: MetaObject, ident: ActionNameOrId, i: int) -> bool {
    &&& 0 <= i < meta.methods@.len()
    &&& means(ident, meta.methods@[i].uid.0, meta.methods@[i].name@)
    &&& forall|j: int|
        0 <= j < i ==> !means(
            ident,
            (#[trigger] meta.methods@[j]).uid.0,
            meta.methods@[j].name@,
        )
}

/// Whether a signal is the first of an object that is meant.
pub open spec fn is_meant_signal(meta: MetaObject, ident: ActionNameOrId, i: int) -> bool {
    &&& 0 <= i < meta.signals@.len()
    &&& means(ident, meta.signals@[i].uid.0, meta.signals@[i].name@)
    &&& forall|j: int|
        0 <= j < i ==> !means(
            ident,
            (#[trigger] meta.signals@[j]).uid.0,
            meta.signals@[j].name@,
        )
}

/// Whether no method of an object is meant.
pub open spec fn no_method_is_meant(meta: MetaObject, ident: ActionNameOrId) -> bool {
    forall|i: int|
        0 <= i < meta.methods@.len() ==> !means(
            ident,
            (#[trigger] meta.methods@[i]).uid.0,
            meta.methods@[i].name@,
        )
}

/// Whether no signal of an object is meant.
pub open spec fn no_signal_is_meant(meta: MetaObject, ident: ActionNameOrId) -> bool {
    forall|i: int|
        0 <= i < meta.signals@.len() ==> !means(
            ident,
            (#[trigger] meta.signals@[i]).uid.0,
            meta.signals@[i].name@,
        )
}

/// The first method that is meant is the one that is found.
proof fn meant_method_is_found(meta: MetaObject, ident: ActionNameOrId, i: int)
    ensures
        is_meant_method(meta, ident, i) ==> find_method(meta.methods@, ident@) == Some(
            meta.methods@[i],
        ),
        no_method_is_meant(meta, ident) ==> find_method(meta.methods@, ident@) is None,
{
    method_search(meta.methods@, ident);
    if is_meant_method(meta, ident, i) {
        assert(means(ident, meta.methods@[i].uid.0, meta.methods@[i].name@));
    }
    if let Some(method) = find_method(meta.methods@, ident@) {
        let k = choose|k: int|
            #![trigger meta.methods@[k]]
            {
                &&& 0 <= k < meta.methods@.len()
                &&& meta.methods@[k] == method
                &&& means(ident, method.uid.0, method.name@)
                &&& forall|j: int|
                    0 <= j < k ==> !means(
                        ident,
                        (#[trigger] meta.methods@[j]).uid.0,
                        meta.methods@[j].name@,
                    )
            };
        assert(meta.methods@[k] == method);
        if is_meant_method(meta, ident, i) {
            assert(i == k);
        }
    }
}

/// The first signal that is meant is the one that is found.
proof fn meant_signal_is_found(meta: MetaObject, ident: ActionNameOrId, i: int)
    ensures
        is_meant_signal(meta, ident, i) ==> find_signal(meta.signals@, ident@) == Some(
            meta.signals@[i],
        ),
        no_signal_is_meant(meta, ident) ==> find_signal(meta.signals@, ident@) is None,
{
    signal_search(meta.signals@, ident);
    if is_meant_signal(meta, ident, i) {
        assert(means(ident, meta.signals@[i].uid.0, meta.signals@[i].name@));
    }
    if let Some(signal) = find_signal(meta.signals@, ident@) {
        let k = choose|k: int|
            #![trigger meta.signals@[k]]
            {
                &&& 0 <= k < meta.signals@.len()
                &&& meta.signals@[k] == signal
                &&& means(ident, signal.uid.0, signal.name@)
                &&& forall|j: int|
                    0 <= j < k ==> !means(
                        ident,
                        (#[trigger] meta.signals@[j]).uid.0,
                        meta.signals@[j].name@,
                    )
            };
        assert(meta.signals@[k] == signal);
        if is_meant_signal(meta, ident, i) {
            assert(i == k);
        }
    }
}

/// A post is for the first method that is meant, or else for the first signal that is, or else for
/// nothing.
pub proof fn posts_are_for_methods_first(
    meta: &MetaObject,
    ident: &ActionNameOrId,
    action: Option<PostAction>,
    i: int,
    k: int,
)
    requires
        call_ensures(PostAction::get, (meta, ident), action),
    ensures
        is_meant_method(*meta, *ident, i) ==> (action matches Some(PostAction::Method(method))
            && *method == meta.methods@[i]),
        no_method_is_meant(*meta, *ident) && is_meant_signal(*meta, *ident, k) ==> (
        action matches Some(PostAction::Signal(signal)) && *signal == meta.signals@[k]),
        no_method_is_meant(*meta, *ident) && no_signal_is_meant(*meta, *ident) ==> action is None,
{
    meant_method_is_found(*meta, *ident, i);
    meant_signal_is_found(*meta, *ident, k);
}

/// What a post is for tells its identifier and what its value looks like.
pub proof fn post_actions_tell_what_they_are(
    action: &PostAction,
    id: ActionId,
    signature: &Signature,
)
    requires
        call_ensures(PostAction::action_id, (action,), id),
        call_ensures(PostAction::parameters_signature, (action,), signature),
    ensures
        match action {
            PostAction::Method(method) => id == method.uid && *signature
                == method.parameters_signature,
            PostAction::Signal(signal) => id == signal.uid && *signature == signal.signature,
        },
{
}

/// An object of another node is what it is made of.
pub proof fn clients_hold_what_they_are_made_of<S>(
    service_id: service::Id,
    id: object::Id,
    uid: object::Uid,
    meta: MetaObject,
    session: S,
    client: ObjectClient<S>,
    told: &MetaObject,
    told_uid: object::Uid,
)
    requires
        call_ensures(ObjectClient::<S>::new, (service_id, id, uid, meta, session), client),
        call_ensures(ObjectClient::<S>::meta, (&client,), told),
        call_ensures(ObjectClient::<S>::uid, (&client,), told_uid),
    ensures
        client.service_id == service_id,
        client.id == id,
        client.uid == uid && told_uid == uid,
        client.meta == meta && *told == meta,
        client.session == session,
{
}

/// An object is asked what it tells of itself with its action two.
pub proof fn objects_are_asked_what_they_are<S>(
    service_id: service::Id,
    id: object::Id,
    request: (message::Address, Value),
)
    requires
        call_ensures(ObjectClient::<S>::meta_object_request, (service_id, id), request),
    ensures
        request.0.0 == service_id,
        request.0.1 == id,
        request.0.2.0 == 2,
        request.1 == Value::Int32(0),
{
}

/// An object is connected to where it told what it is, and what went wrong is handed on otherwise.
pub proof fn objects_are_connected_once_known<S>(
    service_id: service::Id,
    id: object::Id,
    uid: object::Uid,
    session: S,
    fetched: Result<Result<MetaObject, FromValueError>, Error>,
    result: Result<ObjectClient<S>, Error>,
)
    requires
        call_ensures(
            ObjectClient::<S>::connect,
            (service_id, id, uid, session, fetched),
            result,
        ),
    ensures
        match fetched {
            Ok(Ok(meta)) => {
                &&& result is Ok
                &&& result->Ok_0.service_id == service_id
                &&& result->Ok_0.id == id
                &&& result->Ok_0.uid == uid
                &&& result->Ok_0.meta == meta
                &&& result->Ok_0.session == session
            },
            Ok(Err(err)) => result matches Err(
                Error::Other(BoxError::ValueConversion(ValueConversionError::MethodReturnValue(why))),
            ) && why == err,
            Err(err) => result == Err::<ObjectClient<S>, Error>(err),
        },
{
}

/// A call is sent to the first method of the object that is meant, and its reply is read as what
/// that method returns; a call of none is refused.
pub proof fn calls_go_to_the_meant_method<S>(
    client: &ObjectClient<S>,
    ident: ActionNameOrId,
    request: Result<(message::Address, Option<&Type>), Error>,
    i: int,
)
    requires
        call_ensures(ObjectClient::<S>::meta_call, (client, ident), request),
    ensures
        is_meant_method(client.meta, ident, i) ==> {
            let method = client.meta.methods@[i];
            &&& request is Ok
            &&& request->Ok_0.0.0 == client.service_id
            &&& request->Ok_0.0.1 == client.id
            &&& request->Ok_0.0.2 == method.uid
            &&& request->Ok_0.1 is Some <==> method.return_signature.0 is Some
            &&& request->Ok_0.1 is Some ==> method.return_signature.0 == Some(*request->Ok_0.1->Some_0)
        },
        no_method_is_meant(client.meta, ident) ==> (request matches Err(
            Error::MethodNotFound(missing),
        ) && missing == ident),
{
    meant_method_is_found(client.meta, ident, i);
}

/// A post is sent to the first method that is meant, or else to the first signal that is, or else
/// not at all.
pub proof fn posts_go_to_the_meant_action<S>(
    client: &ObjectClient<S>,
    ident: &ActionNameOrId,
    address: Option<message::Address>,
    i: int,
    k: int,
)
    requires
        call_ensures(ObjectClient::<S>::meta_post, (client, ident), address),
    ensures
        address matches Some(to) ==> to.0 == client.service_id && to.1 == client.id,
        is_meant_method(client.meta, *ident, i) ==> address is Some && address->Some_0.2
            == client.meta.methods@[i].uid,
        no_method_is_meant(client.meta, *ident) && is_meant_signal(client.meta, *ident, k)
            ==> address is Some && address->Some_0.2 == client.meta.signals@[k].uid,
        no_method_is_meant(client.meta, *ident) && no_signal_is_meant(client.meta, *ident)
            ==> address is None,
{
    meant_method_is_found(client.meta, *ident, i);
    meant_signal_is_found(client.meta, *ident, k);
}

/// The value of a signal is sent to the first signal of the object that is meant, wherever in the
/// list it stands, and not at all where none is.
pub proof fn events_go_to_the_meant_signal<S>(
    client: &ObjectClient<S>,
    ident: &ActionNameOrId,
    address: Option<message::Address>,
    k: int,
)
    requires
        call_ensures(ObjectClient::<S>::meta_event, (client, ident), address),
    ensures
        address matches Some(to) ==> to.0 == client.service_id && to.1 == client.id,
        is_meant_signal(client.meta, *ident, k) ==> address is Some && address->Some_0.2
            == client.meta.signals@[k].uid,
        no_signal_is_meant(client.meta, *ident) ==> address is None,
{
    meant_signal_is_found(client.meta, *ident, k);
}

/// What a method gives is converted: a number is taken as it is, another value is an error of the
/// return value, and its own error is handed on.
pub proof fn results_of_methods_are_converted(
    called: Result<Value, Error>,
    result: Result<u32, Error>,
)
    requires
        call_ensures(return_value::<u32>, (called,), result),
    ensures
        called matches Err(err) ==> result == Err::<u32, Error>(err),
        called matches Ok(Value::UInt32(n)) ==> result == Ok::<u32, Error>(n),
        called matches Ok(value) ==> (!(value is UInt32) ==> (result matches Err(
            Error::Other(BoxError::ValueConversion(ValueConversionError::MethodReturnValue(why))),
        ) && refused(Err::<u32, FromValueError>(why), Expected::Kind(Kind::UInt32), value))),
{
    if let Ok(value) = called {
        if let Err(
            Error::Other(BoxError::ValueConversion(ValueConversionError::MethodReturnValue(why))),
        ) = result {
            mismatch_is_refused(
                Err::<u32, FromValueError>(why),
                Expected::Kind(Kind::UInt32),
                value,
            );
        }
    }
}

/// The names of properties are told one by one, in their order.
pub proof fn properties_are_told_by_name(properties: &Vec<MetaProperty>, names: Vec<String>)
    requires
        call_ensures(names_of, (properties,), names),
    ensures
        are_names_of(properties@, names@),
{
    names_in_contracts(properties@, names@, |name: String| name@);
}

/// The properties of an object are those that it tells of itself, by their names, in their order.
pub proof fn objects_tell_their_properties<O: Object>(object: &O, names: Vec<String>)
    requires
        call_ensures(<O as ObjectExt>::properties, (object,), names),
    ensures
        exists|meta: &MetaObject| #[trigger]
            call_ensures(O::meta, (object,), meta) && are_names_of(meta.properties@, names@),
{
    let meta = choose|meta: &MetaObject| #[trigger]
        call_ensures(O::meta, (object,), meta) && names@.map_values(|name: String| name@)
            == object::property_names(meta.properties@);
    names_in_contracts(meta.properties@, names@, |name: String| name@);
}

/// Whether names are those of properties, one by one.
pub open spec fn are_names_of(properties: Seq<MetaProperty>, names: Seq<String>) -> bool {
    names.len() == properties.len() && forall|i: int|
        0 <= i < names.len() ==> (#[trigger] names[i])@ == properties[i].name@
}

/// Names that are those of properties in contracts.
proof fn names_in_contracts(
    properties: Seq<MetaProperty>,
    names: Seq<String>,
    view: spec_fn(String) -> Seq<char>,
)
    requires
        names.map_values(view) == object::property_names(properties),
        forall|name: String| #[trigger] view(name) == name@,
    ensures
        are_names_of(properties, names),
{
    let told = names.map_values(view);
    let own = object::property_names(properties);
    assert(told.len() == names.len() && own.len() == properties.len());
    assert forall|i: int| 0 <= i < names.len() implies (#[trigger] names[i])@
        == properties[i].name@ by {
        assert(told[i] == view(names[i]));
        assert(own[i] == properties[i].name@);
    }
}

/// Whether a value that carries its type is what names an action.
pub open spec fn carries(value: Value, ident: ActionNameOrId) -> bool {
    value matches Value::Dynamic(inner) && match ident {
        ActionNameOrId::Id(id) => *inner == Value::UInt32(id.0),
        ActionNameOrId::Name(name) => is_text(*inner, name@),
    }
}

/// A property is asked for with action five, which is given what names the property; it is set with
/// action six, which is given that and the value.
pub proof fn properties_are_got_and_set(
    ident: ActionNameOrId,
    got: (ActionNameOrId, Value),
    value: u32,
    set: (ActionNameOrId, Value),
)
    requires
        call_ensures(property_request, (ident,), got),
        call_ensures(set_property_request::<u32>, (ident, value), set),
    ensures
        got.0 matches ActionNameOrId::Id(action) && action.0 == 5,
        carries(got.1, ident),
        set.0 matches ActionNameOrId::Id(action) && action.0 == 6,
        set.1 matches Value::Tuple(args) && args@.len() == 2 && carries(args@[0], ident) && (
        args@[1] matches Value::Dynamic(inner) && *inner == Value::UInt32(value)),
{
}

/// A signal of an object of another node is what it is made of, and a connection to it gives up its
/// identifier.
pub proof fn signals_hold_what_they_are_made_of<S>(
    object: ObjectClient<S>,
    id: ActionId,
    signal: SignalClient<S>,
    connection: SignalClientConnection<S>,
    link: Option<Link>,
)
    requires
        call_ensures(SignalClient::<S>::new, (object, id), signal),
        call_ensures(SignalClientConnection::<S>::detach, (connection,), link),
    ensures
        signal.object == object,
        signal.id == id,
        link == connection.link,
{
}

} // verus!
