//! What the directory of services tells of itself, and what its clients ask it.

use vstd::prelude::*;
use crate::directory_client::{Client, Meta, Request};
use crate::error::Error;
use crate::info_record::InfoRecord;
use crate::laws::records::{info_type_in_contracts, is_info_type};
use crate::laws::values::is_text;
use crate::meta::{MetaMethod, MetaSignal};
use crate::object::ObjectClient;
use crate::service;
use crate::value::{type_views, Type, TypeView, Value};

verus! {

/// The types of a list, in contracts, are what each of them is.
proof fn views_of_types(list: Seq<Type>)
    ensures
        type_views(list).len() == list.len(),
        forall|i: int| 0 <= i < list.len() ==> type_views(list)[i] == (#[trigger] list[i]).view(),
    decreases list.len(),
{
    if list.len() > 0 {
        let front = list.subrange(0, list.len() - 1);
        views_of_types(front);
        assert forall|i: int| 0 <= i < list.len() implies type_views(list)[i] == (
        #[trigger] list[i]).view() by {
            if i < front.len() {
                assert(front[i] == list[i]);
            }
        }
    }
}

/// Whether a method has an identifier and a name.
pub open spec fn is_method(method: MetaMethod, id: u32, name: Seq<char>) -> bool {
    method.uid.0 == id && method.name@ == name
}

/// Whether a method takes nothing.
pub open spec fn takes_nothing(method: MetaMethod) -> bool {
    method.parameters_signature.0 matches Some(Type::Tuple(types)) && types@.len() == 0
}

/// Whether a signal is one of the directory: with an identifier, a name, and a number and a text as
/// its value.
pub open spec fn is_service_signal(signal: MetaSignal, id: u32, name: Seq<char>) -> bool {
    &&& signal.uid.0 == id
    &&& signal.name@ == name
    &&& signal.signature.0 matches Some(Type::Tuple(types)) && types@.len() == 2 && types@[0]
        is UInt32 && types@[1] is String
}

/// Whether methods and signals are those of the directory.
pub open spec fn is_directory(methods: Seq<MetaMethod>, signals: Seq<MetaSignal>) -> bool {
    &&& methods.len() == 7
    &&& is_method(methods[0], 100, "service"@)
    &&& methods[0].parameters_signature.0 matches Some(Type::Tuple(types)) && types@.len() == 1
        && types@[0] is String
    &&& methods[0].return_signature.0 is Some && is_info_type(methods[0].return_signature.0->Some_0)
    &&& is_method(methods[1], 101, "services"@)
    &&& takes_nothing(methods[1])
    &&& methods[1].return_signature.0 matches Some(Type::List(element)) && is_info_type(*element)
    &&& is_method(methods[2], 102, "registerService"@)
    &&& methods[2].parameters_signature.0 matches Some(Type::Tuple(types)) && types@.len() == 1
        && is_info_type(types@[0])
    &&& methods[2].return_signature.0 matches Some(Type::UInt32)
    &&& is_method(methods[3], 103, "unregisterService"@)
    &&& methods[3].parameters_signature.0 matches Some(Type::Tuple(types)) && types@.len() == 1
        && types@[0] is UInt32
    &&& methods[3].return_signature.0 matches Some(Type::Unit)
    &&& is_method(methods[4], 104, "serviceReady"@)
    &&& methods[4].parameters_signature.0 matches Some(Type::Tuple(types)) && types@.len() == 1
        && types@[0] is UInt32
    &&& methods[4].return_signature.0 matches Some(Type::Unit)
    &&& is_method(methods[5], 105, "updateServiceInfo"@)
    &&& methods[5].parameters_signature.0 matches Some(Type::Tuple(types)) && types@.len() == 1
        && is_info_type(types@[0])
    &&& methods[5].return_signature.0 matches Some(Type::Unit)
    &&& is_method(methods[6], 108, "machineId"@)
    &&& takes_nothing(methods[6])
    &&& methods[6].return_signature.0 matches Some(Type::String)
    &&& signals.len() == 2
    &&& is_service_signal(signals[0], 106, "serviceAdded"@)
    &&& is_service_signal(signals[1], 107, "serviceRemoved"@)
}

/// A method whose parameters are, in contracts, the given ones.
proof fn parameters_in_contracts(method: MetaMethod, parameters: Seq<TypeView>)
    requires
        method.view().parameters == Some(TypeView::Tuple(parameters)),
    ensures
        method.parameters_signature.0 matches Some(Type::Tuple(types)) && types@.len()
            == parameters.len() && forall|i: int|
            0 <= i < parameters.len() ==> (#[trigger] types@[i]).view() == parameters[i],
{
    if let Some(Type::Tuple(types)) = method.parameters_signature.0 {
        views_of_types(types@);
        assert forall|i: int| 0 <= i < parameters.len() implies (#[trigger] types@[i]).view()
            == parameters[i] by {
            assert(type_views(types@)[i] == types@[i].view());
        }
    }
}

/// Methods and signals that are, in contracts, those of the directory.
proof fn directory_in_contracts(methods: Seq<MetaMethod>, signals: Seq<MetaSignal>)
    requires
        crate::directory_client::method_views(methods)
            == crate::directory_client::directory_methods(),
        crate::directory_client::signal_views(signals)
            == crate::directory_client::directory_signals(),
    ensures
        is_directory(methods, signals),
{
    let told = crate::directory_client::method_views(methods);
    let own = crate::directory_client::directory_methods();
    assert(told.len() == methods.len() && own.len() == 7);
    assert(told[0] == methods[0].view() && told[1] == methods[1].view() && told[2]
        == methods[2].view() && told[3] == methods[3].view() && told[4] == methods[4].view()
        && told[5] == methods[5].view() && told[6] == methods[6].view());
    parameters_in_contracts(methods[0], seq![TypeView::String]);
    parameters_in_contracts(methods[1], seq![]);
    parameters_in_contracts(methods[2], seq![service::info_type_view()]);
    parameters_in_contracts(methods[3], seq![TypeView::UInt32]);
    parameters_in_contracts(methods[4], seq![TypeView::UInt32]);
    parameters_in_contracts(methods[5], seq![service::info_type_view()]);
    parameters_in_contracts(methods[6], seq![]);
    info_type_in_contracts(methods[0].return_signature.0->Some_0);
    if let Some(Type::List(element)) = methods[1].return_signature.0 {
        assert(Type::List(element).view() == TypeView::List(Box::new(element.view())));
        info_type_in_contracts(*element);
    }
    if let Some(Type::Tuple(types)) = methods[0].parameters_signature.0 {
        assert(types@[0].view() == TypeView::String);
    }
    if let Some(Type::Tuple(types)) = methods[2].parameters_signature.0 {
        assert(types@[0].view() == service::info_type_view());
        info_type_in_contracts(types@[0]);
    }
    if let Some(Type::Tuple(types)) = methods[3].parameters_signature.0 {
        assert(types@[0].view() == TypeView::UInt32);
    }
    if let Some(Type::Tuple(types)) = methods[4].parameters_signature.0 {
        assert(types@[0].view() == TypeView::UInt32);
    }
    if let Some(Type::Tuple(types)) = methods[5].parameters_signature.0 {
        assert(types@[0].view() == service::info_type_view());
        info_type_in_contracts(types@[0]);
    }
    let seen = crate::directory_client::signal_views(signals);
    assert(seen.len() == signals.len());
    assert(seen[0] == signals[0].view() && seen[1] == signals[1].view());
    signal_in_contracts(signals[0]);
    signal_in_contracts(signals[1]);
}

/// A signal whose value is, in contracts, that of the signals of the directory.
proof fn signal_in_contracts(signal: MetaSignal)
    requires
        signal.view().value == Some(crate::directory_client::service_event_type()),
    ensures
        signal.signature.0 matches Some(Type::Tuple(types)) && types@.len() == 2 && types@[0]
            is UInt32 && types@[1] is String,
{
    if let Some(Type::Tuple(types)) = signal.signature.0 {
        views_of_types(types@);
        assert(type_views(types@)[0] == types@[0].view());
        assert(type_views(types@)[1] == types@[1].view());
    }
}

/// The directory tells its seven methods and two signals, each under an identifier of its own from
/// a hundred on, and the identifiers under their names.
pub proof fn directory_tells_what_it_is(meta: Meta)
    requires
        call_ensures(Meta::get, (), meta),
    ensures
        is_directory(meta.object.methods@, meta.object.signals@),
        meta.object.properties@.len() == 0,
        meta.service.0 == 100,
        meta.services.0 == 101,
        meta.register_service.0 == 102,
        meta.unregister_service.0 == 103,
        meta.service_ready.0 == 104,
        meta.update_service_info.0 == 105,
        meta.service_added.0 == 106,
        meta.service_removed.0 == 107,
        meta.machine_id.0 == 108,
{
    directory_in_contracts(meta.object.methods@, meta.object.signals@);
}

/// The numbers and names that peers agree on.
pub proof fn numbers_that_peers_agree_on()
    ensures
        crate::object::ACTION_ID_METAOBJECT == 2,
        crate::object::ACTION_ID_PROPERTY == 5,
        crate::object::ACTION_ID_SET_PROPERTY == 6,
        crate::object::ACTION_START_ID == 100,
        crate::object::UID_LENGTH == 20,
        crate::service::MAIN_OBJECT_ID == 1,
        crate::service::UNSPECIFIED_ID == 0,
        crate::service_directory::SD_SERVICE_ID == 1,
        crate::node::SD_SERVICE_NAME@ == "ServiceDirectory"@,
        crate::control::SERVICE_ID == 0,
        crate::control::OBJECT_ID == 0,
        crate::control::AUTHENTICATE_ACTION_ID == 8,
        crate::auth::USER_KEY@ == "auth_user"@,
        crate::auth::TOKEN_KEY@ == "auth_token"@,
        crate::auth::STATE_KEY@ == "__qi_auth_state"@,
        crate::auth::STATE_DONE == 3,
        crate::capabilities::REMOTE_CANCELABLE_CALLS@ == "RemoteCancelableCalls"@,
        crate::capabilities::OBJECT_PTR_UID@ == "ObjectPtrUID"@,
        crate::capabilities::RELATIVE_ENDPOINT_URI@ == "RelativeEndpointURI"@,
        crate::endpoints::NETWORK_INTERFACES_REFRESH_INTERVAL == 5,
{
}

/// A client of the directory reaches it over the session that it was given, as object one of service
/// one, whose unique identifier is made of zeros.
pub proof fn clients_reach_the_directory<S>(
    session: S,
    client: Client<S>,
    over: &S,
    object: &ObjectClient<S>,
)
    requires
        call_ensures(Client::<S>::new, (session,), client),
        call_ensures(Client::<S>::session, (&client,), over),
        call_ensures(Client::<S>::object, (&client,), object),
    ensures
        *over == session,
        object.session == session,
        object.service_id.0 == 1,
        object.id.0 == 1,
        forall|i: int| 0 <= i < 20 ==> #[trigger] object.uid@[i] == 0,
        is_directory(object.meta.methods@, object.meta.signals@),
        object.meta.properties@.len() == 0,
{
    directory_in_contracts(object.meta.methods@, object.meta.signals@);
}

/// Whether a request is sent to an action of the directory.
pub open spec fn is_sent_to(request: Result<Request<'_>, Error>, action: u32) -> bool {
    &&& request is Ok
    &&& request->Ok_0.address.0.0 == 1
    &&& request->Ok_0.address.1.0 == 1
    &&& request->Ok_0.address.2.0 == action
    &&& request->Ok_0.return_type is Some
}

/// Services are asked for with action 101, and come as a list; a service with action 100, by its
/// name; the machine with action 108, as a text.
pub proof fn clients_ask<S>(
    client: &Client<S>,
    services: Result<Request<'_>, Error>,
    name: &str,
    service: Result<Request<'_>, Error>,
    machine: Result<Request<'_>, Error>,
)
    requires
        call_ensures(Client::<S>::services, (client,), services),
        call_ensures(Client::<S>::service, (client, name), service),
        call_ensures(Client::<S>::machine_id, (client,), machine),
    ensures
        is_sent_to(services, 101),
        services->Ok_0.args is Unit,
        *services->Ok_0.return_type->Some_0 matches Type::List(element) && is_info_type(*element),
        is_sent_to(service, 100),
        is_text(service->Ok_0.args, name@),
        is_info_type(*service->Ok_0.return_type->Some_0),
        is_sent_to(machine, 108),
        machine->Ok_0.args is Unit,
        *machine->Ok_0.return_type->Some_0 is String,
{
    let ty = *services->Ok_0.return_type->Some_0;
    if let Type::List(element) = ty {
        assert(ty.view() == TypeView::List(Box::new(element.view())));
        info_type_in_contracts(*element);
    }
    info_type_in_contracts(*service->Ok_0.return_type->Some_0);
}

/// A service is registered with action 102, which gives its identifier; it is unregistered with
/// action 103 and marked as ready with action 104, by its identifier; it is told of anew with action
/// 105. What is told is the record.
pub proof fn clients_tell<S>(
    client: &Client<S>,
    info: InfoRecord,
    register: Result<Request<'_>, Error>,
    id: service::Id,
    unregister: Result<Request<'_>, Error>,
    ready: Result<Request<'_>, Error>,
    update: Result<Request<'_>, Error>,
)
    requires
        call_ensures(Client::<S>::register, (client, info), register),
        call_ensures(Client::<S>::unregister, (client, id), unregister),
        call_ensures(Client::<S>::set_ready, (client, id), ready),
        call_ensures(Client::<S>::update, (client, info), update),
    ensures
        is_sent_to(register, 102),
        is_record(register->Ok_0.args, info),
        *register->Ok_0.return_type->Some_0 is UInt32,
        is_sent_to(unregister, 103),
        unregister->Ok_0.args == Value::UInt32(id.0),
        *unregister->Ok_0.return_type->Some_0 is Unit,
        is_sent_to(ready, 104),
        ready->Ok_0.args == Value::UInt32(id.0),
        *ready->Ok_0.return_type->Some_0 is Unit,
        is_sent_to(update, 105),
        is_record(update->Ok_0.args, info),
        *update->Ok_0.return_type->Some_0 is Unit,
{
    record_in_contracts(register->Ok_0.args, info);
    record_in_contracts(update->Ok_0.args, info);
}

/// Whether a value is the tuple of the fields of a record.
pub open spec fn is_record(value: Value, record: InfoRecord) -> bool {
    value matches Value::Tuple(fields) && {
        &&& fields@.len() == 7
        &&& fields@[0] matches Value::String(raw) && raw@ == record.name@
        &&& fields@[1] == Value::UInt32(record.service_id)
        &&& fields@[2] matches Value::String(raw) && raw@ == record.machine_id@
        &&& fields@[3] == Value::UInt32(record.process_id)
        &&& fields@[4] matches Value::List(texts) && texts@.len() == record.endpoints@.len()
            && forall|i: int|
            0 <= i < texts@.len() ==> (#[trigger] texts@[i] matches Value::String(raw) && raw@
                == record.endpoints@[i]@)
        &&& fields@[5] matches Value::String(raw) && raw@ == record.session_id@
        &&& fields@[6] matches Value::String(raw) && raw@ == record.object_uid@
    }
}

/// A value that a record is converted to is the tuple of its fields.
proof fn record_in_contracts(value: Value, record: InfoRecord)
    requires
        crate::value::IntoValue::valued(record, value),
    ensures
        is_record(value, record),
{
    let texts = value->Tuple_0@[4]->List_0@;
    let own = crate::wire::raw_strings(record.endpoints@);
    assert(own.len() == record.endpoints@.len());
    assert forall|i: int| 0 <= i < texts.len() implies (#[trigger] texts[i] matches Value::String(raw)
        && raw@ == record.endpoints@[i]@) by {
        assert(own[i] == record.endpoints@[i]@);
    }
}

} // verus!
