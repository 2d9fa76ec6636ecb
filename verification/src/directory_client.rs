//! What the directory of services tells of itself, and how its clients ask it.

use vstd::prelude::*;
use crate::error::Error;
use crate::info_record::InfoRecord;
use crate::message;
use crate::meta::{
    find_method, method_found_at, ActionId, ActionName, ActionNameOrId, MetaMethod, MetaObject,
    MetaProperty, MetaSignal, MethodView, SignalView,
};
use crate::object::{self, ObjectClient, ACTION_START_ID};
use crate::service::{self, info_type, info_type_view, MAIN_OBJECT_ID};
use crate::service_directory::SD_SERVICE_ID;
use crate::value::{push_type, type_views, IntoValue, Signature, Type, TypeView, Value};

verus! {

/// What the directory tells of itself, with the identifiers of its actions.
#[derive(Debug)]
pub struct Meta {
    pub object: MetaObject,
    pub service: ActionId,
    pub services: ActionId,
    pub register_service: ActionId,
    pub unregister_service: ActionId,
    pub service_ready: ActionId,
    pub update_service_info: ActionId,
    pub service_added: ActionId,
    pub service_removed: ActionId,
    pub machine_id: ActionId,
}

/// A method in contracts, with the types of its parameters and of its result.
pub open spec fn method_view(
    id: u32,
    name: Seq<char>,
    parameters: Seq<TypeView>,
    result: TypeView,
) -> MethodView {
    MethodView {
        uid: ActionId(id),
        name,
        parameters: Some(TypeView::Tuple(parameters)),
        result: Some(result),
    }
}

/// The methods of the directory, in contracts.
pub open spec fn directory_methods() -> Seq<MethodView> {
    seq![
        method_view(100, "service"@, seq![TypeView::String], info_type_view()),
        method_view(101, "services"@, seq![], TypeView::List(Box::new(info_type_view()))),
        method_view(102, "registerService"@, seq![info_type_view()], TypeView::UInt32),
        method_view(103, "unregisterService"@, seq![TypeView::UInt32], TypeView::Unit),
        method_view(104, "serviceReady"@, seq![TypeView::UInt32], TypeView::Unit),
        method_view(105, "updateServiceInfo"@, seq![info_type_view()], TypeView::Unit),
        method_view(108, "machineId"@, seq![], TypeView::String),
    ]
}

/// The type of the values of the signals of the directory, in contracts.
pub open spec fn service_event_type() -> TypeView {
    TypeView::Tuple(seq![TypeView::UInt32, TypeView::String])
}

/// The signals of the directory, in contracts.
pub open spec fn directory_signals() -> Seq<SignalView> {
    seq![
        SignalView { uid: ActionId(106), name: "serviceAdded"@, value: Some(service_event_type()) },
        SignalView {
            uid: ActionId(107),
            name: "serviceRemoved"@,
            value: Some(service_event_type()),
        },
    ]
}

/// The methods of a list, in contracts.
pub open spec fn method_views(methods: Seq<MetaMethod>) -> Seq<MethodView> {
    methods.map_values(|method: MetaMethod| method.view())
}

/// The signals of a list, in contracts.
pub open spec fn signal_views(signals: Seq<MetaSignal>) -> Seq<SignalView> {
    signals.map_values(|signal: MetaSignal| signal.view())
}

/// Adds a method to a list.
fn push_method(
    methods: &mut Vec<MetaMethod>,
    uid: ActionId,
    name: &str,
    parameters: Vec<Type>,
    result: Type,
)
    ensures
        method_views(final(methods)@) == method_views(old(methods)@).push(
            method_view(uid.0, name@, type_views(parameters@), result.view()),
        ),
{
    let method = MetaMethod {
        uid,
        name: name.to_owned(),
        parameters_signature: Signature(Some(Type::Tuple(parameters))),
        return_signature: Signature(Some(result)),
    };
    methods.push(method);
    assert(method_views(methods@) =~= method_views(old(methods)@).push(method.view()));
}

/// Adds a signal of the directory to a list.
fn push_signal(signals: &mut Vec<MetaSignal>, uid: ActionId, name: &str)
    ensures
        signal_views(final(signals)@) == signal_views(old(signals)@).push(
            SignalView { uid, name: name@, value: Some(service_event_type()) },
        ),
{
    let mut elements: Vec<Type> = Vec::new();
    push_type(&mut elements, Type::UInt32);
    push_type(&mut elements, Type::String);
    assert(type_views(elements@) =~= seq![TypeView::UInt32, TypeView::String]);
    let signal = MetaSignal {
        uid,
        name: name.to_owned(),
        signature: Signature(Some(Type::Tuple(elements))),
    };
    signals.push(signal);
    assert(signal_views(signals@) =~= signal_views(old(signals)@).push(signal.view()));
}

/// A list of one type.
fn one_type(ty: Type) -> (list: Vec<Type>)
    ensures
        type_views(list@) == seq![ty.view()],
{
    let mut list: Vec<Type> = Vec::new();
    push_type(&mut list, ty);
    assert(type_views(list@) =~= seq![ty.view()]);
    list
}

/// Takes the next identifier of an action.
fn take_id(action_id: &mut ActionId) -> (id: ActionId)
    requires
        old(action_id).0 < u32::MAX,
    ensures
        id == *old(action_id),
        final(action_id).0 == old(action_id).0 + 1,
{
    match action_id.next() {
        Some(id) => id,
        None => ActionId(0),
    }
}

impl Meta {
    /// What the directory tells of itself.
    pub fn get() -> (meta: Meta)
        ensures
            method_views(meta.object.methods@) == directory_methods(),
            signal_views(meta.object.signals@) == directory_signals(),
            meta.object.properties@ == Seq::<MetaProperty>::empty(),
            meta.service == ActionId(100),
            meta.services == ActionId(101),
            meta.register_service == ActionId(102),
            meta.unregister_service == ActionId(103),
            meta.service_ready == ActionId(104),
            meta.update_service_info == ActionId(105),
            meta.service_added == ActionId(106),
            meta.service_removed == ActionId(107),
            meta.machine_id == ActionId(108),
    {
        let mut action_id = ActionId(ACTION_START_ID);
        let mut object = MetaObject::new();
        let mut methods: Vec<MetaMethod> = Vec::new();
        let mut signals: Vec<MetaSignal> = Vec::new();
        let service = take_id(&mut action_id);
        push_method(&mut methods, service, "service", one_type(Type::String), info_type());
        let services = take_id(&mut action_id);
        push_method(
            &mut methods,
            services,
            "services",
            Vec::new(),
            Type::List(Box::new(info_type())),
        );
        let register_service = take_id(&mut action_id);
        push_method(
            &mut methods,
            register_service,
            "registerService",
            one_type(info_type()),
            Type::UInt32,
        );
        let unregister_service = take_id(&mut action_id);
        push_method(
            &mut methods,
            unregister_service,
            "unregisterService",
            one_type(Type::UInt32),
            Type::Unit,
        );
        let service_ready = take_id(&mut action_id);
        push_method(
            &mut methods,
            service_ready,
            "serviceReady",
            one_type(Type::UInt32),
            Type::Unit,
        );
        let update_service_info = take_id(&mut action_id);
        push_method(
            &mut methods,
            update_service_info,
            "updateServiceInfo",
            one_type(info_type()),
            Type::Unit,
        );
        let service_added = take_id(&mut action_id);
        push_signal(&mut signals, service_added, "serviceAdded");
        let service_removed = take_id(&mut action_id);
        push_signal(&mut signals, service_removed, "serviceRemoved");
        let machine_id = take_id(&mut action_id);
        push_method(&mut methods, machine_id, "machineId", Vec::new(), Type::String);
        assert(method_views(methods@) =~= directory_methods());
        assert(signal_views(signals@) =~= directory_signals());
        object.methods = methods;
        object.signals = signals;
        Meta {
            object,
            service,
            services,
            register_service,
            unregister_service,
            service_ready,
            update_service_info,
            service_added,
            service_removed,
            machine_id,
        }
    }
}

/// A call that is to be sent to the directory: where it goes, its arguments, and the type of
/// the value that is read out of the reply.
#[derive(Debug)]
pub struct Request<'a> {
    pub address: message::Address,
    pub args: Value,
    pub return_type: Option<&'a Type>,
}

/// The address of an action of the directory.
pub open spec fn directory_address(action: u32) -> message::Address {
    message::Address(service::Id(SD_SERVICE_ID), object::Id(MAIN_OBJECT_ID), ActionId(action))
}

/// Whether a request is sent to an action of the directory and its reply is read as a value of
/// the given type.
pub open spec fn asks(request: Result<Request<'_>, Error>, action: u32, returned: TypeView) -> bool {
    &&& request is Ok
    &&& request->Ok_0.address == directory_address(action)
    &&& request->Ok_0.return_type matches Some(ty) && ty.view() == returned
}

/// A client of the directory. `S` stands for the session over which the directory is reached.
#[derive(Debug)]
pub struct Client<S>(ObjectClient<S>);

impl<S> Client<S> {
    #[verifier::type_invariant]
    spec fn well_formed(&self) -> bool {
        &&& self.0.service_id == service::Id(SD_SERVICE_ID)
        &&& self.0.id == object::Id(MAIN_OBJECT_ID)
        &&& self.0.uid@ == Seq::new(20, |i: int| 0u8)
        &&& method_views(self.0.meta.methods@) == directory_methods()
        &&& signal_views(self.0.meta.signals@) == directory_signals()
        &&& self.0.meta.properties@ == Seq::<MetaProperty>::empty()
    }

    /// The session over which the directory is reached, in contracts.
    pub closed spec fn spec_session(&self) -> S {
        self.0.session
    }

    /// The client of the directory that is reached over a session.
    pub fn new(session: S) -> (client: Client<S>)
        ensures
            client.spec_session() == session,
    {
        Client(
            ObjectClient::new(
                service::Id(SD_SERVICE_ID),
                object::Id(MAIN_OBJECT_ID),
                object::Uid::zero(),
                Meta::get().object,
                session,
            ),
        )
    }

    /// The session over which the directory is reached.
    pub fn session(&self) -> (session: &S)
        ensures
            *session == self.spec_session(),
    {
        &self.0.session
    }

    /// The object that the directory is.
    pub fn object(&self) -> (object: &ObjectClient<S>)
        ensures
            object.session == self.spec_session(),
            object.service_id == service::Id(SD_SERVICE_ID),
            object.id == object::Id(MAIN_OBJECT_ID),
            object.uid@ == Seq::new(20, |i: int| 0u8),
            method_views(object.meta.methods@) == directory_methods(),
            signal_views(object.meta.signals@) == directory_signals(),
            object.meta.properties@ == Seq::<MetaProperty>::empty(),
    {
        proof {
            use_type_invariant(self);
        }
        &self.0
    }

    /// The call of an action of the directory.
    fn call<T: IntoValue>(&self, action: ActionId, args: T) -> (request: Result<Request<'_>, Error>)
        ensures
            forall|i: int|
                0 <= i < directory_methods().len() && action == (
                #[trigger] directory_methods()[i]).uid ==> asks(
                    request,
                    action.0,
                    directory_methods()[i].result->Some_0,
                ) && args.valued(request->Ok_0.args),
    {
        proof {
            use_type_invariant(self);
            let methods = self.0.meta.methods@;
            assert forall|i: int|
                0 <= i < directory_methods().len() && action == (
                #[trigger] directory_methods()[i]).uid implies find_method(
                methods,
                ActionName::Id(action),
            ) == Some(methods[i]) && methods[i].view() == directory_methods()[i] by {
                assert(method_views(methods)[i] == methods[i].view());
                assert forall|j: int| 0 <= j < i implies (#[trigger] methods[j]).uid
                    != methods[i].uid by {
                    assert(method_views(methods)[j] == methods[j].view());
                }
                method_found_at(methods, i);
            }
        }
        match self.0.meta_call(ActionNameOrId::Id(action)) {
            Ok((address, return_type)) => Ok(
                Request { address, args: args.into_value(), return_type },
            ),
            Err(err) => Err(err),
        }
    }

    /// Asks for all services.
    pub fn services(&self) -> (request: Result<Request<'_>, Error>)
        ensures
            asks(request, 101, TypeView::List(Box::new(info_type_view()))),
            request->Ok_0.args == Value::Unit,
    {
        assert(directory_methods()[1].uid == ActionId(101));
        self.call(ActionId(101), ())
    }

    /// Asks for the service of a name.
    pub fn service(&self, name: &str) -> (request: Result<Request<'_>, Error>)
        ensures
            asks(request, 100, info_type_view()),
            name.valued(request->Ok_0.args),
    {
        assert(directory_methods()[0].uid == ActionId(100));
        self.call(ActionId(100), name)
    }

    /// Asks to register a service.
    pub fn register(&self, info: InfoRecord) -> (request: Result<Request<'_>, Error>)
        ensures
            asks(request, 102, TypeView::UInt32),
            info.valued(request->Ok_0.args),
    {
        assert(directory_methods()[2].uid == ActionId(102));
        self.call(ActionId(102), info)
    }

    /// Asks to unregister a service.
    pub fn unregister(&self, id: service::Id) -> (request: Result<Request<'_>, Error>)
        ensures
            asks(request, 103, TypeView::Unit),
            id.valued(request->Ok_0.args),
    {
        assert(directory_methods()[3].uid == ActionId(103));
        self.call(ActionId(103), id)
    }

    /// Asks to mark a service as ready.
    pub fn set_ready(&self, id: service::Id) -> (request: Result<Request<'_>, Error>)
        ensures
            asks(request, 104, TypeView::Unit),
            id.valued(request->Ok_0.args),
    {
        assert(directory_methods()[4].uid == ActionId(104));
        self.call(ActionId(104), id)
    }

    /// Tells anew of a service.
    pub fn update(&self, info: InfoRecord) -> (request: Result<Request<'_>, Error>)
        ensures
            asks(request, 105, TypeView::Unit),
            info.valued(request->Ok_0.args),
    {
        assert(directory_methods()[5].uid == ActionId(105));
        self.call(ActionId(105), info)
    }

    /// Asks for the machine of the directory.
    pub fn machine_id(&self) -> (request: Result<Request<'_>, Error>)
        ensures
            asks(request, 108, TypeView::String),
            request->Ok_0.args == Value::Unit,
    {
        assert(directory_methods()[6].uid == ActionId(108));
        self.call(ActionId(108), ())
    }
}

} // verus!
