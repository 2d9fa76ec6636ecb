//! How an object handles the requests that are routed to it, step by step: the object is asked
//! for what it tells of itself, the arguments are read, the object is called, and what it gives is
//! written.

use bytes::Bytes;
use vstd::prelude::*;
use crate::error::{BoxError, Error, FormatError, join_failure, HandlerError, NoHandlerError};
use crate::formats::{args_of, format_return_value_of};
use crate::message;
use crate::meta::{find_method, find_signal, ActionId, ActionName, ActionNameOrId, MetaObject};
use crate::object::{post_action, PostAction};
use crate::server::{answers, DispatchFlow};
use crate::services::{handler_at, ServiceView};
use crate::value::{Type, Value};
use crate::wire;

verus! {

/// What is to be done next to handle a call.
#[derive(Debug)]
pub enum CallStep<'a> {
    /// Read the arguments, as a value of this type or of the type that it carries.
    ReadArguments(Option<&'a Type>),
    /// Call a method of the object with the arguments.
    Call(ActionNameOrId, Value),
    /// Write what the method gave.
    WriteResult(Value),
    /// Answer the call.
    Answer(Result<Bytes, Error>),
}

/// Starts to handle a call: the arguments are of the type of the parameters of the method. A call
/// of something else than a method of the object is answered with an error.
pub fn handle_meta_call<'a>(meta: &'a MetaObject, id: ActionId) -> (step: CallStep<'a>)
    ensures
        match find_method(meta.methods@, ActionName::Id(id)) {
            Some(method) => match step {
                CallStep::ReadArguments(Some(ty)) => method.parameters_signature.0 == Some(*ty),
                CallStep::ReadArguments(None) => method.parameters_signature.0 is None,
                _ => false,
            },
            None => step == CallStep::Answer(Err(Error::MethodNotFound(ActionNameOrId::Id(id)))),
        },
{
    let action_name_or_id = ActionNameOrId::Id(id);
    match meta.method(&action_name_or_id) {
        Some(method) => CallStep::ReadArguments(method.parameters_signature.as_type()),
        None => CallStep::Answer(Err(Error::MethodNotFound(action_name_or_id))),
    }
}

/// Goes on with a call when its arguments were read.
pub fn call_arguments_read(id: ActionId, read: Result<Value, wire::Error>) -> (step: CallStep<
    'static,
>)
    ensures
        match read {
            Ok(args) => step == CallStep::Call(ActionNameOrId::Id(id), args),
            Err(err) => step == CallStep::Answer(
                Err(Error::Other(BoxError::Format(FormatError::ArgumentsDeserialization(err)))),
            ),
        },
{
    match args_of(read) {
        Ok(args) => CallStep::Call(ActionNameOrId::Id(id), args),
        Err(err) => CallStep::Answer(Err(err)),
    }
}

/// Goes on with a call when the method was called.
pub fn method_called(called: Result<Value, Error>) -> (step: CallStep<'static>)
    ensures
        match called {
            Ok(value) => step == CallStep::WriteResult(value),
            Err(err) => step == CallStep::Answer(Err(err)),
        },
{
    match called {
        Ok(value) => CallStep::WriteResult(value),
        Err(err) => CallStep::Answer(Err(err)),
    }
}

/// Ends a call when what the method gave was written.
pub fn result_written(written: Result<Bytes, wire::Error>) -> (step: CallStep<'static>)
    ensures
        match written {
            Ok(payload) => step == CallStep::Answer(Ok(payload)),
            Err(err) => step == CallStep::Answer(
                Err(
                    Error::Other(
                        BoxError::Format(FormatError::MethodReturnValueSerialization(err)),
                    ),
                ),
            ),
        },
{
    CallStep::Answer(format_return_value_of(written))
}

/// What is to be done next to handle a post or an event.
#[derive(Debug)]
pub enum PostStep<'a> {
    /// Read the value, as one of this type or of the type that it carries.
    ReadValue(Option<&'a Type>),
    /// Hand the value to the object.
    Hand(ActionNameOrId, Value),
    /// Forget the request: it is not answered in any case.
    Discard,
}

/// Starts to handle a post. A post for nothing that the object has is discarded.
pub fn handle_meta_post<'a>(meta: &'a MetaObject, id: ActionId) -> (step: PostStep<'a>)
    ensures
        match post_action(*meta, ActionName::Id(id)) {
            Some((_, signature)) => match step {
                PostStep::ReadValue(Some(ty)) => signature.0 == Some(*ty),
                PostStep::ReadValue(None) => signature.0 is None,
                _ => false,
            },
            None => step is Discard,
        },
{
    match PostAction::get(meta, &ActionNameOrId::Id(id)) {
        Some(action) => match action {
            PostAction::Method(method) => PostStep::ReadValue(
                method.parameters_signature.as_type(),
            ),
            PostAction::Signal(signal) => PostStep::ReadValue(signal.signature.as_type()),
        },
        None => PostStep::Discard,
    }
}

/// Starts to handle an event. An event of no signal of the object is discarded.
pub fn handle_meta_event<'a>(meta: &'a MetaObject, id: ActionId) -> (step: PostStep<'a>)
    ensures
        match find_signal(meta.signals@, ActionName::Id(id)) {
            Some(signal) => match step {
                PostStep::ReadValue(Some(ty)) => signal.signature.0 == Some(*ty),
                PostStep::ReadValue(None) => signal.signature.0 is None,
                _ => false,
            },
            None => step is Discard,
        },
{
    match meta.signal(&ActionNameOrId::Id(id)) {
        Some(signal) => PostStep::ReadValue(signal.signature.as_type()),
        None => PostStep::Discard,
    }
}

/// Goes on with a post or an event when its value was read. One whose value cannot be read is
/// discarded.
pub fn value_read(id: ActionId, read: Result<Value, wire::Error>) -> (step: PostStep<'static>)
    ensures
        match read {
            Ok(value) => step == PostStep::Hand(ActionNameOrId::Id(id), value),
            Err(_) => step is Discard,
        },
{
    match args_of(read) {
        Ok(value) => PostStep::Hand(ActionNameOrId::Id(id), value),
        Err(_) => PostStep::Discard,
    }
}

/// Whether a call is answered with the outcome of its handling: an error is fatal, unless the call
/// was canceled.
pub open spec fn call_answered(
    outcome: Result<Bytes, Error>,
    answer: Result<Bytes, HandlerError>,
) -> bool {
    match outcome {
        Ok(payload) => answer == Ok::<Bytes, HandlerError>(payload),
        Err(Error::CallCanceled) => answer == Err::<Bytes, HandlerError>(HandlerError::CallCanceled),
        Err(err) => answer matches Err(error) && error.says(err.text(), true),
    }
}

/// Answers a call with the outcome of its handling.
pub fn answer_call(outcome: Result<Bytes, Error>) -> (answer: Result<Bytes, HandlerError>)
    ensures
        call_answered(outcome, answer),
{
    match outcome {
        Ok(payload) => Ok(payload),
        Err(err) => Err(HandlerError::from(err)),
    }
}

/// Answers a call with the outcome of the task that handled it. Where the task did not end by
/// itself, the call is answered as canceled where the task was, and otherwise with an error that
/// is not fatal and says how the task failed.
pub fn answer_joined_call(
    joined: Result<Result<Bytes, Error>, tokio::task::JoinError>,
) -> (answer: Result<Bytes, HandlerError>)
    ensures
        match joined {
            Ok(outcome) => call_answered(outcome, answer),
            Err(err) => answer matches Err(error) && join_failure(err, error),
        },
{
    match joined {
        Ok(outcome) => answer_call(outcome),
        Err(err) => Err(HandlerError::from(err)),
    }
}

/// What a call is answered, where the arguments were read as `read`, the method gave `called` and
/// that was written as `written`.
pub open spec fn call_outcome(
    meta: MetaObject,
    id: ActionId,
    read: Result<Value, wire::Error>,
    called: Result<Value, Error>,
    written: Result<Bytes, wire::Error>,
) -> Result<Bytes, Error> {
    if find_method(meta.methods@, ActionName::Id(id)) is None {
        Err(Error::MethodNotFound(ActionNameOrId::Id(id)))
    } else {
        match (read, called, written) {
            (Err(err), _, _) => Err(
                Error::Other(BoxError::Format(FormatError::ArgumentsDeserialization(err))),
            ),
            (_, Err(err), _) => Err(err),
            (_, _, Err(err)) => Err(
                Error::Other(BoxError::Format(FormatError::MethodReturnValueSerialization(err))),
            ),
            (_, _, Ok(payload)) => Ok(payload),
        }
    }
}

/// Handles a call from its start to its answer, with what came of each step.
pub fn handle_call_with(
    meta: &MetaObject,
    id: ActionId,
    read: Result<Value, wire::Error>,
    called: Result<Value, Error>,
    written: Result<Bytes, wire::Error>,
) -> (outcome: Result<Bytes, Error>)
    ensures
        outcome == call_outcome(*meta, id, read, called, written),
{
    match handle_meta_call(meta, id) {
        CallStep::Answer(outcome) => outcome,
        _ => match call_arguments_read(id, read) {
            CallStep::Answer(outcome) => outcome,
            _ => match method_called(called) {
                CallStep::Answer(outcome) => outcome,
                _ => format_return_value_of(written),
            },
        },
    }
}

/// A call to an address that stands for no object is answered with an error that says so, and no
/// other message is dispatched after it.
pub proof fn call_without_handler_is_answered<O>(
    services: Map<u32, ServiceView<O>>,
    id: message::Id,
    address: message::Address,
    outcome: Result<Bytes, Error>,
    answer: Result<Bytes, HandlerError>,
    sent: (message::Message, DispatchFlow),
)
    requires
        handler_at(services, address) is None,
        outcome == Err::<Bytes, Error>(
            Error::Other(BoxError::NoHandler(NoHandlerError(message::Type::Call, address))),
        ),
        call_answered(outcome, answer),
        answers(id, address, answer, sent),
    ensures
        sent.0 matches message::Message::Error { id: i, address: a, error } && i == id && a == address
            && error@ == NoHandlerError(message::Type::Call, address).text(),
        sent.1 == DispatchFlow::Stop,
{
}

} // verus!
