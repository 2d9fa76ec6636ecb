//! How calls are answered, and what requests over a session give.

use bytes::Bytes;
use vstd::prelude::*;
use crate::error::{BoxError, Error, FormatError, HandlerError};
use crate::handler::{
    answer_call, answer_joined_call, call_arguments_read, handle_call_with, handle_meta_call,
    handle_meta_event, handle_meta_post, method_called, result_written, value_read, CallStep,
    PostStep,
};
use crate::laws::meta::{method_search, signal_search};
use crate::message::{Address, Id, Message};
use crate::messaging::{self, CallError};
use crate::meta::{ActionId, ActionNameOrId, MetaObject};
use crate::server::{self, CallFuture, CallFutureState, DispatchFlow, Poll};
use crate::session::{
    self, reply_payload, request_payload, served_session, ServerEvent, ServerState,
};
use crate::value::{Type, Value};
use crate::wire;

verus! {

/// A call is answered with a reply, as canceled or with an error, as its handler ended; only after
/// a fatal error no other message is dispatched.
pub proof fn calls_are_answered_as_handlers_end(
    id: Id,
    address: Address,
    outcome: Result<Bytes, HandlerError>,
    given: (Message, DispatchFlow),
)
    requires
        call_ensures(server::answer::<HandlerError>, (id, address, outcome), given),
    ensures
        answers_call(id, address, outcome, given),
{
}

/// Whether a message, and what follows it, answers a call whose handler ended in a way.
pub open spec fn answers_call(
    id: Id,
    address: Address,
    outcome: Result<Bytes, HandlerError>,
    given: (Message, DispatchFlow),
) -> bool {
    match outcome {
        Ok(payload) => given.0 == (Message::Reply { id, address, payload }) && given.1 is Continue,
        Err(HandlerError::CallCanceled) => given.0 == (Message::Canceled { id, address })
            && given.1 is Continue,
        Err(HandlerError::Custom { message, is_fatal }) => {
            &&& given.0 matches Message::Error { id: i, address: a, error } && i == id && a == address
                && error@ == message@
            &&& given.1 is Stop <==> is_fatal
        },
    }
}

/// Whether a message, and what follows it, answers a call with an error, by what the error tells of
/// itself: whether the call was canceled, whether no other request may follow, and its text.
pub open spec fn answers_with_error(
    id: Id,
    address: Address,
    canceled: bool,
    fatal: bool,
    text: Seq<char>,
    given: (Message, DispatchFlow),
) -> bool {
    if canceled {
        given.0 == (Message::Canceled { id, address }) && given.1 is Continue
    } else {
        &&& given.0 matches Message::Error { id: i, address: a, error } && i == id && a == address
            && error@ == text
        &&& given.1 is Stop <==> fatal
    }
}

/// An error of any kind is answered by what it tells of itself, and a payload as it is; so it is
/// where the call is polled when its handler ended.
pub proof fn calls_are_answered_as_errors_tell<F, W, E: CallError>(
    id: Id,
    address: Address,
    err: E,
    canceled: bool,
    fatal: bool,
    text: String,
    given: (Message, DispatchFlow),
    payload: Bytes,
    replied: (Message, DispatchFlow),
    call: &mut CallFuture<F, W>,
    waker: W,
    answer: Poll<(Message, DispatchFlow)>,
)
    requires
        call_ensures(E::is_canceled, (&err,), canceled),
        call_ensures(E::is_fatal, (&err,), fatal),
        call_ensures(E::to_text, (&err,), text),
        call_ensures(server::answer::<E>, (id, address, Err(err)), given),
        call_ensures(server::answer::<E>, (id, address, Ok(payload)), replied),
        old(call).state is Running,
        call_ensures(
            CallFuture::<F, W>::poll::<E>,
            (call, waker, Poll::Ready(Err(err))),
            answer,
        ),
    ensures
        answers_with_error(id, address, canceled, fatal, text@, given),
        replied.0 == (Message::Reply { id, address, payload }) && replied.1 is Continue,
        final(call).state is Terminated,
        answer matches Poll::Ready(sent) && answers_with_error(
            old(call).id,
            old(call).address,
            canceled,
            fatal,
            text@,
            sent,
        ),
{
}

/// A call starts with its handler at work, and nothing to wake.
pub proof fn calls_start_running<F, W>(id: Id, address: Address, work: F, call: CallFuture<F, W>)
    requires
        call_ensures(CallFuture::<F, W>::new, (id, address, work), call),
    ensures
        call.id == id,
        call.address == address,
        call.state matches CallFutureState::Running { inner, waker } && inner == work
            && waker is None,
{
}

/// Whether a call was canceled: one that was running, and that wakes what polled it last; any other
/// stays as it is.
pub open spec fn was_canceled<F, W>(
    before: CallFuture<F, W>,
    after: CallFuture<F, W>,
    woken: Option<W>,
) -> bool {
    &&& after.id == before.id
    &&& after.address == before.address
    &&& match before.state {
        CallFutureState::Running { waker, .. } => after.state is Canceled && woken == waker,
        CallFutureState::Canceled => after.state is Canceled && woken is None,
        CallFutureState::Terminated => after.state is Terminated && woken is None,
    }
}

/// Canceling stops a running call and wakes what polled it; it does nothing to a call that is over.
pub proof fn canceling_stops_a_running_call<F, W>(call: &mut CallFuture<F, W>, woken: Option<W>)
    requires
        call_ensures(CallFuture::<F, W>::cancel, (call,), woken),
    ensures
        was_canceled(*old(call), *final(call), woken),
{
}

/// Only the call with the given identifier is canceled.
pub proof fn only_the_named_call_is_canceled<F, W>(
    call: &mut CallFuture<F, W>,
    id: &Id,
    woken: Option<W>,
)
    requires
        call_ensures(CallFuture::<F, W>::cancel_if, (call, id), woken),
    ensures
        old(call).id.0 == id.0 ==> was_canceled(*old(call), *final(call), woken),
        old(call).id.0 != id.0 ==> *final(call) == *old(call) && woken is None,
{
}

/// A call is polled until its handler ended, and then answered so; a canceled one is answered as
/// canceled, whatever its handler does; a call that was answered is not answered again. What polls
/// it last is what is woken.
pub proof fn polling_answers_once<F, W>(
    call: &mut CallFuture<F, W>,
    waker: W,
    inner: Poll<Result<Bytes, HandlerError>>,
    answer: Poll<(Message, DispatchFlow)>,
)
    requires
        call_ensures(CallFuture::<F, W>::poll::<HandlerError>, (call, waker, inner), answer),
    ensures
        final(call).id == old(call).id,
        final(call).address == old(call).address,
        match (old(call).state, inner) {
            (CallFutureState::Running { inner: work, .. }, Poll::Pending) => {
                &&& answer is Pending
                &&& final(call).state matches CallFutureState::Running { inner: kept, waker: last }
                    && kept == work && last == Some(waker)
            },
            (CallFutureState::Running { .. }, Poll::Ready(outcome)) => {
                &&& final(call).state is Terminated
                &&& answer matches Poll::Ready(given) && answers_call(
                    old(call).id,
                    old(call).address,
                    outcome,
                    given,
                )
            },
            (CallFutureState::Canceled, _) => {
                &&& final(call).state is Terminated
                &&& answer matches Poll::Ready(given) && given.0 == (Message::Canceled {
                    id: old(call).id,
                    address: old(call).address,
                }) && given.1 is Continue
            },
            (CallFutureState::Terminated, _) => final(call).state is Terminated && answer is Pending,
        },
{
}

/// The work of a handler can be changed while the call is running, and only then; nothing else of
/// the call is.
pub proof fn work_is_given_while_running<F, W>(call: &mut CallFuture<F, W>, work: Option<&mut F>)
    requires
        call_ensures(CallFuture::<F, W>::inner_mut, (call,), work),
    ensures
        final(call).id == old(call).id,
        final(call).address == old(call).address,
        work is Some <==> old(call).state is Running,
        match old(call).state {
            CallFutureState::Running { inner, waker } => *work->Some_0 == inner
                && (final(call).state matches CallFutureState::Running { inner: changed, waker: last }
                && changed == *final(work->Some_0) && last == waker),
            _ => final(call).state == old(call).state,
        },
{
}

/// Whether a method is the first of an object with an identifier.
pub open spec fn is_first_method(meta: MetaObject, id: u32, i: int) -> bool {
    &&& 0 <= i < meta.methods@.len()
    &&& meta.methods@[i].uid.0 == id
    &&& forall|j: int| 0 <= j < i ==> (#[trigger] meta.methods@[j]).uid.0 != id
}

/// Whether a signal is the first of an object with an identifier.
pub open spec fn is_first_signal(meta: MetaObject, id: u32, i: int) -> bool {
    &&& 0 <= i < meta.signals@.len()
    &&& meta.signals@[i].uid.0 == id
    &&& forall|j: int| 0 <= j < i ==> (#[trigger] meta.signals@[j]).uid.0 != id
}

/// Whether an object has no method with an identifier.
pub open spec fn has_no_method(meta: MetaObject, id: u32) -> bool {
    forall|i: int| 0 <= i < meta.methods@.len() ==> (#[trigger] meta.methods@[i]).uid.0 != id
}

/// Whether an object has no signal with an identifier.
pub open spec fn has_no_signal(meta: MetaObject, id: u32) -> bool {
    forall|i: int| 0 <= i < meta.signals@.len() ==> (#[trigger] meta.signals@[i]).uid.0 != id
}

/// A list has a first method with an identifier, or none.
proof fn first_method_or_none(meta: MetaObject, id: ActionId)
    ensures
        match crate::meta::find_method(meta.methods@, crate::meta::ActionName::Id(id)) {
            Some(method) => exists|i: int| #[trigger]
                is_first_method(meta, id.0, i) && meta.methods@[i] == method,
            None => has_no_method(meta, id.0),
        },
{
    let ident = ActionNameOrId::Id(id);
    method_search(meta.methods@, ident);
    if let Some(method) = crate::meta::find_method(
        meta.methods@,
        crate::meta::ActionName::Id(id),
    ) {
        let i = choose|i: int|
            #![trigger meta.methods@[i]]
            {
                &&& 0 <= i < meta.methods@.len()
                &&& meta.methods@[i] == method
                &&& crate::laws::meta::means(ident, method.uid.0, method.name@)
                &&& forall|j: int|
                    0 <= j < i ==> !crate::laws::meta::means(
                        ident,
                        (#[trigger] meta.methods@[j]).uid.0,
                        meta.methods@[j].name@,
                    )
            };
        assert(is_first_method(meta, id.0, i));
    }
}

/// A list has a first signal with an identifier, or none.
proof fn first_signal_or_none(meta: MetaObject, id: ActionId)
    ensures
        match crate::meta::find_signal(meta.signals@, crate::meta::ActionName::Id(id)) {
            Some(signal) => exists|i: int| #[trigger]
                is_first_signal(meta, id.0, i) && meta.signals@[i] == signal,
            None => has_no_signal(meta, id.0),
        },
{
    let ident = ActionNameOrId::Id(id);
    signal_search(meta.signals@, ident);
    if let Some(signal) = crate::meta::find_signal(
        meta.signals@,
        crate::meta::ActionName::Id(id),
    ) {
        let i = choose|i: int|
            #![trigger meta.signals@[i]]
            {
                &&& 0 <= i < meta.signals@.len()
                &&& meta.signals@[i] == signal
                &&& crate::laws::meta::means(ident, signal.uid.0, signal.name@)
                &&& forall|j: int|
                    0 <= j < i ==> !crate::laws::meta::means(
                        ident,
                        (#[trigger] meta.signals@[j]).uid.0,
                        meta.signals@[j].name@,
                    )
            };
        assert(is_first_signal(meta, id.0, i));
    }
}

/// Whether a type is the one to read a value as that has a signature.
pub open spec fn is_read_as(ty: Option<&Type>, signature: Option<Type>) -> bool {
    match signature {
        Some(expected) => ty is Some && *ty->Some_0 == expected,
        None => ty is None,
    }
}

/// The arguments of a call are read as the parameters of the first method with its identifier; a
/// call of no method of the object is answered so.
pub proof fn arguments_of_calls_are_those_of_the_method(
    meta: &MetaObject,
    id: ActionId,
    step: CallStep,
    i: int,
)
    requires
        call_ensures(handle_meta_call, (meta, id), step),
    ensures
        is_first_method(*meta, id.0, i) ==> (step matches CallStep::ReadArguments(ty) && is_read_as(
            ty,
            meta.methods@[i].parameters_signature.0,
        )),
        has_no_method(*meta, id.0) ==> (step matches CallStep::Answer(
            Err(Error::MethodNotFound(ActionNameOrId::Id(missing))),
        ) && missing.0 == id.0),
{
    first_method_or_none(*meta, id);
    if let Some(method) = crate::meta::find_method(
        meta.methods@,
        crate::meta::ActionName::Id(id),
    ) {
        let k = choose|k: int| #[trigger]
            is_first_method(*meta, id.0, k) && meta.methods@[k] == method;
        if is_first_method(*meta, id.0, i) {
            assert(meta.methods@[k].uid.0 == id.0);
            assert(meta.methods@[i].uid.0 == id.0);
            assert(i == k);
        }
    }
}

/// The value of a post is read as the parameters of the first method with its identifier, or else as
/// the value of the first signal with it; a post for neither is dropped.
pub proof fn values_of_posts_are_those_of_the_method_or_signal(
    meta: &MetaObject,
    id: ActionId,
    step: PostStep,
    i: int,
    k: int,
)
    requires
        call_ensures(handle_meta_post, (meta, id), step),
    ensures
        is_first_method(*meta, id.0, i) ==> (step matches PostStep::ReadValue(ty) && is_read_as(
            ty,
            meta.methods@[i].parameters_signature.0,
        )),
        has_no_method(*meta, id.0) && is_first_signal(*meta, id.0, k) ==> (
        step matches PostStep::ReadValue(ty) && is_read_as(ty, meta.signals@[k].signature.0)),
        has_no_method(*meta, id.0) && has_no_signal(*meta, id.0) ==> step is Discard,
{
    first_method_or_none(*meta, id);
    first_signal_or_none(*meta, id);
    if let Some(method) = crate::meta::find_method(
        meta.methods@,
        crate::meta::ActionName::Id(id),
    ) {
        let m = choose|m: int| #[trigger]
            is_first_method(*meta, id.0, m) && meta.methods@[m] == method;
        assert(meta.methods@[m].uid.0 == id.0);
        if is_first_method(*meta, id.0, i) {
            assert(meta.methods@[i].uid.0 == id.0);
            assert(i == m);
        }
    }
    if let Some(signal) = crate::meta::find_signal(
        meta.signals@,
        crate::meta::ActionName::Id(id),
    ) {
        let m = choose|m: int| #[trigger]
            is_first_signal(*meta, id.0, m) && meta.signals@[m] == signal;
        assert(meta.signals@[m].uid.0 == id.0);
        if is_first_signal(*meta, id.0, k) {
            assert(meta.signals@[k].uid.0 == id.0);
            assert(k == m);
        }
    }
    if is_first_method(*meta, id.0, i) {
        assert(meta.methods@[i].uid.0 == id.0);
    }
    if is_first_signal(*meta, id.0, k) {
        assert(meta.signals@[k].uid.0 == id.0);
    }
}

/// The value of an event is read as that of the first signal with its identifier, wherever in the
/// list of signals it stands; an event of no signal of the object is dropped.
pub proof fn values_of_events_are_those_of_the_signal(
    meta: &MetaObject,
    id: ActionId,
    step: PostStep,
    k: int,
)
    requires
        call_ensures(handle_meta_event, (meta, id), step),
    ensures
        is_first_signal(*meta, id.0, k) ==> (step matches PostStep::ReadValue(ty) && is_read_as(
            ty,
            meta.signals@[k].signature.0,
        )),
        has_no_signal(*meta, id.0) ==> step is Discard,
{
    first_signal_or_none(*meta, id);
    if let Some(signal) = crate::meta::find_signal(
        meta.signals@,
        crate::meta::ActionName::Id(id),
    ) {
        let m = choose|m: int| #[trigger]
            is_first_signal(*meta, id.0, m) && meta.signals@[m] == signal;
        assert(meta.signals@[m].uid.0 == id.0);
        if is_first_signal(*meta, id.0, k) {
            assert(meta.signals@[k].uid.0 == id.0);
            assert(k == m);
        }
    }
}

/// The method with the identifier of a call is called with the arguments that were read; arguments
/// that cannot be read end the call.
pub proof fn read_arguments_are_handed_over(
    id: ActionId,
    read: Result<Value, wire::Error>,
    step: CallStep,
)
    requires
        call_ensures(call_arguments_read, (id, read), step),
    ensures
        match read {
            Ok(args) => step matches CallStep::Call(ActionNameOrId::Id(called), given) && called.0
                == id.0 && given == args,
            Err(err) => step matches CallStep::Answer(
                Err(Error::Other(BoxError::Format(FormatError::ArgumentsDeserialization(why)))),
            ) && why == err,
        },
{
}

/// What a method gives is written, and its error ends the call.
pub proof fn results_are_written(called: Result<Value, Error>, step: CallStep)
    requires
        call_ensures(method_called, (called,), step),
    ensures
        match called {
            Ok(value) => step matches CallStep::WriteResult(given) && given == value,
            Err(err) => step matches CallStep::Answer(Err(why)) && why == err,
        },
{
}

/// What was written is the answer, and a failure to write is an error of the return value.
pub proof fn written_results_are_answers(written: Result<Bytes, wire::Error>, step: CallStep)
    requires
        call_ensures(result_written, (written,), step),
    ensures
        match written {
            Ok(payload) => step matches CallStep::Answer(Ok(given)) && given == payload,
            Err(err) => step matches CallStep::Answer(
                Err(
                    Error::Other(BoxError::Format(FormatError::MethodReturnValueSerialization(why))),
                ),
            ) && why == err,
        },
{
}

/// A value that was read is handed to the object under the identifier of the request, and one that
/// cannot be read is dropped.
pub proof fn read_values_are_handed_over(
    id: ActionId,
    read: Result<Value, wire::Error>,
    step: PostStep,
)
    requires
        call_ensures(value_read, (id, read), step),
    ensures
        match read {
            Ok(value) => step matches PostStep::Hand(ActionNameOrId::Id(meant), given) && meant.0
                == id.0 && given == value,
            Err(_) => step is Discard,
        },
{
}

/// A call is answered with its payload, as canceled, or with a fatal error that says what went
/// wrong; so it is where the task that handled it came to its end.
pub proof fn handled_calls_are_answered(
    outcome: Result<Bytes, Error>,
    words: String,
    answer: Result<Bytes, HandlerError>,
    joined: Result<Bytes, HandlerError>,
)
    requires
        call_ensures(answer_call, (outcome,), answer),
        call_ensures(answer_joined_call, (Ok(outcome),), joined),
        outcome is Err ==> call_ensures(Error::to_text, (&outcome->Err_0,), words),
    ensures
        is_answer_to(outcome, words@, answer),
        is_answer_to(outcome, words@, joined),
{
}

/// A call whose task did not end by itself is answered as canceled, or with an error that is not
/// fatal and says what the task says.
pub proof fn calls_of_failed_tasks_are_answered(
    err: tokio::task::JoinError,
    answer: Result<Bytes, HandlerError>,
)
    requires
        call_ensures(answer_joined_call, (Err(err),), answer),
    ensures
        answer is Err,
        answer->Err_0 is CallCanceled ==> call_ensures(
            tokio::task::JoinError::is_cancelled,
            (&err,),
            true,
        ),
        answer->Err_0 matches HandlerError::Custom { message, is_fatal } ==> !is_fatal
            && call_ensures(tokio::task::JoinError::is_cancelled, (&err,), false)
            && vstd::string::to_string_from_display_ensures(&err, message),
{
}

/// Whether a call is answered as it ended, where an error is said in words.
pub open spec fn is_answer_to(
    outcome: Result<Bytes, Error>,
    words: Seq<char>,
    answer: Result<Bytes, HandlerError>,
) -> bool {
    match outcome {
        Ok(payload) => answer == Ok::<Bytes, HandlerError>(payload),
        Err(Error::CallCanceled) => answer matches Err(HandlerError::CallCanceled),
        Err(_) => answer matches Err(HandlerError::Custom { message, is_fatal }) && message@ == words
            && is_fatal,
    }
}

/// A call comes to what was written of what the method gave, or to the first thing that went wrong:
/// there is no such method, its arguments cannot be read, it fails, or its result cannot be
/// written.
pub proof fn calls_come_to_the_first_failure(
    meta: &MetaObject,
    id: ActionId,
    read: Result<Value, wire::Error>,
    called: Result<Value, Error>,
    written: Result<Bytes, wire::Error>,
    outcome: Result<Bytes, Error>,
    i: int,
)
    requires
        call_ensures(handle_call_with, (meta, id, read, called, written), outcome),
    ensures
        has_no_method(*meta, id.0) ==> (outcome matches Err(
            Error::MethodNotFound(ActionNameOrId::Id(missing)),
        ) && missing.0 == id.0),
        is_first_method(*meta, id.0, i) ==> {
            &&& read matches Err(err) ==> (outcome matches Err(
                Error::Other(BoxError::Format(FormatError::ArgumentsDeserialization(why))),
            ) && why == err)
            &&& read is Ok && called is Err ==> outcome == Err::<Bytes, Error>(called->Err_0)
            &&& read is Ok && called is Ok && written is Err ==> (outcome matches Err(
                Error::Other(BoxError::Format(FormatError::MethodReturnValueSerialization(why))),
            ) && why == written->Err_0)
            &&& read is Ok && called is Ok && written is Ok ==> outcome == Ok::<Bytes, Error>(
                written->Ok_0,
            )
        },
{
    first_method_or_none(*meta, id);
    if is_first_method(*meta, id.0, i) {
        assert(meta.methods@[i].uid.0 == id.0);
    }
    if let Some(method) = crate::meta::find_method(
        meta.methods@,
        crate::meta::ActionName::Id(id),
    ) {
        let k = choose|k: int| #[trigger]
            is_first_method(*meta, id.0, k) && meta.methods@[k] == method;
        assert(meta.methods@[k].uid.0 == id.0);
    }
}

/// Whether an error is what the messaging layer reported.
pub open spec fn is_reported(reported: messaging::Error, err: Error) -> bool {
    match reported {
        messaging::Error::CallCanceled => err is CallCanceled,
        messaging::Error::CallError(words) => err matches Error::Other(BoxError::Message(message))
            && message == words,
        messaging::Error::LinkLost(cause) => err matches Error::Other(inner) && inner == cause,
    }
}

/// The payload of a request is what its arguments were written as.
pub proof fn payload_of_a_request(
    written: Result<Bytes, wire::Error>,
    payload: Result<Bytes, Error>,
)
    requires
        call_ensures(request_payload, (written,), payload),
    ensures
        match written {
            Ok(bytes) => payload == Ok::<Bytes, Error>(bytes),
            Err(err) => payload matches Err(
                Error::Other(BoxError::Format(FormatError::ArgumentsSerialization(why))),
            ) && why == err,
        },
{
}

/// The payload of a reply is what came, or what the messaging layer reported.
pub proof fn payload_of_a_reply(
    replied: Result<Bytes, messaging::Error>,
    payload: Result<Bytes, Error>,
)
    requires
        call_ensures(reply_payload, (replied,), payload),
    ensures
        match replied {
            Ok(bytes) => payload == Ok::<Bytes, Error>(bytes),
            Err(err) => payload is Err && is_reported(err, payload->Err_0),
        },
{
}

/// A call over a session gives what the reply was read as, or the first thing that went wrong: the
/// arguments cannot be written, the messaging layer fails, or the reply cannot be read.
pub proof fn calls_over_a_session(
    written: Result<Bytes, wire::Error>,
    replied: Result<Bytes, messaging::Error>,
    read: Result<Value, wire::Error>,
    result: Result<Value, Error>,
)
    requires
        call_ensures(session::call, (written, replied, read), result),
    ensures
        written matches Err(err) ==> (result matches Err(
            Error::Other(BoxError::Format(FormatError::ArgumentsSerialization(why))),
        ) && why == err),
        written is Ok && replied is Err ==> result is Err && is_reported(
            replied->Err_0,
            result->Err_0,
        ),
        written is Ok && replied is Ok && read is Err ==> (result matches Err(
            Error::Other(BoxError::Format(FormatError::MethodReturnValueDeserialization(why))),
        ) && why == read->Err_0),
        written is Ok && replied is Ok && read is Ok ==> result == Ok::<Value, Error>(read->Ok_0),
{
}

/// A post over a session succeeds where its arguments are written and sent.
pub proof fn posts_over_a_session(
    written: Result<Bytes, wire::Error>,
    sent: Result<(), messaging::Error>,
    result: Result<(), Error>,
)
    requires
        call_ensures(session::post, (written, sent), result),
    ensures
        result is Ok <==> written is Ok && sent is Ok,
        written matches Err(err) ==> (result matches Err(
            Error::Other(BoxError::Format(FormatError::ArgumentsSerialization(why))),
        ) && why == err),
        written is Ok && sent is Err ==> is_reported(sent->Err_0, result->Err_0),
{
}

/// A client has its session exactly while it may send requests.
pub proof fn authorized_clients_have_a_session<S>(authorized: bool, own: S, served: Option<S>)
    requires
        call_ensures(served_session::<S>, (authorized, own), served),
    ensures
        authorized ==> served == Some(own),
        !authorized ==> served is None,
{
}

/// A server starts with clients and endpoints to wait for, and is over once neither is left.
pub proof fn servers_wait_for_clients_and_endpoints(
    fresh: ServerState,
    state: &ServerState,
    over: bool,
)
    requires
        call_ensures(ServerState::new, (), fresh),
        call_ensures(ServerState::is_over, (state,), over),
    ensures
        fresh.accepting && fresh.watching,
        over <==> !state.accepting && !state.watching,
{
}

/// A client that connects is served and changes nothing; that no client can connect any more, and
/// that the endpoints are settled, each ends one of the things that a server waits for.
pub proof fn servers_take_note<C>(
    state: &mut ServerState,
    event: ServerEvent<C>,
    client: Option<C>,
)
    requires
        call_ensures(ServerState::on_event::<C>, (state, event), client),
    ensures
        event matches ServerEvent::Connected(connected) ==> client == Some(connected),
        !(event is Connected) ==> client is None,
        final(state).accepting <==> old(state).accepting && !(event is ClientsEnded),
        final(state).watching <==> old(state).watching && !(event is EndpointsSettled),
{
}

} // verus!
