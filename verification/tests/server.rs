use bytes::Bytes;
use qi::error::HandlerError;
use qi::message::{Address, Id, Message};
use qi::meta::ActionId;
use qi::object;
use qi::server::{CallFuture, CallFutureState, DispatchFlow, Poll};
use qi::service;

fn address() -> Address {
    Address(service::Id(2), object::Id(1), ActionId(100))
}

fn running() -> CallFuture<&'static str, &'static str> {
    CallFuture::new(Id(7), address(), "work")
}

fn canceled() -> Poll<(Message, DispatchFlow)> {
    Poll::Ready((Message::Canceled { id: Id(7), address: address() }, DispatchFlow::Continue))
}

#[test]
fn finished_calls_are_replied_once() {
    let mut call = running();
    let pending: Poll<Result<Bytes, HandlerError>> = Poll::Pending;
    assert_eq!(call.poll("waker", pending), Poll::Pending);
    match &call.state {
        CallFutureState::Running { inner, waker } => {
            assert_eq!(*inner, "work");
            assert_eq!(*waker, Some("waker"));
        }
        other => panic!("not running: {:?}", other),
    }
    let payload = Bytes::from_static(b"reply");
    let done: Poll<Result<Bytes, HandlerError>> = Poll::Ready(Ok(payload.clone()));
    assert_eq!(
        call.poll("waker", done),
        Poll::Ready((
            Message::Reply { id: Id(7), address: address(), payload: payload.clone() },
            DispatchFlow::Continue
        ))
    );
    let again: Poll<Result<Bytes, HandlerError>> = Poll::Ready(Ok(payload));
    assert_eq!(call.poll("waker", again), Poll::Pending);
}

#[test]
fn failed_calls_are_answered_with_errors() {
    let error = |is_fatal| {
        let mut call = running();
        let failed: Poll<Result<Bytes, HandlerError>> =
            Poll::Ready(Err(HandlerError::Custom { message: "no".to_owned(), is_fatal }));
        call.poll("waker", failed)
    };
    let message = || Message::Error { id: Id(7), address: address(), error: "no".to_owned() };
    assert_eq!(error(false), Poll::Ready((message(), DispatchFlow::Continue)));
    assert_eq!(error(true), Poll::Ready((message(), DispatchFlow::Stop)));
}

#[test]
fn calls_canceled_by_their_handler() {
    let mut call = running();
    let failed: Poll<Result<Bytes, HandlerError>> = Poll::Ready(Err(HandlerError::CallCanceled));
    assert_eq!(call.poll("waker", failed), canceled());
}

#[test]
fn canceled_calls_wake_their_task_and_are_answered() {
    let mut call = running();
    let pending: Poll<Result<Bytes, HandlerError>> = Poll::Pending;
    call.poll("waker", pending);
    assert_eq!(call.cancel(), Some("waker"));
    assert_eq!(call.cancel(), None);
    assert!(call.inner_mut().is_none());
    let done: Poll<Result<Bytes, HandlerError>> = Poll::Ready(Ok(Bytes::new()));
    assert_eq!(call.poll("waker", done), canceled());
    assert_eq!(call.cancel(), None);
    let done: Poll<Result<Bytes, HandlerError>> = Poll::Ready(Ok(Bytes::new()));
    assert_eq!(call.poll("waker", done), Poll::Pending);
}

#[test]
fn only_the_call_that_is_meant_is_canceled() {
    let mut call = running();
    assert_eq!(call.cancel_if(&Id(8)), None);
    assert_eq!(call.inner_mut(), Some(&mut "work"));
    assert_eq!(call.cancel_if(&Id(7)), None);
    assert!(matches!(call.state, CallFutureState::Canceled));
}
