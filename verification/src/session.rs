//! Requests over a session, and the session of a client that a server serves.

use bytes::Bytes;
use vstd::prelude::*;
use crate::error::{BoxError, Error, FormatError};
use crate::formats::{format_args_of, return_value_of};
use crate::messaging;
use crate::value::Value;
use crate::wire;

verus! {

/// What the messaging layer reports, as an error of a request, in contracts.
pub open spec fn messaging_failure(err: messaging::Error) -> Error {
    match err {
        messaging::Error::LinkLost(error) => Error::Other(error),
        messaging::Error::CallError(message) => Error::Other(BoxError::Message(message)),
        messaging::Error::CallCanceled => Error::CallCanceled,
    }
}

/// The payload of a request that is to be sent, once its arguments were written.
pub fn request_payload(written: Result<Bytes, wire::Error>) -> (payload: Result<Bytes, Error>)
    ensures
        match written {
            Ok(bytes) => payload == Ok::<Bytes, Error>(bytes),
            Err(err) => payload == Err::<Bytes, Error>(
                Error::Other(BoxError::Format(FormatError::ArgumentsSerialization(err))),
            ),
        },
{
    format_args_of(written)
}

/// The payload of the reply to a call, once the messaging layer is done with it.
pub fn reply_payload(replied: Result<Bytes, messaging::Error>) -> (payload: Result<Bytes, Error>)
    ensures
        match replied {
            Ok(bytes) => payload == Ok::<Bytes, Error>(bytes),
            Err(err) => payload == Err::<Bytes, Error>(messaging_failure(err)),
        },
{
    match replied {
        Ok(bytes) => Ok(bytes),
        Err(err) => Err(Error::from(err)),
    }
}

/// What a call over a session gives: `written` is what its arguments were written as, `replied`
/// what the messaging layer gave for them, and `read` what the reply was read as.
pub fn call(
    written: Result<Bytes, wire::Error>,
    replied: Result<Bytes, messaging::Error>,
    read: Result<Value, wire::Error>,
) -> (result: Result<Value, Error>)
    ensures
        match (written, replied, read) {
            (Err(err), _, _) => result == Err::<Value, Error>(
                Error::Other(BoxError::Format(FormatError::ArgumentsSerialization(err))),
            ),
            (Ok(_), Err(err), _) => result == Err::<Value, Error>(messaging_failure(err)),
            (Ok(_), Ok(_), Err(err)) => result == Err::<Value, Error>(
                Error::Other(BoxError::Format(FormatError::MethodReturnValueDeserialization(err))),
            ),
            (Ok(_), Ok(_), Ok(value)) => result == Ok::<Value, Error>(value),
        },
{
    if let Err(err) = request_payload(written) {
        return Err(err);
    }
    if let Err(err) = reply_payload(replied) {
        return Err(err);
    }
    return_value_of(read)
}

/// What a post over a session gives: `written` is what its arguments were written as, and `sent`
/// what the messaging layer gave for them. The value of a signal is sent in the same way.
pub fn post(written: Result<Bytes, wire::Error>, sent: Result<(), messaging::Error>) -> (result: Result<
    (),
    Error,
>)
    ensures
        match (written, sent) {
            (Err(err), _) => result == Err::<(), Error>(
                Error::Other(BoxError::Format(FormatError::ArgumentsSerialization(err))),
            ),
            (Ok(_), Err(err)) => result == Err::<(), Error>(messaging_failure(err)),
            (Ok(_), Ok(())) => result is Ok,
        },
{
    if let Err(err) = request_payload(written) {
        return Err(err);
    }
    match sent {
        Ok(()) => Ok(()),
        Err(err) => Err(Error::from(err)),
    }
}

/// The session of a client that a server serves, when it changed whether the client may send
/// requests: the client has a session exactly while it may.
pub fn served_session<S>(remote_authorized: bool, session: S) -> (served: Option<S>)
    ensures
        served == (if remote_authorized {
            Some(session)
        } else {
            None
        }),
{
    if remote_authorized {
        Some(session)
    } else {
        None
    }
}

/// What a server of sessions is still waiting for.
#[derive(Clone, Copy, PartialEq, Eq, Structural, Debug)]
pub struct ServerState {
    /// Clients may still connect.
    pub accepting: bool,
    /// The endpoints of the server may still change.
    pub watching: bool,
}

/// What happens to a server of sessions. `C` stands for the connection of a client.
#[derive(PartialEq, Eq, Debug)]
pub enum ServerEvent<C> {
    /// A client connected.
    Connected(C),
    /// No other client can connect.
    ClientsEnded,
    /// The endpoints cannot change any more.
    EndpointsSettled,
}

/// The server after something happened to it, and the client that it is to serve, if one connected.
pub open spec fn after_event<C>(state: ServerState, event: ServerEvent<C>) -> (ServerState, Option<C>) {
    match event {
        ServerEvent::Connected(client) => (state, Some(client)),
        ServerEvent::ClientsEnded => (ServerState { accepting: false, ..state }, None),
        ServerEvent::EndpointsSettled => (ServerState { watching: false, ..state }, None),
    }
}

impl ServerState {
    /// A server that is bound.
    pub fn new() -> (state: ServerState)
        ensures
            state.accepting,
            state.watching,
    {
        ServerState { accepting: true, watching: true }
    }

    /// Tells whether there is nothing left to wait for, so that the server stops.
    pub fn is_over(&self) -> (over: bool)
        ensures
            over == (!self.accepting && !self.watching),
    {
        !self.accepting && !self.watching
    }

    /// Takes note of what happened. Gives the client that is to be served, if one connected.
    pub fn on_event<C>(&mut self, event: ServerEvent<C>) -> (client: Option<C>)
        ensures
            (*final(self), client) == after_event(*old(self), event),
    {
        match event {
            ServerEvent::Connected(client) => Some(client),
            ServerEvent::ClientsEnded => {
                self.accepting = false;
                None
            },
            ServerEvent::EndpointsSettled => {
                self.watching = false;
                None
            },
        }
    }
}

/// A server serves every client that connects, and goes on until no other client can connect: that
/// its endpoints are settled does not stop it, nor keep it from serving clients.
pub proof fn server_goes_on_while_clients_connect<C>(state: ServerState, event: ServerEvent<C>)
    requires
        state.accepting,
    ensures
        after_event(state, event).0.accepting <==> !(event is ClientsEnded),
        event matches ServerEvent::Connected(client) ==> after_event(state, event) == (
            state,
            Some(client),
        ),
{
}

} // verus!
