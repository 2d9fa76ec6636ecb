//! Control of a session: who may send requests over it, and with which capabilities.

use bytes::Bytes;
use vstd::prelude::*;
use crate::auth::{self, Authenticator};
use crate::capabilities::{self, KeyDynValueMap};
use crate::error::{BoxError, Error, FormatError, HandlerError, NoHandlerError};
use crate::formats::format_return_value_of;
use crate::message;
use crate::meta::ActionId;
use crate::object;
use crate::server::{answers, DispatchFlow};
use crate::service;
use crate::value::Value;
use crate::wire;

verus! {

/// The service that control requests are sent to.
pub const SERVICE_ID: u32 = 0;

/// The object that control requests are sent to.
pub const OBJECT_ID: u32 = 0;

/// The action that authenticates a client.
pub const AUTHENTICATE_ACTION_ID: u32 = 8;

/// The address that authentication requests are sent to, in contracts.
pub open spec fn spec_authenticate_address() -> message::Address {
    message::Address(
        service::Id(SERVICE_ID),
        object::Id(OBJECT_ID),
        ActionId(AUTHENTICATE_ACTION_ID),
    )
}

/// The address that authentication requests are sent to.
pub fn authenticate_address() -> (address: message::Address)
    ensures
        address == spec_authenticate_address(),
{
    message::Address(
        service::Id(SERVICE_ID),
        object::Id(OBJECT_ID),
        ActionId(AUTHENTICATE_ACTION_ID),
    )
}

/// Whether an address is one of control, in contracts.
pub open spec fn control_address(address: message::Address) -> bool {
    address.0.0 == SERVICE_ID && address.1.0 == OBJECT_ID
}

/// Tells whether an address is one of control.
pub fn is_control_address(address: message::Address) -> (answer: bool)
    ensures
        answer == control_address(address),
{
    address.service().0 == SERVICE_ID && address.object().0 == OBJECT_ID
}

/// Why a server refuses to authenticate a client.
#[derive(PartialEq, Eq, Debug)]
pub enum AuthenticateClientError {
    /// The client does not share a capability that is required.
    UnexpectedclientCapabilityValue(capabilities::KeyValueExpectError),
    /// The authenticator does not accept the request.
    AuthenticationVerification(auth::Error),
}

impl AuthenticateClientError {
    /// The text of the error.
    pub open spec fn text(self) -> Seq<char> {
        match self {
            AuthenticateClientError::UnexpectedclientCapabilityValue(_) =>
                "unexpected capability value"@,
            AuthenticateClientError::AuthenticationVerification(_) =>
                "failure to verify authentication request"@,
        }
    }

    /// Renders the error.
    pub fn to_text(&self) -> (text: String)
        ensures
            text@ == self.text(),
    {
        match self {
            AuthenticateClientError::UnexpectedclientCapabilityValue(_) =>
                "unexpected capability value".to_owned(),
            AuthenticateClientError::AuthenticationVerification(_) =>
                "failure to verify authentication request".to_owned(),
        }
    }
}

/// Why a client gives up on authenticating to a server.
#[derive(PartialEq, Eq, Debug)]
pub enum AuthenticateToServerError {
    /// The authentication state sent back by the server is invalid.
    ResultState(auth::StateError),
    /// The server does not share a capability that is required.
    UnexpectedServerCapabilityValue(capabilities::KeyValueExpectError),
}

impl AuthenticateToServerError {
    /// The text of the error.
    pub open spec fn text(self) -> Seq<char> {
        match self {
            AuthenticateToServerError::ResultState(_) =>
                "the authentication state sent back by the server is invalid"@,
            AuthenticateToServerError::UnexpectedServerCapabilityValue(_) =>
                "the server sent an unexpected capability value"@,
        }
    }

    /// Renders the error.
    pub fn to_text(&self) -> (text: String)
        ensures
            text@ == self.text(),
    {
        match self {
            AuthenticateToServerError::ResultState(_) =>
                "the authentication state sent back by the server is invalid".to_owned(),
            AuthenticateToServerError::UnexpectedServerCapabilityValue(_) =>
                "the server sent an unexpected capability value".to_owned(),
        }
    }
}

/// The control of one side of a session. `A` stands for what decides on requests for
/// authentication.
#[derive(Debug)]
pub struct Controller<A> {
    pub authenticator: Option<A>,
    /// The capabilities that both sides share, once that is settled.
    pub capabilities: Option<KeyDynValueMap>,
    /// Whether the other side may send requests.
    pub remote_authorized: bool,
}

/// The capabilities that are settled, in contracts.
pub open spec fn settled(capabilities: Option<KeyDynValueMap>) -> Option<Map<Seq<char>, Value>> {
    match capabilities {
        Some(map) => Some(map@),
        None => None,
    }
}

/// Makes the control of one side of a session, for which nothing is settled yet.
pub fn create<A>(authenticator: Option<A>, remote_authorized: bool) -> (controller: Controller<A>)
    ensures
        controller.authenticator == authenticator,
        controller.capabilities is None,
        controller.remote_authorized == remote_authorized,
{
    Controller { authenticator, capabilities: None, remote_authorized }
}

/// What a request for authentication is answered, and what becomes of the control. `verified` is
/// the decision of the authenticator, where there is one; it counts only for a request that
/// shares all required capabilities.
pub open spec fn authentication<A>(
    before: Controller<A>,
    request: Map<Seq<char>, Value>,
    verified: Result<(), auth::Error>,
    after: Controller<A>,
    result: Result<KeyDynValueMap, AuthenticateClientError>,
) -> bool {
    match capabilities::first_missing(request) {
        Some(key) => {
            &&& result matches Err(AuthenticateClientError::UnexpectedclientCapabilityValue(err))
                && err.key@ == key
            &&& after == before
        },
        None => match verified {
            Err(err) => {
                &&& result == Err::<KeyDynValueMap, AuthenticateClientError>(
                    AuthenticateClientError::AuthenticationVerification(err),
                )
                &&& after == before
            },
            Ok(()) => {
                &&& result matches Ok(reply) && reply@ == auth::state_done(
                    capabilities::shared(request),
                )
                &&& settled(after.capabilities) == Some(capabilities::shared(request))
                &&& after.remote_authorized
                &&& after.authenticator == before.authenticator
            },
        },
    }
}

impl<A> Controller<A> {
    /// Answers a request for authentication with the decision of an authenticator.
    pub fn authenticate_with(
        &mut self,
        request: &KeyDynValueMap,
        verified: Result<(), auth::Error>,
    ) -> (result: Result<KeyDynValueMap, AuthenticateClientError>)
        ensures
            authentication(*old(self), request@, verified, *final(self), result),
    {
        proof {
            capabilities::shared_where_set(request@);
        }
        let shared_capabilities = capabilities::shared_with_local(request);
        if let Err(err) = capabilities::check_required(&shared_capabilities) {
            return Err(AuthenticateClientError::UnexpectedclientCapabilityValue(err));
        }
        self.decided(shared_capabilities, capabilities::shared_with_local(request), verified)
    }

    /// Answers a request for authentication that shares all required capabilities, with the
    /// decision on it. Both maps are the shared capabilities: one is settled, one is replied.
    fn decided(
        &mut self,
        reply: KeyDynValueMap,
        shared_capabilities: KeyDynValueMap,
        verified: Result<(), auth::Error>,
    ) -> (result: Result<KeyDynValueMap, AuthenticateClientError>)
        ensures
            match verified {
                Err(err) => {
                    &&& result == Err::<KeyDynValueMap, AuthenticateClientError>(
                        AuthenticateClientError::AuthenticationVerification(err),
                    )
                    &&& *final(self) == *old(self)
                },
                Ok(()) => {
                    &&& result matches Ok(map) && map@ == auth::state_done(reply@)
                    &&& final(self).capabilities == Some(shared_capabilities)
                    &&& final(self).remote_authorized
                    &&& final(self).authenticator == old(self).authenticator
                },
            },
    {
        if let Err(err) = verified {
            return Err(AuthenticateClientError::AuthenticationVerification(err));
        }
        self.capabilities = Some(shared_capabilities);
        self.remote_authorized = true;
        Ok(auth::state_done_map(reply))
    }

    /// Starts to authenticate to a server: forgets the capabilities, and gives the request, which
    /// holds the capabilities of this side and the given parameters.
    pub fn authenticate_to_server(&mut self, parameters: KeyDynValueMap) -> (request: KeyDynValueMap)
        ensures
            request@ == capabilities::local().union_prefer_right(parameters@),
            final(self).capabilities is None,
            final(self).remote_authorized == old(self).remote_authorized,
            final(self).authenticator == old(self).authenticator,
    {
        self.capabilities = None;
        let mut request = capabilities::local_map();
        request.extend(parameters);
        request
    }

    /// Ends to authenticate to a server, with what its reply was read as.
    pub fn server_replied(&mut self, reply: Result<KeyDynValueMap, Error>) -> (result: Result<
        (),
        Error,
    >)
        ensures
            server_reply(*old(self), reply, *final(self), result),
    {
        let mut shared_capabilities = match reply {
            Ok(map) => map,
            Err(err) => return Err(err),
        };
        if let Err(err) = auth::extract_state_result(&mut shared_capabilities) {
            return Err(
                Error::Other(
                    BoxError::AuthenticateToServer(AuthenticateToServerError::ResultState(err)),
                ),
            );
        }
        if let Err(err) = capabilities::check_required(&shared_capabilities) {
            return Err(
                Error::Other(
                    BoxError::AuthenticateToServer(
                        AuthenticateToServerError::UnexpectedServerCapabilityValue(err),
                    ),
                ),
            );
        }
        self.capabilities = Some(shared_capabilities);
        Ok(())
    }
}

/// What becomes of the control when a server replied to a request for authentication: the
/// capabilities of the reply are settled, unless the reply is an error, does not say that the
/// authentication is done, or lacks a required capability.
pub open spec fn server_reply<A>(
    before: Controller<A>,
    reply: Result<KeyDynValueMap, Error>,
    after: Controller<A>,
    result: Result<(), Error>,
) -> bool {
    match reply {
        Err(err) => result == Err::<(), Error>(err) && after == before,
        Ok(map) => {
            let shared = map@.remove(auth::STATE_KEY@);
            match (auth::state_error(map@), capabilities::first_missing(shared)) {
                (Some(err), _) => {
                    &&& result == Err::<(), Error>(
                        Error::Other(
                            BoxError::AuthenticateToServer(
                                AuthenticateToServerError::ResultState(err),
                            ),
                        ),
                    )
                    &&& after == before
                },
                (None, Some(key)) => {
                    &&& result matches Err(
                        Error::Other(
                            BoxError::AuthenticateToServer(
                                AuthenticateToServerError::UnexpectedServerCapabilityValue(err),
                            ),
                        ),
                    ) && err.key@ == key
                    &&& after == before
                },
                (None, None) => {
                    &&& result is Ok
                    &&& settled(after.capabilities) == Some(shared)
                    &&& after.remote_authorized == before.remote_authorized
                    &&& after.authenticator == before.authenticator
                },
            }
        },
    }
}

/// What a request for authentication is answered, and what becomes of the control, with the
/// decision of its authenticator: a control without one accepts every request that shares all
/// required capabilities, and only on such a request does the authenticator decide.
pub open spec fn authenticated<A: Authenticator>(
    before: Controller<A>,
    request: KeyDynValueMap,
    after: Controller<A>,
    result: Result<KeyDynValueMap, AuthenticateClientError>,
) -> bool {
    if before.authenticator is Some && capabilities::first_missing(request@) is None {
        exists|verified: Result<(), auth::Error>| #[trigger]
            call_ensures(A::verify, (&before.authenticator->Some_0, request), verified)
                && authentication(before, request@, verified, after, result)
    } else {
        authentication(before, request@, Ok(()), after, result)
    }
}

impl<A: Authenticator> Controller<A> {
    /// Answers a request for authentication. The authenticator, where there is one, decides on
    /// the request once it is known to share all required capabilities.
    pub fn authenticate(&mut self, request: KeyDynValueMap) -> (result: Result<
        KeyDynValueMap,
        AuthenticateClientError,
    >)
        ensures
            authenticated(*old(self), request, *final(self), result),
    {
        let ghost given = request;
        proof {
            capabilities::shared_where_set(request@);
        }
        let reply = capabilities::shared_with_local(&request);
        let shared_capabilities = capabilities::shared_with_local(&request);
        if let Err(err) = capabilities::check_required(&reply) {
            return Err(AuthenticateClientError::UnexpectedclientCapabilityValue(err));
        }
        let verified = match &self.authenticator {
            Some(authenticator) => {
                let verified = authenticator.verify(request);
                assert(call_ensures(A::verify, (authenticator, given), verified));
                verified
            },
            None => Ok(()),
        };
        self.decided(reply, shared_capabilities, verified)
    }
}

/// Where a request goes.
#[derive(PartialEq, Eq, Debug)]
pub enum Route {
    /// It is a request for authentication.
    Authenticate,
    /// The handler of the session takes it.
    Forward,
    /// It is refused.
    Refuse,
}

/// Where a call goes: control requests to the control, and others to the handler of the session
/// if the other side may send requests.
pub open spec fn call_route<A>(controller: Controller<A>, address: message::Address) -> Route {
    if control_address(address) {
        Route::Authenticate
    } else if controller.remote_authorized {
        Route::Forward
    } else {
        Route::Refuse
    }
}

impl<A> Controller<A> {
    /// Tells where a call goes.
    pub fn handle_call(&self, address: message::Address) -> (route: Route)
        ensures
            route == call_route(*self, address),
    {
        if is_control_address(address) {
            Route::Authenticate
        } else if self.remote_authorized {
            Route::Forward
        } else {
            Route::Refuse
        }
    }

    /// Tells whether the handler of the session takes an event. Others are dropped.
    pub fn handle_event(&self, address: message::Address) -> (taken: bool)
        ensures
            taken == (!control_address(address) && self.remote_authorized),
    {
        !is_control_address(address) && self.remote_authorized
    }

    /// Tells whether the handler of the session takes a post. Others are dropped.
    pub fn handle_post(&self, address: message::Address) -> (taken: bool)
        ensures
            taken == (!control_address(address) && self.remote_authorized),
    {
        !is_control_address(address) && self.remote_authorized
    }
}

/// The answer to a call that is refused: there is no handler for it, and other requests may
/// follow.
pub fn refusal(address: message::Address) -> (error: HandlerError)
    ensures
        error.says(NoHandlerError(message::Type::Call, address).text(), false),
{
    HandlerError::non_fatal(NoHandlerError(message::Type::Call, address).to_text())
}

/// Whether an answer to a request for authentication is the right one. All errors are fatal.
pub open spec fn authentication_answer(
    result: Result<KeyDynValueMap, AuthenticateClientError>,
    answer: Result<KeyDynValueMap, HandlerError>,
) -> bool {
    match result {
        Ok(reply) => answer == Ok::<KeyDynValueMap, HandlerError>(reply),
        Err(err) => answer matches Err(error) && error.says(err.text(), true),
    }
}

/// Answers a request for authentication.
pub fn answer_authentication(result: Result<KeyDynValueMap, AuthenticateClientError>) -> (answer: Result<
    KeyDynValueMap,
    HandlerError,
>)
    ensures
        authentication_answer(result, answer),
{
    match result {
        Ok(reply) => Ok(reply),
        Err(err) => Err(HandlerError::fatal(err.to_text())),
    }
}

impl<A: Authenticator> Controller<A> {
    /// Handles a request for authentication, with what its arguments were read as. Arguments that
    /// cannot be read are answered with a fatal error, and change nothing.
    pub fn handle_authentication(&mut self, read: Result<KeyDynValueMap, Error>) -> (answer: Result<
        KeyDynValueMap,
        HandlerError,
    >)
        ensures
            match read {
                Err(Error::CallCanceled) => answer matches Err(HandlerError::CallCanceled)
                    && *final(self) == *old(self),
                Err(err) => {
                    &&& answer matches Err(error) && error.says(err.text(), true)
                    &&& *final(self) == *old(self)
                },
                Ok(request) => exists|result: Result<KeyDynValueMap, AuthenticateClientError>|
                    #[trigger] authenticated(*old(self), request, *final(self), result)
                        && authentication_answer(result, answer),
            },
    {
        match read {
            Err(err) => Err(HandlerError::from(err)),
            Ok(request) => {
                let result = self.authenticate(request);
                assert(authenticated(*old(self), request, *self, result));
                answer_authentication(result)
            },
        }
    }
}

/// Ends to handle a request for authentication, when its reply was written.
pub fn reply_written(written: Result<Bytes, wire::Error>) -> (answer: Result<Bytes, HandlerError>)
    ensures
        match written {
            Ok(payload) => answer == Ok::<Bytes, HandlerError>(payload),
            Err(err) => answer matches Err(error) && error.says(
                FormatError::MethodReturnValueSerialization(err).text(),
                true,
            ),
        },
{
    match format_return_value_of(written) {
        Ok(payload) => Ok(payload),
        Err(err) => Err(HandlerError::from(err)),
    }
}

/// As long as the other side is not authenticated, none of its requests reaches the handler of
/// the session: calls are refused, unless they are for the control.
pub proof fn unauthorized_requests_are_refused<A>(controller: Controller<A>, address: message::Address)
    requires
        !controller.remote_authorized,
    ensures
        call_route(controller, address) != Route::Forward,
        !control_address(address) ==> call_route(controller, address) == Route::Refuse,
{
}

/// A request for authentication that is not accepted is answered with a fatal error, and changes
/// neither the capabilities nor what the other side may do.
pub proof fn refused_authentication_changes_nothing<A>(
    before: Controller<A>,
    request: Map<Seq<char>, Value>,
    verified: Result<(), auth::Error>,
    after: Controller<A>,
    result: Result<KeyDynValueMap, AuthenticateClientError>,
    answer: Result<KeyDynValueMap, HandlerError>,
)
    requires
        authentication(before, request, verified, after, result),
        authentication_answer(result, answer),
        capabilities::first_missing(request) is Some || verified is Err,
    ensures
        after == before,
        answer matches Err(HandlerError::Custom { is_fatal: true, .. }),
        capabilities::first_missing(request) is Some ==> (answer->Err_0.says(
            "unexpected capability value"@,
            true,
        )),
        capabilities::first_missing(request) is None ==> (answer->Err_0.says(
            "failure to verify authentication request"@,
            true,
        )),
{
}

/// A client accepts the reply of a server that accepted its request, and both settle on the same
/// capabilities, which are all that this library has.
pub proof fn both_sides_settle_alike<A, B>(
    server: Controller<A>,
    request: Map<Seq<char>, Value>,
    server_after: Controller<A>,
    reply: KeyDynValueMap,
    client: Controller<B>,
    client_after: Controller<B>,
    result: Result<(), Error>,
)
    requires
        authentication(server, request, Ok(()), server_after, Ok(reply)),
        server_reply(client, Ok(reply), client_after, result),
    ensures
        result is Ok,
        server_after.remote_authorized,
        settled(client_after.capabilities) == settled(server_after.capabilities),
        settled(client_after.capabilities) == Some(capabilities::local()),
{
    capabilities::keys_differ();
    auth::state_is_no_capability();
    capabilities::shared_where_set(request);
    let shared = capabilities::shared(request);
    assert(auth::state_done(shared).remove(auth::STATE_KEY@) =~= shared);
}

/// The other side may only send requests once one of its requests for authentication was accepted:
/// one that shares all required capabilities, and that the authenticator does not refuse.
pub proof fn authorization_takes_an_accepted_request<A>(
    before: Controller<A>,
    request: Map<Seq<char>, Value>,
    verified: Result<(), auth::Error>,
    after: Controller<A>,
    result: Result<KeyDynValueMap, AuthenticateClientError>,
)
    requires
        authentication(before, request, verified, after, result),
        !before.remote_authorized,
    ensures
        after.remote_authorized <==> result is Ok,
        after.remote_authorized ==> capabilities::first_missing(request) is None && verified is Ok,
{
}

/// The request of a client whose parameters do not speak of capabilities shares all required ones
/// with any server, and hands all parameters over.
pub proof fn client_request_shares_capabilities(parameters: Map<Seq<char>, Value>)
    requires
        !parameters.contains_key(capabilities::REMOTE_CANCELABLE_CALLS@),
        !parameters.contains_key(capabilities::OBJECT_PTR_UID@),
        !parameters.contains_key(capabilities::RELATIVE_ENDPOINT_URI@),
    ensures
        capabilities::first_missing(capabilities::local().union_prefer_right(parameters)) is None,
        forall|name: Seq<char>| #[trigger]
            parameters.contains_key(name) ==> capabilities::local().union_prefer_right(
                parameters,
            ).contains_pair(name, parameters[name]),
{
    capabilities::keys_differ();
}

/// A request for authentication that is not accepted is answered with an error message, and no
/// other message of that client is dispatched after it; a call that is refused because the client
/// is not authenticated yet is answered with an error message, and others may follow.
pub proof fn refusals_are_answered(
    id: message::Id,
    address: message::Address,
    err: AuthenticateClientError,
    answer: Result<KeyDynValueMap, HandlerError>,
    fatal: (message::Message, DispatchFlow),
    refused: HandlerError,
    other: (message::Message, DispatchFlow),
)
    requires
        authentication_answer(Err(err), answer),
        answers(id, address, Err::<Bytes, HandlerError>(answer->Err_0), fatal),
        refused.says(NoHandlerError(message::Type::Call, address).text(), false),
        answers(id, address, Err::<Bytes, HandlerError>(refused), other),
    ensures
        fatal.0 matches message::Message::Error { id: i, address: a, error } && i == id && a == address
            && error@ == err.text(),
        fatal.1 == DispatchFlow::Stop,
        other.0 matches message::Message::Error { id: i, address: a, error } && i == id && a == address
            && error@ == NoHandlerError(message::Type::Call, address).text(),
        other.1 == DispatchFlow::Continue,
{
}

} // verus!
