//! Who may send requests over a session, and with which capabilities.

use bytes::Bytes;
use vstd::prelude::*;
use vstd::utf8::encode_utf8;
use crate::auth::{self, Authenticator, StateError, UserTokenAuthenticator};
use crate::capabilities::{self, KeyDynValueMap, KeyValueExpectError};
use crate::control::{
    self, AuthenticateClientError, AuthenticateToServerError, Controller, Route,
};
use crate::error::{BoxError, Error, HandlerError};
use crate::message;
use crate::value::Value;
use crate::wire;

verus! {

/// Whether a map says that something is so.
pub open spec fn says_yes(map: Map<Seq<char>, Value>, name: Seq<char>) -> bool {
    map.contains_key(name) && map[name] == Value::Bool(true)
}

/// Whether a map holds the three capabilities and nothing else, each as it is said to be.
pub open spec fn holds_just(
    map: Map<Seq<char>, Value>,
    calls: bool,
    uids: bool,
    endpoints: bool,
) -> bool {
    &&& map.contains_key("RemoteCancelableCalls"@)
    &&& map["RemoteCancelableCalls"@] == Value::Bool(calls)
    &&& map.contains_key("ObjectPtrUID"@)
    &&& map["ObjectPtrUID"@] == Value::Bool(uids)
    &&& map.contains_key("RelativeEndpointURI"@)
    &&& map["RelativeEndpointURI"@] == Value::Bool(endpoints)
    &&& forall|name: Seq<char>| #[trigger]
        map.contains_key(name) ==> name == "RemoteCancelableCalls"@ || name == "ObjectPtrUID"@
            || name == "RelativeEndpointURI"@
}

/// Whether a map says yes to all three capabilities.
pub open spec fn says_yes_to_all(map: Map<Seq<char>, Value>) -> bool {
    says_yes(map, "RemoteCancelableCalls"@) && says_yes(map, "ObjectPtrUID"@) && says_yes(
        map,
        "RelativeEndpointURI"@,
    )
}

/// Whether a name is that of the first of the three capabilities that a map does not say yes to.
pub open spec fn first_lacking(map: Map<Seq<char>, Value>, name: Seq<char>) -> bool {
    if !says_yes(map, "RemoteCancelableCalls"@) {
        name == "RemoteCancelableCalls"@
    } else if !says_yes(map, "ObjectPtrUID"@) {
        name == "ObjectPtrUID"@
    } else {
        !says_yes(map, "RelativeEndpointURI"@) && name == "RelativeEndpointURI"@
    }
}

/// This side has all three capabilities, and no other.
pub proof fn this_side_has_all_capabilities(map: KeyDynValueMap)
    requires
        call_ensures(capabilities::local_map, (), map),
    ensures
        holds_just(map@, true, true, true),
{
    capabilities::keys_differ();
}

/// A capability is shared with a peer exactly where the peer says yes to it.
pub proof fn shared_capabilities_are_those_of_the_peer(peer: &KeyDynValueMap, map: KeyDynValueMap)
    requires
        call_ensures(capabilities::shared_with_local, (peer,), map),
    ensures
        holds_just(
            map@,
            says_yes(peer@, "RemoteCancelableCalls"@),
            says_yes(peer@, "ObjectPtrUID"@),
            says_yes(peer@, "RelativeEndpointURI"@),
        ),
{
    capabilities::keys_differ();
}

/// All three capabilities are required, and the first that lacks is named.
pub proof fn all_capabilities_are_required(
    map: &KeyDynValueMap,
    result: Result<(), KeyValueExpectError>,
)
    requires
        call_ensures(capabilities::check_required, (map,), result),
    ensures
        result is Ok <==> says_yes_to_all(map@),
        result matches Err(err) ==> first_lacking(map@, err.key@),
{
}

/// Whether a map holds a text under a name.
pub open spec fn says_text(map: Map<Seq<char>, Value>, name: Seq<char>, text: Seq<char>) -> bool {
    map.contains_key(name) && (map[name] matches Value::String(raw) && raw@ == encode_utf8(text))
}

/// An authenticator of a user and a token accepts exactly what names both.
pub proof fn user_and_token_are_accepted(
    user: String,
    token: String,
    authenticator: UserTokenAuthenticator,
    parameters: KeyDynValueMap,
    result: Result<(), auth::Error>,
)
    requires
        call_ensures(UserTokenAuthenticator::new, (user, token), authenticator),
        call_ensures(
            <UserTokenAuthenticator as Authenticator>::verify,
            (&authenticator, parameters),
            result,
        ),
    ensures
        result is Ok <==> says_text(parameters@, "auth_user"@, user@) && says_text(
            parameters@,
            "auth_token"@,
            token@,
        ),
{
}

/// The reply to an accepted request says that authentication is done, and else what it said.
pub proof fn accepting_reply_says_done(map: KeyDynValueMap, reply: KeyDynValueMap)
    requires
        call_ensures(auth::state_done_map, (map,), reply),
    ensures
        reply@.contains_key("__qi_auth_state"@),
        reply@["__qi_auth_state"@] == Value::UInt32(3),
        forall|name: Seq<char>|
            name != "__qi_auth_state"@ ==> (#[trigger] reply@.contains_key(name)
                <==> map@.contains_key(name)),
        forall|name: Seq<char>|
            name != "__qi_auth_state"@ && map@.contains_key(name) ==> #[trigger] reply@[name]
                == map@[name],
{
}

/// Whether a reply says that authentication is done, and else how it does not.
pub open spec fn state_said(reply: Map<Seq<char>, Value>, result: Result<(), StateError>) -> bool {
    if !reply.contains_key("__qi_auth_state"@) {
        result == Err::<(), StateError>(StateError::Missing)
    } else {
        match reply["__qi_auth_state"@] {
            Value::UInt32(state) => if state == 3 {
                result is Ok
            } else {
                result == Err::<(), StateError>(StateError::NotDone(state))
            },
            other => result == Err::<(), StateError>(StateError::NotANumber(other.spec_kind())),
        }
    }
}

/// The state is taken out of a reply, whatever it is, and is good exactly where it says that
/// authentication is done; all else that the reply says stays.
pub proof fn state_is_taken_out(reply: &mut KeyDynValueMap, result: Result<(), StateError>)
    requires
        call_ensures(auth::extract_state_result, (reply,), result),
    ensures
        state_said(old(reply)@, result),
        !final(reply)@.contains_key("__qi_auth_state"@),
        forall|name: Seq<char>|
            name != "__qi_auth_state"@ ==> (#[trigger] final(reply)@.contains_key(name) <==> old(reply)@.contains_key(name)),
        forall|name: Seq<char>|
            name != "__qi_auth_state"@ && old(reply)@.contains_key(name) ==> #[trigger] final(reply)@[name] == old(reply)@[name],
{
}

/// Requests for authentication go to action eight of object zero of service zero, and every action
/// of that object is one of control.
pub proof fn control_is_object_zero_of_service_zero(
    sent_to: message::Address,
    address: message::Address,
    answer: bool,
)
    requires
        call_ensures(control::authenticate_address, (), sent_to),
        call_ensures(control::is_control_address, (address,), answer),
    ensures
        sent_to.0.0 == 0 && sent_to.1.0 == 0 && sent_to.2.0 == 8,
        answer <==> address.0.0 == 0 && address.1.0 == 0,
{
}

/// A control that is made has nothing settled, and otherwise what it is made of.
pub proof fn new_control_has_nothing_settled<A>(
    authenticator: Option<A>,
    authorized: bool,
    controller: Controller<A>,
)
    requires
        call_ensures(control::create::<A>, (authenticator, authorized), controller),
    ensures
        controller.authenticator == authenticator,
        controller.capabilities is None,
        controller.remote_authorized == authorized,
{
}

/// Every call to the control is taken as a request for authentication; any other call, whatever its
/// action, goes to the handler exactly where the other side may send requests, and is refused
/// otherwise.
pub proof fn calls_are_forwarded_once_authorized<A>(
    controller: &Controller<A>,
    address: message::Address,
    route: Route,
)
    requires
        call_ensures(Controller::<A>::handle_call, (controller, address), route),
    ensures
        address.0.0 == 0 && address.1.0 == 0 ==> route is Authenticate,
        !(address.0.0 == 0 && address.1.0 == 0) && controller.remote_authorized ==> route is Forward,
        !(address.0.0 == 0 && address.1.0 == 0) && !controller.remote_authorized
            ==> route is Refuse,
{
}

/// An event or a post goes to the handler exactly where it is not to the control and the other side
/// may send requests.
pub proof fn events_and_posts_are_taken_once_authorized<A>(
    controller: &Controller<A>,
    address: message::Address,
    event: bool,
    post: bool,
)
    requires
        call_ensures(Controller::<A>::handle_event, (controller, address), event),
        call_ensures(Controller::<A>::handle_post, (controller, address), post),
    ensures
        event <==> controller.remote_authorized && (address.0.0 != 0 || address.1.0 != 0),
        post <==> controller.remote_authorized && (address.0.0 != 0 || address.1.0 != 0),
{
}

/// Whether a request for authentication was accepted, and with what effect: the three capabilities
/// are settled and told, with the state that says done, and the other side may send requests.
pub open spec fn accepted<A>(
    before: Controller<A>,
    after: Controller<A>,
    reply: Map<Seq<char>, Value>,
) -> bool {
    &&& after.remote_authorized
    &&& after.authenticator == before.authenticator
    &&& after.capabilities is Some
    &&& holds_just(after.capabilities->Some_0@, true, true, true)
    &&& says_yes_to_all(reply)
    &&& reply.contains_key("__qi_auth_state"@)
    &&& reply["__qi_auth_state"@] == Value::UInt32(3)
    &&& forall|name: Seq<char>| #[trigger]
        reply.contains_key(name) ==> name == "RemoteCancelableCalls"@ || name == "ObjectPtrUID"@
            || name == "RelativeEndpointURI"@ || name == "__qi_auth_state"@
}

/// Whether a request for authentication is answered as it has to be, by a decision on it: it is
/// accepted exactly where it says yes to all three capabilities and is not turned down; where it is
/// not accepted nothing changes, and what it is refused for is a capability that lacks, if one does.
pub open spec fn decided_so<A>(
    before: Controller<A>,
    request: Map<Seq<char>, Value>,
    verified: Result<(), auth::Error>,
    after: Controller<A>,
    result: Result<KeyDynValueMap, AuthenticateClientError>,
) -> bool {
    &&& result is Ok <==> says_yes_to_all(request) && verified is Ok
    &&& result matches Ok(reply) ==> accepted(before, after, reply@)
    &&& result is Err ==> after == before
    &&& result matches Err(err) ==> match err {
        AuthenticateClientError::UnexpectedclientCapabilityValue(lacks) => first_lacking(
            request,
            lacks.key@,
        ),
        AuthenticateClientError::AuthenticationVerification(why) => says_yes_to_all(request)
            && verified == Err::<(), auth::Error>(why),
    }
}

/// What the spec of an authentication comes to.
proof fn authentication_is_decided_so<A>(
    before: Controller<A>,
    request: Map<Seq<char>, Value>,
    verified: Result<(), auth::Error>,
    after: Controller<A>,
    result: Result<KeyDynValueMap, AuthenticateClientError>,
)
    requires
        control::authentication(before, request, verified, after, result),
    ensures
        decided_so(before, request, verified, after, result),
{
    capabilities::keys_differ();
    auth::state_is_no_capability();
    capabilities::shared_where_set(request);
}

/// A request for authentication is decided on with what an authenticator says of it.
pub proof fn authentication_goes_by_the_decision<A>(
    controller: &mut Controller<A>,
    request: &KeyDynValueMap,
    verified: Result<(), auth::Error>,
    result: Result<KeyDynValueMap, AuthenticateClientError>,
)
    requires
        call_ensures(
            Controller::<A>::authenticate_with,
            (controller, request, verified),
            result,
        ),
    ensures
        decided_so(*old(controller), request@, verified, *final(controller), result),
{
    authentication_is_decided_so(
        *old(controller),
        request@,
        verified,
        *final(controller),
        result,
    );
}

/// A control with an authenticator asks it about every request that says yes to all capabilities,
/// and goes by what it says.
pub proof fn authenticator_decides<A: Authenticator>(
    controller: &mut Controller<A>,
    request: KeyDynValueMap,
    result: Result<KeyDynValueMap, AuthenticateClientError>,
)
    requires
        call_ensures(Controller::<A>::authenticate, (controller, request), result),
        old(controller).authenticator is Some,
        says_yes_to_all(request@),
    ensures
        exists|verified: Result<(), auth::Error>| #[trigger]
            call_ensures(
                A::verify,
                (&old(controller).authenticator->Some_0, request),
                verified,
            ) && decided_so(*old(controller), request@, verified, *final(controller), result),
{
    let verified = choose|verified: Result<(), auth::Error>| #[trigger]
        call_ensures(A::verify, (&old(controller).authenticator->Some_0, request), verified)
            && control::authentication(
            *old(controller),
            request@,
            verified,
            *final(controller),
            result,
        );
    authentication_is_decided_so(
        *old(controller),
        request@,
        verified,
        *final(controller),
        result,
    );
}

/// A control without an authenticator, or one that is asked with a capability lacking, decides by
/// the capabilities alone.
pub proof fn capabilities_decide<A: Authenticator>(
    controller: &mut Controller<A>,
    request: KeyDynValueMap,
    result: Result<KeyDynValueMap, AuthenticateClientError>,
)
    requires
        call_ensures(Controller::<A>::authenticate, (controller, request), result),
        old(controller).authenticator is None || !says_yes_to_all(request@),
    ensures
        decided_so(*old(controller), request@, Ok(()), *final(controller), result),
{
    authentication_is_decided_so(
        *old(controller),
        request@,
        Ok(()),
        *final(controller),
        result,
    );
}

/// A control that expects a user and a token lets the other side send requests exactly where it
/// names both and says yes to all capabilities.
pub proof fn expected_user_is_let_in(
    controller: &mut Controller<UserTokenAuthenticator>,
    request: KeyDynValueMap,
    result: Result<KeyDynValueMap, AuthenticateClientError>,
)
    requires
        call_ensures(
            Controller::<UserTokenAuthenticator>::authenticate,
            (controller, request),
            result,
        ),
        old(controller).authenticator is Some,
    ensures
        ({
            let expected = old(controller).authenticator->Some_0;
            result is Ok <==> says_yes_to_all(request@) && says_text(
                request@,
                "auth_user"@,
                expected.user@,
            ) && says_text(request@, "auth_token"@, expected.token@)
        }),
        result is Err ==> *final(controller) == *old(controller),
        result is Ok ==> final(controller).remote_authorized,
{
    if says_yes_to_all(request@) {
        authenticator_decides(controller, request, result);
    } else {
        capabilities_decide(controller, request, result);
    }
}

/// The request of a client says yes to all three capabilities, but for what its parameters say, and
/// holds all of its parameters and nothing else. What was settled before is forgotten.
pub proof fn client_asks_with_its_parameters<A>(
    controller: &mut Controller<A>,
    parameters: KeyDynValueMap,
    request: KeyDynValueMap,
)
    requires
        call_ensures(Controller::<A>::authenticate_to_server, (controller, parameters), request),
    ensures
        final(controller).capabilities is None,
        final(controller).remote_authorized == old(controller).remote_authorized,
        final(controller).authenticator == old(controller).authenticator,
        forall|name: Seq<char>| #[trigger]
            parameters@.contains_key(name) ==> request@.contains_key(name) && request@[name]
                == parameters@[name],
        forall|name: Seq<char>|
            (name == "RemoteCancelableCalls"@ || name == "ObjectPtrUID"@ || name
                == "RelativeEndpointURI"@) && !(#[trigger] parameters@.contains_key(name))
                ==> says_yes(request@, name),
        forall|name: Seq<char>| #[trigger]
            request@.contains_key(name) ==> parameters@.contains_key(name) || name
                == "RemoteCancelableCalls"@ || name == "ObjectPtrUID"@ || name
                == "RelativeEndpointURI"@,
{
    capabilities::keys_differ();
}

/// A client settles on what a server replied exactly where the reply says that authentication is
/// done and says yes to all capabilities: then on all that it said but the state. Otherwise nothing
/// changes, and the error says what was wrong, the state first.
pub proof fn client_goes_by_the_reply<A>(
    controller: &mut Controller<A>,
    reply: Result<KeyDynValueMap, Error>,
    result: Result<(), Error>,
)
    requires
        call_ensures(Controller::<A>::server_replied, (controller, reply), result),
    ensures
        ({
            let done = reply is Ok && reply->Ok_0@.contains_key("__qi_auth_state"@)
                && reply->Ok_0@["__qi_auth_state"@] == Value::UInt32(3);
            &&& result is Ok <==> done && says_yes_to_all(reply->Ok_0@)
            &&& result is Err ==> *final(controller) == *old(controller)
            &&& result is Ok ==> {
                let settled = final(controller).capabilities->Some_0@;
                &&& final(controller).capabilities is Some
                &&& final(controller).remote_authorized == old(controller).remote_authorized
                &&& final(controller).authenticator == old(controller).authenticator
                &&& !settled.contains_key("__qi_auth_state"@)
                &&& forall|name: Seq<char>|
                    name != "__qi_auth_state"@ ==> (#[trigger] settled.contains_key(name)
                        <==> reply->Ok_0@.contains_key(name))
                &&& forall|name: Seq<char>|
                    name != "__qi_auth_state"@ && reply->Ok_0@.contains_key(name)
                        ==> #[trigger] settled[name] == reply->Ok_0@[name]
            }
            &&& result matches Err(err) ==> match reply {
                Err(why) => err == why,
                Ok(map) => match err {
                    Error::Other(
                        BoxError::AuthenticateToServer(AuthenticateToServerError::ResultState(why)),
                    ) => !done && state_said(map@, Err(why)),
                    Error::Other(
                        BoxError::AuthenticateToServer(
                            AuthenticateToServerError::UnexpectedServerCapabilityValue(lacks),
                        ),
                    ) => done && first_lacking(map@, lacks.key@),
                    _ => false,
                },
            }
        }),
{
    capabilities::keys_differ();
    auth::state_is_no_capability();
}

/// What one side of a session asks, the other accepts, and both settle on the same: a client whose
/// parameters do not speak of capabilities is let in by a server without an authenticator, and goes
/// by its reply.
pub proof fn client_is_let_in<A, B: Authenticator>(
    client: &mut Controller<A>,
    parameters: KeyDynValueMap,
    request: KeyDynValueMap,
    server: &mut Controller<B>,
    replied: Result<KeyDynValueMap, AuthenticateClientError>,
    asking: &mut Controller<A>,
    received: Result<KeyDynValueMap, Error>,
    result: Result<(), Error>,
)
    requires
        call_ensures(Controller::<A>::authenticate_to_server, (client, parameters), request),
        !parameters@.contains_key("RemoteCancelableCalls"@),
        !parameters@.contains_key("ObjectPtrUID"@),
        !parameters@.contains_key("RelativeEndpointURI"@),
        old(server).authenticator is None,
        call_ensures(Controller::<B>::authenticate, (server, request), replied),
        replied is Ok ==> received == Ok::<KeyDynValueMap, Error>(replied->Ok_0),
        call_ensures(Controller::<A>::server_replied, (asking, received), result),
    ensures
        replied is Ok,
        result is Ok,
        final(server).remote_authorized,
        holds_just(final(server).capabilities->Some_0@, true, true, true),
        holds_just(final(asking).capabilities->Some_0@, true, true, true),
{
    capabilities::keys_differ();
    auth::state_is_no_capability();
    client_asks_with_its_parameters(client, parameters, request);
    capabilities_decide(server, request, replied);
    client_goes_by_the_reply(asking, received, result);
    let reply = replied->Ok_0@;
    let settled = final(asking).capabilities->Some_0@;
    assert(reply.contains_key("RemoteCancelableCalls"@));
    assert(reply.contains_key("ObjectPtrUID"@));
    assert(reply.contains_key("RelativeEndpointURI"@));
    assert(settled.contains_key("RemoteCancelableCalls"@));
    assert(settled.contains_key("ObjectPtrUID"@));
    assert(settled.contains_key("RelativeEndpointURI"@));
    assert(settled["RemoteCancelableCalls"@] == reply["RemoteCancelableCalls"@]);
    assert(settled["ObjectPtrUID"@] == reply["ObjectPtrUID"@]);
    assert(settled["RelativeEndpointURI"@] == reply["RelativeEndpointURI"@]);
}

/// Whether an error of a handler says a text, and whether no other request may follow.
pub open spec fn worded(error: HandlerError, text: Seq<char>, fatal: bool) -> bool {
    error matches HandlerError::Custom { message, is_fatal } && message@ == text && is_fatal == fatal
}

/// A call that is refused is answered that there is no handler for it, and others may follow.
pub proof fn refused_call_has_no_handler(address: message::Address, error: HandlerError)
    requires
        call_ensures(control::refusal, (address,), error),
    ensures
        worded(
            error,
            "there is no handler for message of type "@ + "call"@ + " to address "@ + (
            crate::text::decimal(address.0.0 as nat) + "."@ + crate::text::decimal(
                address.1.0 as nat,
            ) + "."@ + crate::text::decimal(address.2.0 as nat)),
            false,
        ),
{
}

/// Whether a request for authentication is answered with what came of it: a refusal is fatal and
/// says why.
pub open spec fn answered_so(
    result: Result<KeyDynValueMap, AuthenticateClientError>,
    answer: Result<KeyDynValueMap, HandlerError>,
) -> bool {
    match result {
        Ok(reply) => answer == Ok::<KeyDynValueMap, HandlerError>(reply),
        Err(AuthenticateClientError::UnexpectedclientCapabilityValue(_)) => answer is Err && worded(
            answer->Err_0,
            "unexpected capability value"@,
            true,
        ),
        Err(AuthenticateClientError::AuthenticationVerification(_)) => answer is Err && worded(
            answer->Err_0,
            "failure to verify authentication request"@,
            true,
        ),
    }
}

/// A request for authentication is answered with its reply, or with a fatal error that says why.
pub proof fn refused_authentication_is_fatal(
    result: Result<KeyDynValueMap, AuthenticateClientError>,
    answer: Result<KeyDynValueMap, HandlerError>,
)
    requires
        call_ensures(control::answer_authentication, (result,), answer),
    ensures
        answered_so(result, answer),
{
}

/// A request for authentication whose arguments were read, to a control without an authenticator,
/// is answered with the reply where it says yes to all capabilities, and otherwise with a fatal
/// error, and then nothing changes.
pub proof fn read_request_is_handled<A: Authenticator>(
    controller: &mut Controller<A>,
    request: KeyDynValueMap,
    answer: Result<KeyDynValueMap, HandlerError>,
)
    requires
        call_ensures(Controller::<A>::handle_authentication, (controller, Ok(request)), answer),
        old(controller).authenticator is None,
    ensures
        answer is Ok <==> says_yes_to_all(request@),
        answer matches Ok(reply) ==> accepted(*old(controller), *final(controller), reply@),
        answer is Err ==> *final(controller) == *old(controller) && worded(
            answer->Err_0,
            "unexpected capability value"@,
            true,
        ),
{
    let result = choose|result: Result<KeyDynValueMap, AuthenticateClientError>| #[trigger]
        control::authenticated(*old(controller), request, *final(controller), result)
            && control::authentication_answer(result, answer);
    authentication_is_decided_so(
        *old(controller),
        request@,
        Ok(()),
        *final(controller),
        result,
    );
}

/// A request for authentication that was read, to a control that expects a user and a token, lets
/// the other side send requests exactly where it names both and says yes to all capabilities.
pub proof fn read_request_of_a_user_is_handled(
    controller: &mut Controller<UserTokenAuthenticator>,
    request: KeyDynValueMap,
    answer: Result<KeyDynValueMap, HandlerError>,
)
    requires
        call_ensures(
            Controller::<UserTokenAuthenticator>::handle_authentication,
            (controller, Ok(request)),
            answer,
        ),
        old(controller).authenticator is Some,
    ensures
        ({
            let expected = old(controller).authenticator->Some_0;
            let named = says_text(request@, "auth_user"@, expected.user@) && says_text(
                request@,
                "auth_token"@,
                expected.token@,
            );
            &&& answer is Ok <==> says_yes_to_all(request@) && named
            &&& answer matches Ok(reply) ==> accepted(*old(controller), *final(controller), reply@)
            &&& answer is Err ==> *final(controller) == *old(controller)
            &&& answer is Err ==> worded(
                answer->Err_0,
                if says_yes_to_all(request@) {
                    "failure to verify authentication request"@
                } else {
                    "unexpected capability value"@
                },
                true,
            )
        }),
{
    let result = choose|result: Result<KeyDynValueMap, AuthenticateClientError>| #[trigger]
        control::authenticated(*old(controller), request, *final(controller), result)
            && control::authentication_answer(result, answer);
    if says_yes_to_all(request@) {
        let verified = choose|verified: Result<(), auth::Error>| #[trigger]
            call_ensures(
                <UserTokenAuthenticator as Authenticator>::verify,
                (&old(controller).authenticator->Some_0, request),
                verified,
            ) && control::authentication(
                *old(controller),
                request@,
                verified,
                *final(controller),
                result,
            );
        authentication_is_decided_so(
            *old(controller),
            request@,
            verified,
            *final(controller),
            result,
        );
    } else {
        authentication_is_decided_so(
            *old(controller),
            request@,
            Ok(()),
            *final(controller),
            result,
        );
    }
}

/// A request for authentication that was read and says yes to all capabilities is answered by what
/// the authenticator, whichever it is, says of it.
pub proof fn read_request_is_decided_on<A: Authenticator>(
    controller: &mut Controller<A>,
    request: KeyDynValueMap,
    answer: Result<KeyDynValueMap, HandlerError>,
)
    requires
        call_ensures(Controller::<A>::handle_authentication, (controller, Ok(request)), answer),
        old(controller).authenticator is Some,
        says_yes_to_all(request@),
    ensures
        exists|verified: Result<(), auth::Error>|
            {
                &&& #[trigger] call_ensures(
                    A::verify,
                    (&old(controller).authenticator->Some_0, request),
                    verified,
                )
                &&& answer is Ok <==> verified is Ok
            },
        answer matches Ok(reply) ==> accepted(*old(controller), *final(controller), reply@),
        answer is Err ==> *final(controller) == *old(controller) && worded(
            answer->Err_0,
            "failure to verify authentication request"@,
            true,
        ),
{
    let result = choose|result: Result<KeyDynValueMap, AuthenticateClientError>| #[trigger]
        control::authenticated(*old(controller), request, *final(controller), result)
            && control::authentication_answer(result, answer);
    let verified = choose|verified: Result<(), auth::Error>| #[trigger]
        call_ensures(A::verify, (&old(controller).authenticator->Some_0, request), verified)
            && control::authentication(
            *old(controller),
            request@,
            verified,
            *final(controller),
            result,
        );
    authentication_is_decided_so(
        *old(controller),
        request@,
        verified,
        *final(controller),
        result,
    );
}

/// A request for authentication whose arguments cannot be read changes nothing, and is answered as
/// canceled where it was, and otherwise with a fatal error that says why.
pub proof fn unread_request_changes_nothing<A: Authenticator>(
    controller: &mut Controller<A>,
    err: Error,
    answer: Result<KeyDynValueMap, HandlerError>,
)
    requires
        call_ensures(Controller::<A>::handle_authentication, (controller, Err(err)), answer),
    ensures
        *final(controller) == *old(controller),
        err is CallCanceled ==> answer matches Err(HandlerError::CallCanceled),
        !(err is CallCanceled) ==> answer is Err && worded(answer->Err_0, err.text(), true),
{
}

/// A reply that was written is the answer, and one that was not is answered with a fatal error.
pub proof fn written_reply_is_the_answer(
    written: Result<Bytes, wire::Error>,
    answer: Result<Bytes, HandlerError>,
)
    requires
        call_ensures(control::reply_written, (written,), answer),
    ensures
        written matches Ok(payload) ==> answer == Ok::<Bytes, HandlerError>(payload),
        written is Err ==> answer is Err && worded(
            answer->Err_0,
            "the serialization of the method return value has failed"@,
            true,
        ),
{
}

} // verus!
