use bytes::Bytes;
use qi::auth::{self, Authenticator, StateError, UserTokenAuthenticator};
use qi::capabilities::{self, KeyDynValueMap, KeyValueExpectError};
use qi::control::{
    self, AuthenticateClientError, AuthenticateToServerError, Controller, Route,
};
use qi::error::{BoxError, Error, FormatError, HandlerError};
use qi::message::{self, Message};
use qi::messaging;
use qi::meta::ActionId;
use qi::name_map::NameMap;
use qi::object;
use qi::server::{answer, DispatchFlow};
use qi::service;
use qi::session::{call, post, served_session, ServerEvent, ServerState};
use qi::value::{FromValue, IntoValue, Kind, Value};
use qi::wire;

fn map(entries: Vec<(&str, Value)>) -> KeyDynValueMap {
    let mut map = NameMap::new();
    for (name, value) in entries {
        map.set(name.to_owned(), value);
    }
    map
}

fn text(text: &str) -> Value {
    text.into_value()
}

fn capabilities_map(relative_endpoint_uri: bool) -> Vec<(&'static str, Value)> {
    vec![
        ("RemoteCancelableCalls", Value::Bool(true)),
        ("ObjectPtrUID", Value::Bool(true)),
        ("RelativeEndpointURI", Value::Bool(relative_endpoint_uri)),
    ]
}

/// What the server session sends back for an authentication request, and what follows.
fn serve<A: Authenticator>(
    controller: &mut Controller<A>,
    id: message::Id,
    request: KeyDynValueMap,
) -> Result<KeyDynValueMap, (Message, DispatchFlow)> {
    let address = control::authenticate_address();
    assert_eq!(controller.handle_call(address), Route::Authenticate);
    controller
        .handle_authentication(Ok(request))
        .map_err(|err| answer(id, address, Err::<Bytes, HandlerError>(err)))
}

#[test]
fn server_sends_back_error_on_client_bad_capabilities() {
    let mut controller = control::create::<UserTokenAuthenticator>(None, false);
    let request = map(capabilities_map(false)); // A required capability is set to false.
    let (response, flow) = serve(&mut controller, message::Id(0), request).unwrap_err();
    match response {
        Message::Error { address, error, .. } => {
            assert_eq!(address, control::authenticate_address());
            assert!(
                error.contains("unexpected capability value"),
                "error is not an unexpected capability value: {}",
                error
            );
        }
        other => panic!("not an error: {:?}", other),
    }
    assert_eq!(flow, DispatchFlow::Stop);
    assert!(!controller.remote_authorized);
    assert!(controller.capabilities.is_none());
}

#[test]
fn client_receives_bad_capabilities() {
    let mut controller = control::create::<UserTokenAuthenticator>(None, true);
    let request = controller.authenticate_to_server(NameMap::new());
    assert_eq!(request.get("ObjectPtrUID"), Some(&Value::Bool(true)));
    let address = control::authenticate_address();
    assert_eq!(
        address,
        message::Address(service::Id(0), object::Id(0), ActionId(8))
    );
    let reply = map(capabilities_map(false)); // A required capability is set to false.
    assert!(controller.server_replied(Ok(reply)).is_err());
    assert!(controller.capabilities.is_none());
}

#[test]
fn client_sends_good_auth_parameters() {
    let auth = UserTokenAuthenticator::new("myuser".to_owned(), "mytoken".to_owned());
    let mut controller = control::create(Some(auth), false);
    let mut entries = capabilities_map(true);
    entries.push((auth::USER_KEY, text("myuser")));
    entries.push((auth::TOKEN_KEY, text("mytoken")));
    let mut reply = serve(&mut controller, message::Id(0), map(entries)).unwrap();
    let state = reply
        .remove(auth::STATE_KEY)
        .unwrap_or_else(|| panic!("missing state key in map"));
    let state = u32::from_value(state).expect("state value is not a u32");
    assert_eq!(state, auth::STATE_DONE);
    assert!(controller.remote_authorized);
}

#[test]
fn client_send_bad_auth_parameters() {
    let auth = UserTokenAuthenticator::new("myuser".to_owned(), "mytoken".to_owned());
    let mut controller = control::create(Some(auth), false);
    let mut entries = capabilities_map(true);
    entries.push((auth::USER_KEY, text("myuser")));
    entries.push((auth::TOKEN_KEY, text("badtoken"))); // token is not correct
    let (response, flow) = serve(&mut controller, message::Id(0), map(entries)).unwrap_err();
    let error = match response {
        Message::Error { address, error, .. } => {
            assert_eq!(address, control::authenticate_address());
            error
        }
        other => panic!("not an error: {:?}", other),
    };
    assert!(
        error.contains("failure to verify authentication request"),
        "error is not an authentication failure: {}",
        error
    );
    assert_eq!(flow, DispatchFlow::Stop);
    assert!(!controller.remote_authorized);
}

#[test]
fn client_accepts_what_a_server_replies() {
    let mut client = control::create::<UserTokenAuthenticator>(None, true);
    let mut server = control::create::<UserTokenAuthenticator>(None, false);
    let request = client.authenticate_to_server(map(vec![("auth_user", text("me"))]));
    let reply = serve(&mut server, message::Id(1), request).unwrap();
    assert_eq!(client.server_replied(Ok(reply)), Ok(()));
    for controller in [&client, &server] {
        let settled = controller.capabilities.as_ref().unwrap();
        assert_eq!(settled.get("RemoteCancelableCalls"), Some(&Value::Bool(true)));
        assert_eq!(settled.get("RelativeEndpointURI"), Some(&Value::Bool(true)));
        assert_eq!(settled.get(auth::STATE_KEY), None);
    }
}

#[test]
fn requests_wait_for_authentication() {
    let mut controller = control::create::<UserTokenAuthenticator>(None, false);
    let address = message::Address(service::Id(2), object::Id(1), ActionId(100));
    assert_eq!(controller.handle_call(address), Route::Refuse);
    assert!(!controller.handle_event(address));
    assert!(!controller.handle_post(address));
    serve(&mut controller, message::Id(0), map(capabilities_map(true))).unwrap();
    assert_eq!(controller.handle_call(address), Route::Forward);
    assert!(controller.handle_event(address));
    assert!(controller.handle_post(address));
    let control = control::authenticate_address();
    assert_eq!(controller.handle_call(control), Route::Authenticate);
    assert!(!controller.handle_event(control));
    assert!(!controller.handle_post(control));
}

#[test]
fn refused_calls_are_answered_and_others_may_follow() {
    let address = message::Address(service::Id(2), object::Id(1), ActionId(100));
    let refused = control::refusal(address);
    assert_eq!(
        answer(message::Id(3), address, Err::<Bytes, HandlerError>(refused)),
        (
            Message::Error {
                id: message::Id(3),
                address,
                error: "there is no handler for message of type call to address 2.1.100".to_owned()
            },
            DispatchFlow::Continue
        )
    );
}

#[test]
fn unreadable_authentication_requests_are_fatal() {
    let mut controller = control::create::<UserTokenAuthenticator>(None, false);
    let err = Error::from(FormatError::ArgumentsDeserialization(wire::Error::UnexpectedEnd));
    match controller.handle_authentication(Err(err)) {
        Err(HandlerError::Custom { message, is_fatal }) => {
            assert_eq!(message, "the deserialization of the request arguments has failed");
            assert!(is_fatal);
        }
        other => panic!("not an error: {:?}", other),
    }
    assert!(!controller.remote_authorized);
}

#[test]
fn decision_of_an_authenticator_counts() {
    let mut controller = control::create::<()>(None, false);
    let request = map(capabilities_map(true));
    let refused = Err(auth::Error("no".to_owned()));
    match controller.authenticate_with(&request, refused) {
        Err(err) => assert_eq!(
            err,
            AuthenticateClientError::AuthenticationVerification(auth::Error("no".to_owned()))
        ),
        Ok(_) => panic!("accepted"),
    }
    assert!(!controller.remote_authorized);
    assert!(controller.authenticate_with(&request, Ok(())).is_ok());
    assert!(controller.remote_authorized);
}

#[test]
fn state_of_a_reply_is_checked() {
    let check = |mut entries: Vec<(&'static str, Value)>, state: Option<Value>| {
        if let Some(state) = state {
            entries.push((auth::STATE_KEY, state));
        }
        control::create::<()>(None, true).server_replied(Ok(map(entries)))
    };
    let invalid = |err| {
        Err(Error::Other(BoxError::AuthenticateToServer(AuthenticateToServerError::ResultState(
            err,
        ))))
    };
    assert_eq!(check(capabilities_map(true), None), invalid(StateError::Missing));
    assert_eq!(
        check(capabilities_map(true), Some(Value::Bool(true))),
        invalid(StateError::NotANumber(Kind::Bool))
    );
    assert_eq!(
        check(capabilities_map(true), Some(Value::UInt32(1))),
        invalid(StateError::NotDone(1))
    );
    assert_eq!(
        check(capabilities_map(false), Some(Value::UInt32(3))),
        Err(Error::Other(BoxError::AuthenticateToServer(
            AuthenticateToServerError::UnexpectedServerCapabilityValue(KeyValueExpectError {
                key: "RelativeEndpointURI".to_owned()
            })
        )))
    );
    assert_eq!(check(capabilities_map(true), Some(Value::UInt32(3))), Ok(()));
    assert_eq!(
        control::create::<()>(None, true).server_replied(Err(Error::CallCanceled)),
        Err(Error::CallCanceled)
    );
}

#[test]
fn first_missing_capability_is_named() {
    let missing = |entries| capabilities::check_required(&map(entries)).unwrap_err().key;
    assert_eq!(missing(vec![]), "RemoteCancelableCalls");
    assert_eq!(missing(vec![("RemoteCancelableCalls", Value::Bool(true))]), "ObjectPtrUID");
    assert_eq!(missing(capabilities_map(false)), "RelativeEndpointURI");
    assert_eq!(capabilities::check_required(&capabilities::local_map()), Ok(()));
    let shared = capabilities::shared_with_local(&map(vec![("ObjectPtrUID", Value::Bool(true))]));
    assert_eq!(shared.get("ObjectPtrUID"), Some(&Value::Bool(true)));
    assert_eq!(shared.get("RelativeEndpointURI"), Some(&Value::Bool(false)));
}

#[test]
fn both_user_and_token_are_verified() {
    let auth = UserTokenAuthenticator::new("myuser".to_owned(), "mytoken".to_owned());
    let verify = |user: &str, token: &str| {
        auth.verify(map(vec![("auth_user", text(user)), ("auth_token", text(token))])).is_ok()
    };
    assert!(verify("myuser", "mytoken"));
    assert!(!verify("myuser", "mytoken2"));
    assert!(!verify("myuse", "mytoken"));
    assert!(auth.verify(NameMap::new()).is_err());
}

#[test]
fn replies_that_cannot_be_written_are_fatal() {
    let payload = Bytes::from_static(b"reply");
    assert_eq!(control::reply_written(Ok(payload.clone())), Ok(payload));
    assert_eq!(
        control::reply_written(Err(wire::Error::TooLong)),
        Err(HandlerError::Custom {
            message: "the serialization of the method return value has failed".to_owned(),
            is_fatal: true
        })
    );
}

#[test]
fn calls_over_a_session() {
    let payload = || Ok(Bytes::from_static(b"payload"));
    let reply = || Ok(Bytes::from_static(b"reply"));
    assert_eq!(call(payload(), reply(), Ok(Value::Int32(3))), Ok(Value::Int32(3)));
    assert_eq!(
        call(Err(wire::Error::TooLong), reply(), Ok(Value::Int32(3))),
        Err(Error::from(FormatError::ArgumentsSerialization(wire::Error::TooLong)))
    );
    assert_eq!(
        call(payload(), Err(messaging::Error::CallCanceled), Ok(Value::Int32(3))),
        Err(Error::CallCanceled)
    );
    assert_eq!(
        call(payload(), Err(messaging::Error::CallError("no".to_owned())), Ok(Value::Int32(3))),
        Err(Error::Other(BoxError::Message("no".to_owned())))
    );
    let lost = BoxError::Message("lost".to_owned());
    assert_eq!(
        call(payload(), Err(messaging::Error::LinkLost(lost)), Ok(Value::Int32(3))),
        Err(Error::Other(BoxError::Message("lost".to_owned())))
    );
    assert_eq!(
        call(payload(), reply(), Err(wire::Error::UnexpectedEnd)),
        Err(Error::from(FormatError::MethodReturnValueDeserialization(
            wire::Error::UnexpectedEnd
        )))
    );
}

#[test]
fn posts_over_a_session() {
    let payload = || Ok(Bytes::from_static(b"payload"));
    assert_eq!(post(payload(), Ok(())), Ok(()));
    assert_eq!(
        post(payload(), Err(messaging::Error::CallCanceled)),
        Err(Error::CallCanceled)
    );
    assert_eq!(
        post(Err(wire::Error::TooLong), Ok(())),
        Err(Error::from(FormatError::ArgumentsSerialization(wire::Error::TooLong)))
    );
}

#[test]
fn client_has_a_session_while_it_is_authorized() {
    assert_eq!(served_session(true, "session"), Some("session"));
    assert_eq!(served_session(false, "session"), None);
}

#[test]
fn servers_serve_clients_until_none_can_connect() {
    let mut state = ServerState::new();
    assert_eq!(state.on_event(ServerEvent::Connected("first")), Some("first"));
    assert_eq!(state.on_event(ServerEvent::<&str>::EndpointsSettled), None);
    assert!(!state.is_over());
    assert_eq!(state.on_event(ServerEvent::Connected("second")), Some("second"));
    assert_eq!(state.on_event(ServerEvent::<&str>::ClientsEnded), None);
    assert!(state.is_over());
}
