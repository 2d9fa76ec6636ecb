//! Authentication of the peers of a session.

use vstd::prelude::*;
use vstd::utf8::encode_utf8;
use crate::capabilities::{
    KeyDynValueMap, OBJECT_PTR_UID, RELATIVE_ENDPOINT_URI, REMOTE_CANCELABLE_CALLS,
};
use crate::value::{Kind, Value};

verus! {

/// The name of the parameter that holds the user.
pub const USER_KEY: &'static str = "auth_user";

/// The name of the parameter that holds the token.
pub const TOKEN_KEY: &'static str = "auth_token";

/// The name under which a reply holds the state of the authentication.
pub const STATE_KEY: &'static str = "__qi_auth_state";

/// The state of an authentication that is done.
pub const STATE_DONE: u32 = 3;

/// Why an authenticator does not accept a request, in words.
#[derive(PartialEq, Eq, Debug)]
pub struct Error(pub String);

/// What is wrong with the authentication state of a reply.
#[derive(Clone, Copy, PartialEq, Eq, Structural, Debug)]
pub enum StateError {
    /// The reply holds no state.
    Missing,
    /// The state is not a number.
    NotANumber(Kind),
    /// The state does not say that authentication is done.
    NotDone(u32),
}

/// What decides on requests for authentication.
pub trait Authenticator {
    /// Decides on the parameters of a request.
    fn verify(&self, parameters: KeyDynValueMap) -> (result: Result<(), Error>);
}

/// An authenticator that expects a user and a token.
#[derive(PartialEq, Eq, Debug)]
pub struct UserTokenAuthenticator {
    pub user: String,
    pub token: String,
}

/// Whether a map holds a text under a name.
pub open spec fn holds_text(map: Map<Seq<char>, Value>, key: Seq<char>, text: Seq<char>) -> bool {
    map.contains_key(key) && (map[key] matches Value::String(raw) && raw@ == encode_utf8(text))
}

/// Tells whether a map holds a text under a name.
fn reads_text(map: &KeyDynValueMap, key: &str, text: &String) -> (answer: bool)
    ensures
        answer == holds_text(map@, key@, text@),
{
    match map.get(key) {
        Some(Value::String(raw)) => same_bytes(raw.as_slice(), text.as_str().as_bytes()),
        _ => false,
    }
}

/// Tells whether two slices hold the same bytes.
fn same_bytes(a: &[u8], b: &[u8]) -> (answer: bool)
    ensures
        answer == (a@ == b@),
{
    if a.len() != b.len() {
        return false;
    }
    let mut i: usize = 0;
    while i < a.len()
        invariant
            i <= a@.len() == b@.len(),
            forall|j: int| 0 <= j < i ==> a@[j] == b@[j],
        decreases a@.len() - i,
    {
        if a[i] != b[i] {
            return false;
        }
        i += 1;
    }
    assert(a@ =~= b@);
    true
}

impl UserTokenAuthenticator {
    /// The authenticator that expects the given user and token.
    pub fn new(user: String, token: String) -> (authenticator: UserTokenAuthenticator)
        ensures
            authenticator.user == user,
            authenticator.token == token,
    {
        UserTokenAuthenticator { user, token }
    }
}

impl Authenticator for UserTokenAuthenticator {
    fn verify(&self, parameters: KeyDynValueMap) -> (result: Result<(), Error>)
        ensures
            result is Ok <==> holds_text(parameters@, USER_KEY@, self.user@) && holds_text(
                parameters@,
                TOKEN_KEY@,
                self.token@,
            ),
    {
        if !reads_text(&parameters, USER_KEY, &self.user) {
            return Err(Error("the user is not the expected one".to_owned()));
        }
        if !reads_text(&parameters, TOKEN_KEY, &self.token) {
            return Err(Error("the token is not the expected one".to_owned()));
        }
        Ok(())
    }
}

/// The reply to a request that is accepted: the shared capabilities, and that the authentication
/// is done.
pub open spec fn state_done(capabilities: Map<Seq<char>, Value>) -> Map<Seq<char>, Value> {
    capabilities.insert(STATE_KEY@, Value::UInt32(STATE_DONE))
}

/// Makes the reply to a request that is accepted.
pub fn state_done_map(capabilities: KeyDynValueMap) -> (reply: KeyDynValueMap)
    ensures
        reply@ == state_done(capabilities@),
{
    let mut reply = capabilities;
    reply.set(STATE_KEY.to_owned(), Value::UInt32(STATE_DONE));
    reply
}

/// What is wrong with the authentication state of a reply, if anything is.
pub open spec fn state_error(reply: Map<Seq<char>, Value>) -> Option<StateError> {
    if !reply.contains_key(STATE_KEY@) {
        Some(StateError::Missing)
    } else {
        match reply[STATE_KEY@] {
            Value::UInt32(state) => if state == STATE_DONE {
                None
            } else {
                Some(StateError::NotDone(state))
            },
            other => Some(StateError::NotANumber(other.spec_kind())),
        }
    }
}

/// Takes the authentication state out of a reply, and checks that it is done.
pub fn extract_state_result(reply: &mut KeyDynValueMap) -> (result: Result<(), StateError>)
    ensures
        final(reply)@ == old(reply)@.remove(STATE_KEY@),
        match state_error(old(reply)@) {
            Some(err) => result == Err::<(), StateError>(err),
            None => result is Ok,
        },
{
    match reply.remove(STATE_KEY) {
        None => Err(StateError::Missing),
        Some(Value::UInt32(state)) => if state == STATE_DONE {
            Ok(())
        } else {
            Err(StateError::NotDone(state))
        },
        Some(other) => Err(StateError::NotANumber(other.kind())),
    }
}

/// The name of the state is not the name of a capability.
pub proof fn state_is_no_capability()
    ensures
        STATE_KEY@ != REMOTE_CANCELABLE_CALLS@,
        STATE_KEY@ != OBJECT_PTR_UID@,
        STATE_KEY@ != RELATIVE_ENDPOINT_URI@,
{
    reveal_strlit("__qi_auth_state");
    reveal_strlit("RemoteCancelableCalls");
    reveal_strlit("ObjectPtrUID");
    reveal_strlit("RelativeEndpointURI");
    assert(STATE_KEY@.len() == 15);
    assert(REMOTE_CANCELABLE_CALLS@.len() == 21);
    assert(OBJECT_PTR_UID@.len() == 12);
    assert(RELATIVE_ENDPOINT_URI@.len() == 19);
}

} // verus!
