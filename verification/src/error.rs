//! The errors of the library.

use vstd::prelude::*;
use vstd::std_specs::convert::FromSpecImpl;
use vstd::string::to_string_from_display_ensures;
use crate::control::{AuthenticateClientError, AuthenticateToServerError};
use crate::wire;
use crate::message;
use crate::messaging;
use crate::meta::ActionNameOrId;
use crate::service_directory;
use crate::store::{ConnectionError, UnreachableServiceError};
use crate::value::FromValueError;

verus! {

/// Why a request to an object did not succeed.
#[derive(PartialEq, Eq, Debug)]
pub enum Error {
    /// The call request has been canceled.
    CallCanceled,
    /// There is no object method with this identifier.
    MethodNotFound(ActionNameOrId),
    /// Any other error.
    Other(BoxError),
}

/// The errors that `Error` carries without adding anything to them. An error of any other type is
/// carried by `Io`.
#[derive(PartialEq, Eq, Debug)]
pub enum BoxError {
    Message(String),
    Io(IoError),
    ValueConversion(ValueConversionError),
    Format(FormatError),
    NoHandler(NoHandlerError),
    Directory(service_directory::Error),
    UnreachableService(UnreachableServiceError),
    AuthenticateClient(AuthenticateClientError),
    AuthenticateToServer(AuthenticateToServerError),
}

/// The error of an input or output operation, or any other error: `std::io::Error::other` takes an
/// error of any type, and `std::io::Error::downcast` gives it back. `shown` is how it is shown.
#[derive(Debug)]
pub struct IoError {
    pub shown: String,
    pub source: std::io::Error,
}

impl PartialEq for IoError {
    fn eq(&self, other: &IoError) -> (same: bool) {
        self.shown == other.shown
    }
}

impl vstd::std_specs::cmp::PartialEqSpecImpl for IoError {
    open spec fn obeys_eq_spec() -> bool {
        true
    }

    open spec fn eq_spec(&self, other: &IoError) -> bool {
        self.shown@ == other.shown@
    }
}

impl Eq for IoError {}

/// A value could not be converted.
#[derive(PartialEq, Eq, Debug)]
pub enum ValueConversionError {
    /// The conversion of the object method return value has failed.
    MethodReturnValue(FromValueError),
    /// The conversion of the request arguments has failed.
    Arguments(FromValueError),
}

/// Bytes could not be written or read.
#[derive(PartialEq, Eq, Debug)]
pub enum FormatError {
    /// The serialization of the request arguments has failed.
    ArgumentsSerialization(wire::Error),
    /// The deserialization of the request arguments has failed.
    ArgumentsDeserialization(wire::Error),
    /// The serialization of the method return value has failed.
    MethodReturnValueSerialization(wire::Error),
    /// The deserialization of the method return value has failed.
    MethodReturnValueDeserialization(wire::Error),
}

/// There is no handler for a message of this type to this address.
#[derive(Clone, Copy, PartialEq, Eq, Structural, Debug)]
pub struct NoHandlerError(pub message::Type, pub message::Address);

/// The error with which a handler answers a request.
#[derive(PartialEq, Eq, Debug)]
pub enum HandlerError {
    /// The call request has been canceled.
    CallCanceled,
    /// An error in words. After a fatal one, no other request may follow.
    Custom { message: String, is_fatal: bool },
}

impl From<messaging::Error> for Error {
    fn from(err: messaging::Error) -> (result: Error) {
        match err {
            messaging::Error::LinkLost(error) => Error::Other(error),
            messaging::Error::CallError(error) => Error::Other(BoxError::Message(error)),
            messaging::Error::CallCanceled => Error::CallCanceled,
        }
    }
}

impl FromSpecImpl<messaging::Error> for Error {
    open spec fn obeys_from_spec() -> bool {
        true
    }

    open spec fn from_spec(err: messaging::Error) -> Error {
        match err {
            messaging::Error::LinkLost(error) => Error::Other(error),
            messaging::Error::CallError(error) => Error::Other(BoxError::Message(error)),
            messaging::Error::CallCanceled => Error::CallCanceled,
        }
    }
}

impl From<String> for Error {
    fn from(message: String) -> (result: Error) {
        Error::Other(BoxError::Message(message))
    }
}

impl FromSpecImpl<String> for Error {
    open spec fn obeys_from_spec() -> bool {
        true
    }

    open spec fn from_spec(message: String) -> Error {
        Error::Other(BoxError::Message(message))
    }
}

impl<'a> From<&'a str> for Error {
    fn from(message: &'a str) -> (result: Error)
        ensures
            result matches Error::Other(BoxError::Message(text)) && text@ == message@,
    {
        Error::Other(BoxError::Message(message.to_owned()))
    }
}

impl<'a> FromSpecImpl<&'a str> for Error {
    // Two texts with the same characters need not be the same value, so that `from` states what
    // it gives by itself.
    open spec fn obeys_from_spec() -> bool {
        false
    }

    open spec fn from_spec(message: &'a str) -> Error {
        Error::CallCanceled
    }
}

/// The error of an input or output operation.
#[verifier::external_type_specification]
#[verifier::external_body]
pub struct ExIoError(std::io::Error);

impl From<std::io::Error> for Error {
    fn from(err: std::io::Error) -> (result: Error)
        ensures
            result matches Error::Other(BoxError::Io(io)) && io.source == err
                && to_string_from_display_ensures(&err, io.shown),
    {
        let shown = err.to_string();
        Error::Other(BoxError::Io(IoError { shown, source: err }))
    }
}

impl FromSpecImpl<std::io::Error> for Error {
    // How the error is shown depends on the machine too, so that `from` states what it gives by
    // itself.
    open spec fn obeys_from_spec() -> bool {
        false
    }

    open spec fn from_spec(err: std::io::Error) -> Error {
        Error::CallCanceled
    }
}

impl From<BoxError> for Error {
    fn from(err: BoxError) -> (result: Error) {
        Error::Other(err)
    }
}

impl FromSpecImpl<BoxError> for Error {
    open spec fn obeys_from_spec() -> bool {
        true
    }

    open spec fn from_spec(err: BoxError) -> Error {
        Error::Other(err)
    }
}

impl From<ValueConversionError> for Error {
    fn from(err: ValueConversionError) -> (result: Error) {
        Error::Other(BoxError::ValueConversion(err))
    }
}

impl FromSpecImpl<ValueConversionError> for Error {
    open spec fn obeys_from_spec() -> bool {
        true
    }

    open spec fn from_spec(err: ValueConversionError) -> Error {
        Error::Other(BoxError::ValueConversion(err))
    }
}

impl From<FormatError> for Error {
    fn from(err: FormatError) -> (result: Error) {
        Error::Other(BoxError::Format(err))
    }
}

impl FromSpecImpl<FormatError> for Error {
    open spec fn obeys_from_spec() -> bool {
        true
    }

    open spec fn from_spec(err: FormatError) -> Error {
        Error::Other(BoxError::Format(err))
    }
}

impl From<NoHandlerError> for Error {
    fn from(err: NoHandlerError) -> (result: Error) {
        Error::Other(BoxError::NoHandler(err))
    }
}

impl FromSpecImpl<NoHandlerError> for Error {
    open spec fn obeys_from_spec() -> bool {
        true
    }

    open spec fn from_spec(err: NoHandlerError) -> Error {
        Error::Other(BoxError::NoHandler(err))
    }
}

impl From<service_directory::Error> for Error {
    fn from(err: service_directory::Error) -> (result: Error) {
        Error::Other(BoxError::Directory(err))
    }
}

impl FromSpecImpl<service_directory::Error> for Error {
    open spec fn obeys_from_spec() -> bool {
        true
    }

    open spec fn from_spec(err: service_directory::Error) -> Error {
        Error::Other(BoxError::Directory(err))
    }
}

impl From<UnreachableServiceError> for Error {
    fn from(err: UnreachableServiceError) -> (result: Error) {
        Error::Other(BoxError::UnreachableService(err))
    }
}

impl FromSpecImpl<UnreachableServiceError> for Error {
    open spec fn obeys_from_spec() -> bool {
        true
    }

    open spec fn from_spec(err: UnreachableServiceError) -> Error {
        Error::Other(BoxError::UnreachableService(err))
    }
}

impl From<AuthenticateClientError> for Error {
    fn from(err: AuthenticateClientError) -> (result: Error) {
        Error::Other(BoxError::AuthenticateClient(err))
    }
}

impl FromSpecImpl<AuthenticateClientError> for Error {
    open spec fn obeys_from_spec() -> bool {
        true
    }

    open spec fn from_spec(err: AuthenticateClientError) -> Error {
        Error::Other(BoxError::AuthenticateClient(err))
    }
}

impl From<AuthenticateToServerError> for Error {
    fn from(err: AuthenticateToServerError) -> (result: Error) {
        Error::Other(BoxError::AuthenticateToServer(err))
    }
}

impl FromSpecImpl<AuthenticateToServerError> for Error {
    open spec fn obeys_from_spec() -> bool {
        true
    }

    open spec fn from_spec(err: AuthenticateToServerError) -> Error {
        Error::Other(BoxError::AuthenticateToServer(err))
    }
}

impl ValueConversionError {
    /// The text of the error.
    pub open spec fn text(self) -> Seq<char> {
        match self {
            ValueConversionError::MethodReturnValue(_) =>
                "the conversion of the object method return value has failed"@,
            ValueConversionError::Arguments(_) =>
                "the conversion of the request arguments has failed"@,
        }
    }

    /// Renders the error.
    pub fn to_text(&self) -> (text: String)
        ensures
            text@ == self.text(),
    {
        match self {
            ValueConversionError::MethodReturnValue(_) =>
                "the conversion of the object method return value has failed".to_owned(),
            ValueConversionError::Arguments(_) =>
                "the conversion of the request arguments has failed".to_owned(),
        }
    }
}

impl FormatError {
    /// The text of the error.
    pub open spec fn text(self) -> Seq<char> {
        match self {
            FormatError::ArgumentsSerialization(_) =>
                "the serialization of the request arguments has failed"@,
            FormatError::ArgumentsDeserialization(_) =>
                "the deserialization of the request arguments has failed"@,
            FormatError::MethodReturnValueSerialization(_) =>
                "the serialization of the method return value has failed"@,
            FormatError::MethodReturnValueDeserialization(_) =>
                "the deserialization of the method return value has failed"@,
        }
    }

    /// Renders the error.
    pub fn to_text(&self) -> (text: String)
        ensures
            text@ == self.text(),
    {
        match self {
            FormatError::ArgumentsSerialization(_) =>
                "the serialization of the request arguments has failed".to_owned(),
            FormatError::ArgumentsDeserialization(_) =>
                "the deserialization of the request arguments has failed".to_owned(),
            FormatError::MethodReturnValueSerialization(_) =>
                "the serialization of the method return value has failed".to_owned(),
            FormatError::MethodReturnValueDeserialization(_) =>
                "the deserialization of the method return value has failed".to_owned(),
        }
    }
}

impl NoHandlerError {
    /// The text of the error.
    pub open spec fn text(self) -> Seq<char> {
        "there is no handler for message of type "@ + self.0.text() + " to address "@
            + self.1.text()
    }

    /// Renders the error.
    pub fn to_text(&self) -> (text: String)
        ensures
            text@ == self.text(),
    {
        let mut text = "there is no handler for message of type ".to_owned();
        text.append(self.0.to_text());
        text.append(" to address ");
        text.append(self.1.to_text().as_str());
        text
    }
}

/// The text of the connections that were tried, one right after the other.
pub open spec fn connections_text(errors: Seq<ConnectionError>) -> Seq<char>
    decreases errors,
{
    if errors.len() == 0 {
        Seq::empty()
    } else {
        connections_text(errors.subrange(0, errors.len() - 1)) + errors[errors.len() - 1].shown@
            + " => "@ + errors[errors.len() - 1].source.text()
    }
}

impl UnreachableServiceError {
    /// The text of the error.
    pub open spec fn text(self) -> Seq<char>
        decreases self,
    {
        "could not reach service \""@ + self.0@ + "\", "@ + (if self.1@.len() == 0 {
            "no connection was tried"@
        } else {
            "tried the following connections: ["@ + connections_text(self.1@) + "]"@
        })
    }

    /// Renders the error.
    pub fn to_text(&self) -> (text: String)
        ensures
            text@ == self.text(),
        decreases self,
    {
        let mut text = "could not reach service \"".to_owned();
        text.append(self.0.as_str());
        text.append("\", ");
        if self.1.len() == 0 {
            text.append("no connection was tried");
        } else {
            text.append("tried the following connections: [");
            let mut i: usize = 0;
            let ghost start = text@;
            assert(self.1@.subrange(0, 0) =~= Seq::<ConnectionError>::empty());
            assert(text@ =~= start + connections_text(self.1@.subrange(0, 0)));
            while i < self.1.len()
                invariant
                    i <= self.1@.len(),
                    text@ == start + connections_text(self.1@.subrange(0, i as int)),
                decreases self.1@.len() - i,
            {
                let error: &ConnectionError = &self.1[i];
                text.append(error.shown.as_str());
                text.append(" => ");
                text.append(error.source.to_text().as_str());
                proof {
                    let done = self.1@.subrange(0, i + 1);
                    assert(done.subrange(0, i as int) =~= self.1@.subrange(0, i as int));
                    assert(text@ =~= start + connections_text(done));
                }
                i += 1;
            }
            assert(self.1@.subrange(0, self.1@.len() as int) =~= self.1@);
            text.append("]");
        }
        assert(text@ =~= self.text());
        text
    }
}

impl BoxError {
    /// The text of the error.
    pub open spec fn text(self) -> Seq<char>
        decreases self,
    {
        match self {
            BoxError::Message(message) => message@,
            BoxError::Io(err) => err.shown@,
            BoxError::ValueConversion(err) => err.text(),
            BoxError::Format(err) => err.text(),
            BoxError::NoHandler(err) => err.text(),
            BoxError::Directory(err) => err.text(),
            BoxError::UnreachableService(err) => err.text(),
            BoxError::AuthenticateClient(err) => err.text(),
            BoxError::AuthenticateToServer(err) => err.text(),
        }
    }

    /// Renders the error.
    pub fn to_text(&self) -> (text: String)
        ensures
            text@ == self.text(),
        decreases self,
    {
        match self {
            BoxError::Message(message) => message.clone(),
            BoxError::Io(err) => err.shown.clone(),
            BoxError::ValueConversion(err) => err.to_text(),
            BoxError::Format(err) => err.to_text(),
            BoxError::NoHandler(err) => err.to_text(),
            BoxError::Directory(err) => err.to_text(),
            BoxError::UnreachableService(err) => err.to_text(),
            BoxError::AuthenticateClient(err) => err.to_text(),
            BoxError::AuthenticateToServer(err) => err.to_text(),
        }
    }
}

impl Error {
    /// The text of the error.
    pub open spec fn text(self) -> Seq<char>
        decreases self,
    {
        match self {
            Error::CallCanceled => "the call request has been canceled"@,
            Error::MethodNotFound(ident) =>
                "there is no object method with identifier "@ + ident@.text(),
            Error::Other(err) => err.text(),
        }
    }

    /// Renders the error.
    pub fn to_text(&self) -> (text: String)
        ensures
            text@ == self.text(),
        decreases self,
    {
        match self {
            Error::CallCanceled => "the call request has been canceled".to_owned(),
            Error::MethodNotFound(ident) => {
                let mut text = "there is no object method with identifier ".to_owned();
                text.append(ident.to_text().as_str());
                text
            },
            Error::Other(err) => err.to_text(),
        }
    }
}

impl HandlerError {
    /// Whether this is an error with the given text, after which other requests may follow
    /// or not.
    pub open spec fn says(&self, text: Seq<char>, fatal: bool) -> bool {
        match self {
            HandlerError::CallCanceled => false,
            HandlerError::Custom { message, is_fatal } => message@ == text && *is_fatal == fatal,
        }
    }

    /// An error after which other requests may follow.
    pub fn non_fatal(message: String) -> (error: HandlerError)
        ensures
            error == (HandlerError::Custom { message, is_fatal: false }),
    {
        HandlerError::Custom { message, is_fatal: false }
    }

    /// An error after which no other request may follow.
    pub fn fatal(message: String) -> (error: HandlerError)
        ensures
            error == (HandlerError::Custom { message, is_fatal: true }),
    {
        HandlerError::Custom { message, is_fatal: true }
    }

    /// The error of a handler whose task did not end by itself: a canceled call where the
    /// task was canceled, and otherwise the words with which it failed, which are not fatal.
    pub fn from_join_failure(cancelled: bool, message: String) -> (error: HandlerError)
        ensures
            error == (if cancelled {
                HandlerError::CallCanceled
            } else {
                HandlerError::Custom { message, is_fatal: false }
            }),
    {
        if cancelled {
            HandlerError::CallCanceled
        } else {
            HandlerError::Custom { message, is_fatal: false }
        }
    }
}

impl messaging::CallError for HandlerError {
    open spec fn canceled(&self) -> bool {
        *self is CallCanceled
    }

    open spec fn fatal(&self) -> bool {
        match self {
            HandlerError::CallCanceled => false,
            HandlerError::Custom { is_fatal, .. } => *is_fatal,
        }
    }

    open spec fn text(&self) -> Seq<char> {
        match self {
            HandlerError::CallCanceled => "the call request has been canceled"@,
            HandlerError::Custom { message, .. } => message@,
        }
    }

    fn is_canceled(&self) -> (answer: bool) {
        match self {
            HandlerError::CallCanceled => true,
            HandlerError::Custom { .. } => false,
        }
    }

    fn is_fatal(&self) -> (answer: bool) {
        match self {
            HandlerError::CallCanceled => false,
            HandlerError::Custom { is_fatal, .. } => *is_fatal,
        }
    }

    fn to_text(&self) -> (text: String) {
        match self {
            HandlerError::CallCanceled => "the call request has been canceled".to_owned(),
            HandlerError::Custom { message, .. } => message.clone(),
        }
    }
}

impl From<Error> for HandlerError {
    fn from(err: Error) -> (result: HandlerError)
        ensures
            match err {
                Error::CallCanceled => result is CallCanceled,
                _ => result.says(err.text(), true),
            },
    {
        if let Error::CallCanceled = err {
            return HandlerError::CallCanceled;
        }
        HandlerError::Custom { message: err.to_text(), is_fatal: true }
    }
}

impl FromSpecImpl<Error> for HandlerError {
    // Two texts with the same characters need not be the same value, so that `from` states what
    // it gives by itself.
    open spec fn obeys_from_spec() -> bool {
        false
    }

    open spec fn from_spec(err: Error) -> HandlerError {
        HandlerError::CallCanceled
    }
}

/// The error of a task of the `tokio` runtime that did not end by itself.
#[verifier::external_type_specification]
#[verifier::external_body]
pub struct ExJoinError(tokio::task::JoinError);

/// `tokio::task::JoinError::is_cancelled` tells whether the task was canceled. Nothing is claimed
/// of the answer, which rests on what became of the task.
pub assume_specification[ tokio::task::JoinError::is_cancelled ](
    err: &tokio::task::JoinError,
) -> bool;

/// Whether an error is the one of a handler whose task did not end by itself: a canceled call
/// where the task was canceled, and otherwise an error that is not fatal and says what the error
/// of the task says.
pub open spec fn join_failure(err: tokio::task::JoinError, error: HandlerError) -> bool {
    exists|cancelled: bool, message: String|
        {
            &&& #[trigger] call_ensures(tokio::task::JoinError::is_cancelled, (&err,), cancelled)
            &&& #[trigger] to_string_from_display_ensures(&err, message)
            &&& error == (if cancelled {
                HandlerError::CallCanceled
            } else {
                HandlerError::Custom { message, is_fatal: false }
            })
        }
}

impl From<tokio::task::JoinError> for HandlerError {
    fn from(err: tokio::task::JoinError) -> (result: HandlerError)
        ensures
            join_failure(err, result),
    {
        let cancelled = err.is_cancelled();
        let message = err.to_string();
        HandlerError::from_join_failure(cancelled, message)
    }
}

impl FromSpecImpl<tokio::task::JoinError> for HandlerError {
    // What became of the task is not known, so that `from` states what it gives by itself.
    open spec fn obeys_from_spec() -> bool {
        false
    }

    open spec fn from_spec(err: tokio::task::JoinError) -> HandlerError {
        HandlerError::CallCanceled
    }
}

} // verus!
