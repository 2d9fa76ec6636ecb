//! What errors say, and what they are taken as.

use vstd::prelude::*;
use crate::control::{AuthenticateClientError, AuthenticateToServerError};
use crate::error::{
    BoxError, Error, FormatError, HandlerError, IoError, NoHandlerError, ValueConversionError,
};
use crate::message;
use crate::messaging::{self, CallError};
use crate::meta::ActionNameOrId;
use crate::service_directory;
use crate::store::{ConnectionError, UnreachableServiceError};
use crate::text::decimal;

verus! {

/// The text of a message address is its three numbers, separated by dots.
pub proof fn text_of_an_address(address: &message::Address, text: String)
    requires
        call_ensures(message::Address::to_text, (address,), text),
    ensures
        text@ == decimal(address.0.0 as nat) + "."@ + decimal(address.1.0 as nat) + "."@ + decimal(
            address.2.0 as nat,
        ),
{
}

/// The parts of a message address are those that it is made of.
pub proof fn parts_of_an_address(
    address: &message::Address,
    service: crate::service::Id,
    object: crate::object::Id,
    action: crate::meta::ActionId,
)
    requires
        call_ensures(message::Address::service, (address,), service),
        call_ensures(message::Address::object, (address,), object),
        call_ensures(message::Address::action, (address,), action),
    ensures
        service == address.0,
        object == address.1,
        action == address.2,
{
}

/// Kinds of requests are named call, post and event.
pub proof fn names_of_requests(ty: &message::Type, text: &'static str)
    requires
        call_ensures(message::Type::to_text, (ty,), text),
    ensures
        match ty {
            message::Type::Call => text@ == "call"@,
            message::Type::Post => text@ == "post"@,
            message::Type::Event => text@ == "event"@,
        },
{
}

/// The text of a failed conversion says what was converted.
pub proof fn text_of_a_conversion_error(err: &ValueConversionError, text: String)
    requires
        call_ensures(ValueConversionError::to_text, (err,), text),
    ensures
        match err {
            ValueConversionError::MethodReturnValue(_) => text@
                == "the conversion of the object method return value has failed"@,
            ValueConversionError::Arguments(_) => text@
                == "the conversion of the request arguments has failed"@,
        },
{
}

/// The text of a failure to write or read says which it was, and of what.
pub proof fn text_of_a_format_error(err: &FormatError, text: String)
    requires
        call_ensures(FormatError::to_text, (err,), text),
    ensures
        match err {
            FormatError::ArgumentsSerialization(_) => text@
                == "the serialization of the request arguments has failed"@,
            FormatError::ArgumentsDeserialization(_) => text@
                == "the deserialization of the request arguments has failed"@,
            FormatError::MethodReturnValueSerialization(_) => text@
                == "the serialization of the method return value has failed"@,
            FormatError::MethodReturnValueDeserialization(_) => text@
                == "the deserialization of the method return value has failed"@,
        },
{
}

/// The text of an error that there is no handler names the kind of request and its address.
pub proof fn text_of_a_missing_handler(err: &NoHandlerError, text: String)
    requires
        call_ensures(NoHandlerError::to_text, (err,), text),
    ensures
        ({
            let kind = match err.0 {
                message::Type::Call => "call"@,
                message::Type::Post => "post"@,
                message::Type::Event => "event"@,
            };
            text@ == "there is no handler for message of type "@ + kind + " to address "@ + (decimal(
                err.1.0.0 as nat,
            ) + "."@ + decimal(err.1.1.0 as nat) + "."@ + decimal(err.1.2.0 as nat))
        }),
{
}

/// The texts of errors of authentication say what was wrong.
pub proof fn texts_of_authentication_errors(
    client: &AuthenticateClientError,
    client_text: String,
    server: &AuthenticateToServerError,
    server_text: String,
)
    requires
        call_ensures(AuthenticateClientError::to_text, (client,), client_text),
        call_ensures(AuthenticateToServerError::to_text, (server,), server_text),
    ensures
        match client {
            AuthenticateClientError::UnexpectedclientCapabilityValue(_) => client_text@
                == "unexpected capability value"@,
            AuthenticateClientError::AuthenticationVerification(_) => client_text@
                == "failure to verify authentication request"@,
        },
        match server {
            AuthenticateToServerError::ResultState(_) => server_text@
                == "the authentication state sent back by the server is invalid"@,
            AuthenticateToServerError::UnexpectedServerCapabilityValue(_) => server_text@
                == "the server sent an unexpected capability value"@,
        },
{
}

/// The text of a service that could not be reached names it, and says that nothing was tried, or
/// what each connection that was tried came to, in the order in which they were.
pub proof fn text_of_an_unreachable_service(
    none: &UnreachableServiceError,
    none_text: String,
    one: &UnreachableServiceError,
    one_text: String,
    cause: String,
)
    requires
        call_ensures(UnreachableServiceError::to_text, (none,), none_text),
        none.1@.len() == 0,
        call_ensures(UnreachableServiceError::to_text, (one,), one_text),
        one.1@.len() == 1,
        call_ensures(Error::to_text, (&one.1@[0].source,), cause),
    ensures
        none_text@ == "could not reach service \""@ + none.0@ + "\", "@ + "no connection was tried"@,
        one_text@ == "could not reach service \""@ + one.0@ + "\", "@ + (
        "tried the following connections: ["@ + (one.1@[0].shown@ + " => "@ + cause@) + "]"@),
{
    reveal_with_fuel(crate::error::connections_text, 2);
    assert(one.1@.subrange(0, 0) =~= Seq::<ConnectionError>::empty());
    let tail = one.1@[0].shown@ + " => "@ + cause@;
    assert(crate::error::connections_text(one.1@) =~= tail);
}

/// One more connection that was tried adds its own text after those of the others.
pub proof fn text_of_one_more_connection(
    fewer: &UnreachableServiceError,
    fewer_text: String,
    more: &UnreachableServiceError,
    more_text: String,
    last: ConnectionError,
    cause: String,
)
    requires
        call_ensures(UnreachableServiceError::to_text, (fewer,), fewer_text),
        call_ensures(UnreachableServiceError::to_text, (more,), more_text),
        fewer.1@.len() > 0,
        more.0@ == fewer.0@,
        more.1@ == fewer.1@.push(last),
        call_ensures(Error::to_text, (&last.source,), cause),
    ensures
        fewer_text@.len() > 0,
        more_text@ == fewer_text@.drop_last() + last.shown@ + " => "@ + cause@ + "]"@,
{
    reveal_strlit("]");
    assert(more.1@.subrange(0, more.1@.len() - 1) =~= fewer.1@);
    assert(fewer_text@.drop_last() =~= "could not reach service \""@ + fewer.0@ + "\", "@ + (
    "tried the following connections: ["@ + crate::error::connections_text(fewer.1@)));
    assert(more_text@ =~= fewer_text@.drop_last() + last.shown@ + " => "@ + cause@ + "]"@);
}

/// An error that is carried says what it says by itself.
pub proof fn carried_errors_say_what_they_say(err: &BoxError, text: String)
    requires
        call_ensures(BoxError::to_text, (err,), text),
    ensures
        match *err {
            BoxError::Message(message) => text@ == message@,
            BoxError::Io(io) => text@ == io.shown@,
            BoxError::ValueConversion(inner) => forall|own: String|
                call_ensures(ValueConversionError::to_text, (&inner,), own) ==> own@ == text@,
            BoxError::Format(inner) => forall|own: String|
                call_ensures(FormatError::to_text, (&inner,), own) ==> own@ == text@,
            BoxError::NoHandler(inner) => forall|own: String|
                call_ensures(NoHandlerError::to_text, (&inner,), own) ==> own@ == text@,
            BoxError::Directory(inner) => forall|own: String|
                call_ensures(service_directory::Error::to_text, (&inner,), own) ==> own@ == text@,
            BoxError::UnreachableService(inner) => forall|own: String|
                call_ensures(UnreachableServiceError::to_text, (&inner,), own) ==> own@ == text@,
            BoxError::AuthenticateClient(inner) => forall|own: String|
                call_ensures(AuthenticateClientError::to_text, (&inner,), own) ==> own@ == text@,
            BoxError::AuthenticateToServer(inner) => forall|own: String|
                call_ensures(AuthenticateToServerError::to_text, (&inner,), own) ==> own@ == text@,
        },
{
}

/// An error of a request says that it was canceled, which method there is not, or what the error
/// that it carries says.
pub proof fn text_of_an_error(err: &Error, text: String)
    requires
        call_ensures(Error::to_text, (err,), text),
    ensures
        match *err {
            Error::CallCanceled => text@ == "the call request has been canceled"@,
            Error::MethodNotFound(ActionNameOrId::Id(id)) => text@
                == "there is no object method with identifier "@ + decimal(id.0 as nat),
            Error::MethodNotFound(ActionNameOrId::Name(name)) => text@
                == "there is no object method with identifier "@ + name@,
            Error::Other(inner) => forall|own: String|
                call_ensures(BoxError::to_text, (&inner,), own) ==> own@ == text@,
        },
{
}

/// What the messaging layer reports is taken as a canceled call, the words of the peer, or the
/// error that the connection was lost with.
pub proof fn messaging_errors_are_taken_as(err: messaging::Error, result: Error)
    requires
        call_ensures(<Error as From<messaging::Error>>::from, (err,), result),
    ensures
        match err {
            messaging::Error::CallCanceled => result is CallCanceled,
            messaging::Error::CallError(words) => result matches Error::Other(
                BoxError::Message(message),
            ) && message == words,
            messaging::Error::LinkLost(cause) => result matches Error::Other(inner) && inner == cause,
        },
{
}

/// Words are taken as an error that says them.
pub proof fn words_are_taken_as_an_error(
    words: String,
    of_words: Error,
    text: &str,
    of_text: Error,
)
    requires
        call_ensures(<Error as From<String>>::from, (words,), of_words),
        call_ensures(<Error as From<&str>>::from, (text,), of_text),
    ensures
        of_words matches Error::Other(BoxError::Message(message)) && message@ == words@,
        of_text matches Error::Other(BoxError::Message(message)) && message@ == text@,
{
}

/// Errors of the library are carried as they are.
pub proof fn errors_are_carried_as_they_are(
    any: BoxError,
    of_any: Error,
    value: ValueConversionError,
    of_value: Error,
    format: FormatError,
    of_format: Error,
    handler: NoHandlerError,
    of_handler: Error,
    directory: service_directory::Error,
    of_directory: Error,
    service: UnreachableServiceError,
    of_service: Error,
    client: AuthenticateClientError,
    of_client: Error,
    server: AuthenticateToServerError,
    of_server: Error,
)
    requires
        call_ensures(<Error as From<BoxError>>::from, (any,), of_any),
        call_ensures(<Error as From<ValueConversionError>>::from, (value,), of_value),
        call_ensures(<Error as From<FormatError>>::from, (format,), of_format),
        call_ensures(<Error as From<NoHandlerError>>::from, (handler,), of_handler),
        call_ensures(<Error as From<service_directory::Error>>::from, (directory,), of_directory),
        call_ensures(<Error as From<UnreachableServiceError>>::from, (service,), of_service),
        call_ensures(<Error as From<AuthenticateClientError>>::from, (client,), of_client),
        call_ensures(<Error as From<AuthenticateToServerError>>::from, (server,), of_server),
    ensures
        of_any == Error::Other(any),
        of_value == Error::Other(BoxError::ValueConversion(value)),
        of_format == Error::Other(BoxError::Format(format)),
        of_handler == Error::Other(BoxError::NoHandler(handler)),
        of_directory == Error::Other(BoxError::Directory(directory)),
        of_service == Error::Other(BoxError::UnreachableService(service)),
        of_client == Error::Other(BoxError::AuthenticateClient(client)),
        of_server == Error::Other(BoxError::AuthenticateToServer(server)),
{
}

/// An error that a handler answers with is of words, and fatal or not, as it was made.
pub proof fn errors_of_handlers_are_of_words(
    words: String,
    mild: HandlerError,
    severe: HandlerError,
    canceled: HandlerError,
    failed: HandlerError,
)
    requires
        call_ensures(HandlerError::non_fatal, (words,), mild),
        call_ensures(HandlerError::fatal, (words,), severe),
        call_ensures(HandlerError::from_join_failure, (true, words), canceled),
        call_ensures(HandlerError::from_join_failure, (false, words), failed),
    ensures
        mild matches HandlerError::Custom { message, is_fatal } && message == words && !is_fatal,
        severe matches HandlerError::Custom { message, is_fatal } && message == words && is_fatal,
        canceled is CallCanceled,
        failed matches HandlerError::Custom { message, is_fatal } && message == words && !is_fatal,
{
}

/// A handler whose task did not end by itself answers as canceled where the task says that it was
/// canceled, and otherwise with an error that is not fatal and says what the task says.
pub proof fn failed_tasks_are_not_fatal(err: tokio::task::JoinError, error: HandlerError)
    requires
        call_ensures(<HandlerError as From<tokio::task::JoinError>>::from, (err,), error),
    ensures
        error is CallCanceled ==> call_ensures(
            tokio::task::JoinError::is_cancelled,
            (&err,),
            true,
        ),
        error matches HandlerError::Custom { message, is_fatal } ==> !is_fatal && call_ensures(
            tokio::task::JoinError::is_cancelled,
            (&err,),
            false,
        ) && vstd::string::to_string_from_display_ensures(&err, message),
{
}

/// An error of an input or output operation is carried with what it shows, by which two of them are
/// compared.
pub proof fn io_errors_are_carried_with_what_they_show(
    err: std::io::Error,
    result: Error,
    a: &IoError,
    b: &IoError,
    same: bool,
)
    requires
        call_ensures(<Error as From<std::io::Error>>::from, (err,), result),
        call_ensures(<IoError as PartialEq>::eq, (a, b), same),
    ensures
        result matches Error::Other(BoxError::Io(io)) && io.source == err
            && vstd::string::to_string_from_display_ensures(&err, io.shown),
        same <==> a.shown@ == b.shown@,
{
}

/// An error of a handler tells whether the call was canceled, whether it is fatal, and its words.
pub proof fn errors_of_handlers_tell_what_they_are(
    error: &HandlerError,
    canceled: bool,
    fatal: bool,
    text: String,
)
    requires
        call_ensures(<HandlerError as CallError>::is_canceled, (error,), canceled),
        call_ensures(<HandlerError as CallError>::is_fatal, (error,), fatal),
        call_ensures(<HandlerError as CallError>::to_text, (error,), text),
    ensures
        match error {
            HandlerError::CallCanceled => canceled && !fatal && text@
                == "the call request has been canceled"@,
            HandlerError::Custom { message, is_fatal } => !canceled && fatal == is_fatal && text@
                == message@,
        },
{
}

/// A handler answers an error of a request as canceled where it is, and otherwise with its words,
/// which are fatal.
pub proof fn errors_of_requests_are_fatal(err: Error, words: String, result: HandlerError)
    requires
        call_ensures(<HandlerError as From<Error>>::from, (err,), result),
        call_ensures(Error::to_text, (&err,), words),
    ensures
        err is CallCanceled ==> result is CallCanceled,
        !(err is CallCanceled) ==> (result matches HandlerError::Custom { message, is_fatal }
            && message@ == words@ && is_fatal),
{
}

} // verus!
