//! From a status code and a decoded payload to the result of a request.
//!
//! The status alone decides in which shape the payload is to be read, see
//! [`expected_payload`]. The caller reads it in that shape and hands over what
//! came of it; [`classify`] then settles the result.
use crate::error::{Error, ErrorView};
use crate::types::auth::ApiResult;
use crate::types::ErrorInfo;
use vstd::prelude::*;

verus! {

/// The shape in which the payload of a response is to be read.
#[derive(Clone, Copy, Debug, PartialEq, Eq, Structural)]
pub enum Payload {
    /// The status says it all: the payload is not looked at.
    Unread,
    /// The value that the caller asked for.
    Value,
    /// A message envelope.
    Message,
    /// Validation failures by field.
    FieldErrors,
}

/// What reading the payload gave.
#[derive(Clone, Debug, PartialEq, Eq)]
pub enum Decoded<T> {
    /// The payload was not read, or it did not have the shape asked for.
    Nothing,
    /// The value that the caller asked for.
    Value(T),
    /// A message envelope.
    Message(ApiResult),
    /// Validation failures by field.
    FieldErrors(ErrorInfo),
}

/// What the transport reported.
#[derive(Clone, Debug, PartialEq, Eq)]
pub enum Reply<T> {
    /// The request failed before any response arrived.
    NoResponse,
    /// A response arrived, with this status and this payload.
    Response(u16, Decoded<T>),
}

/// The statuses that stand for success: 200 up to and including 299.
pub open spec fn is_success(status: u16) -> bool {
    200 <= status < 300
}

/// The statuses whose payload is a message envelope.
pub open spec fn carries_message(status: u16) -> bool {
    status == 401 || status == 403 || status == 409 || status == 500
}

/// The shape in which the payload that comes with `status` is read.
pub open spec fn expected(status: u16) -> Payload {
    if is_success(status) {
        Payload::Value
    } else if carries_message(status) {
        Payload::Message
    } else if status == 422 {
        Payload::FieldErrors
    } else {
        Payload::Unread
    }
}

/// The result of a request that was answered with `status` and `decoded`.
/// The rules are tried from the top; the first that applies decides.
pub open spec fn outcome<T>(status: u16, decoded: Decoded<T>) -> Result<T, ErrorView> {
    if is_success(status) {
        match decoded {
            Decoded::Value(value) => Ok(value),
            _ => Err(ErrorView::DeserializeError),
        }
    } else if status == 400 {
        Err(ErrorView::BadRequest)
    } else if status == 401 {
        match decoded {
            Decoded::Message(envelope) => Err(ErrorView::Unauthorized(envelope@)),
            _ => Err(ErrorView::DeserializeError),
        }
    } else if status == 403 {
        match decoded {
            Decoded::Message(envelope) => Err(ErrorView::Forbidden(envelope@)),
            _ => Err(ErrorView::DeserializeError),
        }
    } else if status == 404 {
        Err(ErrorView::NotFound)
    } else if status == 409 {
        match decoded {
            Decoded::Message(envelope) => Err(ErrorView::Conflict(envelope@)),
            _ => Err(ErrorView::DeserializeError),
        }
    } else if status == 500 {
        match decoded {
            Decoded::Message(envelope) => Err(ErrorView::InternalServerError(envelope@)),
            _ => Err(ErrorView::InternalServerError(Seq::empty())),
        }
    } else if status == 422 {
        match decoded {
            Decoded::FieldErrors(info) => Err(ErrorView::UnprocessableEntity(info@)),
            _ => Err(ErrorView::DeserializeError),
        }
    } else {
        Err(ErrorView::RequestError)
    }
}

/// The result of a request, given what the transport reported.
pub open spec fn resolution<T>(reply: Reply<T>) -> Result<T, ErrorView> {
    match reply {
        Reply::NoResponse => Err(ErrorView::RequestError),
        Reply::Response(status, decoded) => outcome(status, decoded),
    }
}

/// A result with its error as text. The value of a success is left as it is.
pub open spec fn modelled<T>(result: Result<T, Error>) -> Result<T, ErrorView> {
    match result {
        Ok(value) => Ok(value),
        Err(error) => Err(error@),
    }
}

/// Tells in which shape the payload of a response with `status` is to be read.
pub fn expected_payload(status: u16) -> (payload: Payload)
    ensures
        payload == expected(status),
{
    if 200 <= status && status < 300 {
        Payload::Value
    } else if status == 401 || status == 403 || status == 409 || status == 500 {
        Payload::Message
    } else if status == 422 {
        Payload::FieldErrors
    } else {
        Payload::Unread
    }
}

/// The message of an envelope, if an envelope is what was decoded.
fn message_of<T>(decoded: Decoded<T>) -> (message: Option<String>)
    ensures
        match decoded {
            Decoded::Message(envelope) => message == Some(envelope.result),
            _ => message is None,
        },
{
    match decoded {
        Decoded::Message(envelope) => Some(envelope.result),
        _ => None,
    }
}

/// Settles the result of a request that was answered with `status`, where
/// reading the payload gave `decoded`.
///
/// A success status yields the decoded value. Every other status yields the
/// one error that belongs to it. Where the payload was wanted and is missing,
/// the error is `DeserializeError`, except for status 500, which then carries
/// an empty message.
pub fn classify<T>(status: u16, decoded: Decoded<T>) -> (result: Result<T, Error>)
    ensures
        modelled(result) == outcome(status, decoded),
{
    if 200 <= status && status < 300 {
        match decoded {
            Decoded::Value(value) => Ok(value),
            _ => Err(Error::DeserializeError),
        }
    } else if status == 400 {
        Err(Error::BadRequest)
    } else if status == 401 {
        match message_of(decoded) {
            Some(message) => Err(Error::Unauthorized(message)),
            None => Err(Error::DeserializeError),
        }
    } else if status == 403 {
        match message_of(decoded) {
            Some(message) => Err(Error::Forbidden(message)),
            None => Err(Error::DeserializeError),
        }
    } else if status == 404 {
        Err(Error::NotFound)
    } else if status == 409 {
        match message_of(decoded) {
            Some(message) => Err(Error::Conflict(message)),
            None => Err(Error::DeserializeError),
        }
    } else if status == 500 {
        match message_of(decoded) {
            Some(message) => Err(Error::InternalServerError(message)),
            None => Err(Error::InternalServerError(String::new())),
        }
    } else if status == 422 {
        match decoded {
            Decoded::FieldErrors(info) => Err(Error::UnprocessableEntity(info)),
            _ => Err(Error::DeserializeError),
        }
    } else {
        Err(Error::RequestError)
    }
}

/// Settles the result of a request from what the transport reported. Without
/// a response the request has failed and nothing is classified.
pub fn resolve<T>(reply: Reply<T>) -> (result: Result<T, Error>)
    ensures
        modelled(result) == resolution(reply),
{
    match reply {
        Reply::NoResponse => Err(Error::RequestError),
        Reply::Response(status, decoded) => classify(status, decoded),
    }
}

/// A success status yields the decoded value as it is, and a payload that
/// could not be read as that value yields `DeserializeError`.
pub proof fn lemma_success_status<T>(status: u16, decoded: Decoded<T>)
    requires
        is_success(status),
    ensures
        decoded matches Decoded::Value(value) ==> outcome(status, decoded) == Ok::<T, ErrorView>(
            value,
        ),
        !(decoded is Value) ==> outcome(status, decoded) == Err::<T, ErrorView>(
            ErrorView::DeserializeError,
        ),
        expected(status) == Payload::Value,
{
}

/// Statuses 400 and 404 are settled by the status alone: the result is the
/// error of that status whatever the payload holds, be it empty, unreadable
/// or well formed.
pub proof fn lemma_fixed_statuses_ignore_payload<T>(status: u16, decoded: Decoded<T>)
    requires
        status == 400 || status == 404,
    ensures
        status == 400 ==> outcome(status, decoded) == Err::<T, ErrorView>(ErrorView::BadRequest),
        status == 404 ==> outcome(status, decoded) == Err::<T, ErrorView>(ErrorView::NotFound),
        expected(status) == Payload::Unread,
{
}

/// Statuses 401, 403 and 409 yield their own error with the message of the
/// envelope, character for character. Without an envelope the result is
/// `DeserializeError`.
pub proof fn lemma_message_statuses<T>(status: u16, decoded: Decoded<T>)
    requires
        status == 401 || status == 403 || status == 409,
    ensures
        decoded matches Decoded::Message(envelope) ==> outcome(status, decoded) == Err::<
            T,
            ErrorView,
        >(
            if status == 401 {
                ErrorView::Unauthorized(envelope.result@)
            } else if status == 403 {
                ErrorView::Forbidden(envelope.result@)
            } else {
                ErrorView::Conflict(envelope.result@)
            },
        ),
        !(decoded is Message) ==> outcome(status, decoded) == Err::<T, ErrorView>(
            ErrorView::DeserializeError,
        ),
        expected(status) == Payload::Message,
{
}

/// Status 500 always yields `InternalServerError`: with the message of the
/// envelope where there is one, with the empty message where there is none.
/// It never yields `DeserializeError`.
pub proof fn lemma_internal_server_error<T>(decoded: Decoded<T>)
    ensures
        decoded matches Decoded::Message(envelope) ==> outcome(500, decoded) == Err::<T, ErrorView>(
            ErrorView::InternalServerError(envelope.result@),
        ),
        !(decoded is Message) ==> outcome(500, decoded) == Err::<T, ErrorView>(
            ErrorView::InternalServerError(Seq::empty()),
        ),
        outcome(500, decoded) != Err::<T, ErrorView>(ErrorView::DeserializeError),
        expected(500) == Payload::Message,
{
}

/// Status 422 yields `UnprocessableEntity` with the decoded mapping from
/// field to messages, nothing added and nothing lost. Without such a mapping
/// the result is `DeserializeError`.
pub proof fn lemma_unprocessable_entity<T>(decoded: Decoded<T>)
    ensures
        decoded matches Decoded::FieldErrors(info) ==> outcome(422, decoded) == Err::<T, ErrorView>(
            ErrorView::UnprocessableEntity(info@),
        ),
        !(decoded is FieldErrors) ==> outcome(422, decoded) == Err::<T, ErrorView>(
            ErrorView::DeserializeError,
        ),
        expected(422) == Payload::FieldErrors,
{
}

/// Every status that is neither a success nor one of 400, 401, 403, 404, 409,
/// 422 and 500 yields `RequestError`, whatever the payload holds.
pub proof fn lemma_unmapped_status<T>(status: u16, decoded: Decoded<T>)
    requires
        !is_success(status),
        status != 400 && status != 401 && status != 403 && status != 404,
        status != 409 && status != 422 && status != 500,
    ensures
        outcome(status, decoded) == Err::<T, ErrorView>(ErrorView::RequestError),
        expected(status) == Payload::Unread,
{
}

/// The payload matters only in the shape that its status calls for: two
/// payloads that agree in that shape give the same result.
pub proof fn lemma_only_expected_shape_counts<T>(status: u16, first: Decoded<T>, second: Decoded<T>)
    requires
        expected(status) == Payload::Value ==> (first is Value || second is Value) ==> first
            == second,
        expected(status) == Payload::Message ==> (first is Message || second is Message) ==> first
            == second,
        expected(status) == Payload::FieldErrors ==> (first is FieldErrors || second is FieldErrors)
            ==> first == second,
    ensures
        outcome(status, first) == outcome(status, second),
{
}

/// A request fails in exactly one way: no success is reported without a
/// success status, and a request without a response is a `RequestError`.
pub proof fn lemma_failure_is_reported<T>(reply: Reply<T>)
    ensures
        reply is NoResponse ==> resolution(reply) == Err::<T, ErrorView>(ErrorView::RequestError),
        resolution(reply) is Ok ==> (reply matches Reply::Response(status, decoded) && is_success(
            status,
        ) && decoded is Value),
{
}

} // verus!
