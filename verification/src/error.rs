//! The closed set of ways in which a request can fail.
use crate::types::ErrorInfo;
use vstd::prelude::*;

verus! {

/// Why a request did not yield a value. Every failed request produces exactly
/// one of these, and none of them is ever raised as a panic.
#[derive(Clone, Debug, Eq, PartialEq)]
pub enum Error {
    /// No response arrived, or the status has no meaning assigned to it.
    RequestError,
    /// Status 400.
    BadRequest,
    /// Status 401, with the server's message.
    Unauthorized(String),
    /// Status 403, with the server's message.
    Forbidden(String),
    /// Status 404.
    NotFound,
    /// Status 409, with the server's message.
    Conflict(String),
    /// Status 500, with the server's message, or with an empty one when the
    /// server sent none that could be read.
    InternalServerError(String),
    /// Status 422, with the messages for each rejected field.
    UnprocessableEntity(ErrorInfo),
    /// The payload did not have the shape that its status calls for.
    DeserializeError,
}

/// An [`Error`] with its texts as sequences of characters.
pub enum ErrorView {
    RequestError,
    BadRequest,
    Unauthorized(Seq<char>),
    Forbidden(Seq<char>),
    NotFound,
    Conflict(Seq<char>),
    InternalServerError(Seq<char>),
    UnprocessableEntity(Map<Seq<char>, Seq<Seq<char>>>),
    DeserializeError,
}

impl View for Error {
    type V = ErrorView;

    open spec fn view(&self) -> ErrorView {
        match self {
            Error::RequestError => ErrorView::RequestError,
            Error::BadRequest => ErrorView::BadRequest,
            Error::Unauthorized(message) => ErrorView::Unauthorized(message@),
            Error::Forbidden(message) => ErrorView::Forbidden(message@),
            Error::NotFound => ErrorView::NotFound,
            Error::Conflict(message) => ErrorView::Conflict(message@),
            Error::InternalServerError(message) => ErrorView::InternalServerError(message@),
            Error::UnprocessableEntity(info) => ErrorView::UnprocessableEntity(info@),
            Error::DeserializeError => ErrorView::DeserializeError,
        }
    }
}

} // verus!
