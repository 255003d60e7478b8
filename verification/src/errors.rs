//! The error a request can end with, and how it is reported to a client.

use vstd::prelude::*;
use vstd::string::*;

verus! {

/// Why a request failed, with the message shown to the client.
#[derive(Debug, Clone, Hash, Eq, PartialEq)]
pub enum ApiError {
    /// The submission itself is unacceptable.
    BadRequest(String),
    /// The service could not carry the request out.
    InternalServerError(String),
    /// The requested resource does not exist.
    NotFound(String),
}

/// An [`ApiError`] with its message as a sequence of characters.
pub enum ApiErrorView {
    BadRequest(Seq<char>),
    InternalServerError(Seq<char>),
    NotFound(Seq<char>),
}

impl View for ApiError {
    type V = ApiErrorView;

    open spec fn view(&self) -> ApiErrorView {
        match self {
            ApiError::BadRequest(m) => ApiErrorView::BadRequest(m@),
            ApiError::InternalServerError(m) => ApiErrorView::InternalServerError(m@),
            ApiError::NotFound(m) => ApiErrorView::NotFound(m@),
        }
    }
}

impl ApiErrorView {
    /// The HTTP status that stands for this error.
    pub open spec fn status_code(self) -> u16 {
        match self {
            ApiErrorView::BadRequest(_) => 400,
            ApiErrorView::InternalServerError(_) => 500,
            ApiErrorView::NotFound(_) => 404,
        }
    }

    /// The message carried by this error.
    pub open spec fn message(self) -> Seq<char> {
        match self {
            ApiErrorView::BadRequest(m) => m,
            ApiErrorView::InternalServerError(m) => m,
            ApiErrorView::NotFound(m) => m,
        }
    }

    /// The text in front of the message when the error is written out.
    pub open spec fn prefix(self) -> Seq<char> {
        match self {
            ApiErrorView::BadRequest(_) => "Invalid input: "@,
            ApiErrorView::InternalServerError(_) => "Internal server error: "@,
            ApiErrorView::NotFound(_) => "Resource not found: "@,
        }
    }
}

impl ApiError {
    /// The HTTP status to answer with.
    pub fn status_code(&self) -> (code: u16)
        ensures
            code == self@.status_code(),
    {
        match self {
            ApiError::BadRequest(_) => 400,
            ApiError::InternalServerError(_) => 500,
            ApiError::NotFound(_) => 404,
        }
    }

    /// The message to put into the body of the answer.
    pub fn message(&self) -> (text: &str)
        ensures
            text@ == self@.message(),
    {
        match self {
            ApiError::BadRequest(m) => m.as_str(),
            ApiError::InternalServerError(m) => m.as_str(),
            ApiError::NotFound(m) => m.as_str(),
        }
    }

    /// The error written out in full: its prefix, then its message.
    pub fn describe(&self) -> (text: String)
        ensures
            text@ == self@.prefix() + self@.message(),
    {
        let prefix = match self {
            ApiError::BadRequest(_) => "Invalid input: ",
            ApiError::InternalServerError(_) => "Internal server error: ",
            ApiError::NotFound(_) => "Resource not found: ",
        };
        String::from_str(prefix).concat(self.message())
    }
}

} // verus!
