//! What an endpoint reports when it does not succeed.

use vstd::prelude::*;

verus! {

/// A failed request: the caller's fault (`BadRequest`, `NotFound`) or a
/// collaborator's (`Internal`), each with a message for the caller.
#[derive(Debug, PartialEq, Eq)]
pub enum ApiError {
    BadRequest(String),
    NotFound(String),
    Internal(String),
}

/// An error with its message as plain text.
pub ghost enum ApiErrorView {
    BadRequest(Seq<char>),
    NotFound(Seq<char>),
    Internal(Seq<char>),
}

impl View for ApiError {
    type V = ApiErrorView;

    open spec fn view(&self) -> ApiErrorView {
        match self {
            ApiError::BadRequest(m) => ApiErrorView::BadRequest(m@),
            ApiError::NotFound(m) => ApiErrorView::NotFound(m@),
            ApiError::Internal(m) => ApiErrorView::Internal(m@),
        }
    }
}

impl ApiErrorView {
    /// The HTTP status that stands for the error.
    pub open spec fn status(self) -> int {
        match self {
            ApiErrorView::BadRequest(_) => 400,
            ApiErrorView::NotFound(_) => 404,
            ApiErrorView::Internal(_) => 500,
        }
    }

    /// The text carried by the error.
    pub open spec fn text(self) -> Seq<char> {
        match self {
            ApiErrorView::BadRequest(m) => m,
            ApiErrorView::NotFound(m) => m,
            ApiErrorView::Internal(m) => m,
        }
    }
}

impl ApiError {
    pub fn status_code(&self) -> (code: u16)
        ensures
            code == self@.status(),
    {
        match self {
            ApiError::BadRequest(_) => 400,
            ApiError::NotFound(_) => 404,
            ApiError::Internal(_) => 500,
        }
    }

    pub fn message(&self) -> (m: &String)
        ensures
            m@ == self@.text(),
    {
        match self {
            ApiError::BadRequest(m) => m,
            ApiError::NotFound(m) => m,
            ApiError::Internal(m) => m,
        }
    }

    /// A validation error with the given message.
    pub fn bad_request(message: &str) -> (e: ApiError)
        ensures
            e@ == ApiErrorView::BadRequest(message@),
    {
        ApiError::BadRequest(message.to_owned())
    }

    /// A not-found error with the given message.
    pub fn not_found(message: &str) -> (e: ApiError)
        ensures
            e@ == ApiErrorView::NotFound(message@),
    {
        ApiError::NotFound(message.to_owned())
    }

    /// A collaborator's failure, described by `context`.
    pub fn internal(context: &str) -> (e: ApiError)
        ensures
            e@ == ApiErrorView::Internal(context@),
    {
        ApiError::Internal(context.to_owned())
    }
}

} // verus!
