//! What can go wrong for a caller, and how it is reported.

use vstd::prelude::*;
use vstd::string::*;

verus! {

/// A failure of a request.
#[derive(Debug, PartialEq, Eq)]
pub enum AppError {
    /// A field of the request is missing or unusable; the text names it.
    InvalidQueryParameter(String),
    /// The task that the request names does not exist.
    NotFound,
    /// The storage behind the service failed; the text says how.
    Internal(String),
}

/// The mathematical value of an [`AppError`].
pub ghost enum AppErrorView {
    InvalidQueryParameter(Seq<char>),
    NotFound,
    Internal(Seq<char>),
}

impl View for AppError {
    type V = AppErrorView;

    open spec fn view(&self) -> AppErrorView {
        match self {
            AppError::InvalidQueryParameter(field) => AppErrorView::InvalidQueryParameter(field@),
            AppError::NotFound => AppErrorView::NotFound,
            AppError::Internal(cause) => AppErrorView::Internal(cause@),
        }
    }
}

impl AppErrorView {
    /// The HTTP status under which the failure is reported.
    pub open spec fn status_code(self) -> u16 {
        match self {
            AppErrorView::InvalidQueryParameter(_) => 400,
            AppErrorView::NotFound => 404,
            AppErrorView::Internal(_) => 500,
        }
    }

    /// The text sent to the client.
    pub open spec fn body(self) -> Seq<char> {
        match self {
            AppErrorView::InvalidQueryParameter(field) => field,
            AppErrorView::NotFound => "Not Found"@,
            AppErrorView::Internal(cause) => cause,
        }
    }

    /// The text written to the service's own log.
    pub open spec fn message(self) -> Seq<char> {
        match self {
            AppErrorView::InvalidQueryParameter(field) => "invalid query parameter: "@ + field,
            AppErrorView::NotFound => "not found"@,
            AppErrorView::Internal(cause) => cause,
        }
    }
}

impl AppError {
    /// A validation failure on the field `field`.
    pub fn invalid(field: &str) -> (e: AppError)
        ensures
            e@ == AppErrorView::InvalidQueryParameter(field@),
    {
        AppError::InvalidQueryParameter(String::from_str(field))
    }

    /// A storage failure described by `cause`.
    pub fn internal(cause: &str) -> (e: AppError)
        ensures
            e@ == AppErrorView::Internal(cause@),
    {
        AppError::Internal(String::from_str(cause))
    }

    /// The HTTP status under which the failure is reported: a client error
    /// for a bad request or a missing task, a server error otherwise.
    pub fn status_code(&self) -> (code: u16)
        ensures
            code == self@.status_code(),
    {
        match self {
            AppError::InvalidQueryParameter(_) => 400,
            AppError::NotFound => 404,
            AppError::Internal(_) => 500,
        }
    }

    /// Whether the failure is the client's.
    pub fn is_client_error(&self) -> (b: bool)
        ensures
            b == (400 <= self@.status_code() < 500),
    {
        match self {
            AppError::Internal(_) => false,
            _ => true,
        }
    }

    /// The text sent to the client.
    pub fn body(&self) -> (text: String)
        ensures
            text@ == self@.body(),
    {
        match self {
            AppError::InvalidQueryParameter(field) => field.clone(),
            AppError::NotFound => String::from_str("Not Found"),
            AppError::Internal(cause) => cause.clone(),
        }
    }

    /// The text written to the service's own log.
    pub fn message(&self) -> (text: String)
        ensures
            text@ == self@.message(),
    {
        match self {
            AppError::InvalidQueryParameter(field) => {
                String::from_str("invalid query parameter: ").concat(field.as_str())
            },
            AppError::NotFound => String::from_str("not found"),
            AppError::Internal(cause) => cause.clone(),
        }
    }
}

} // verus!
