//! Errors that reach a client, and how they are reported.

use vstd::prelude::*;
use crate::text::{join2, owned};

verus! {

/// HTTP status for a request that the client got wrong.
pub const BAD_REQUEST: u16 = 400;

/// HTTP status for a failure on the service's side.
pub const INTERNAL_SERVER_ERROR: u16 = 500;

/// What an internal error says of itself.
pub const INTERNAL_ERROR_TEXT: &'static str = "An internal error occurred. Please try again later.";

/// What a validation error says of itself, before the field's name.
pub const VALIDATION_ERROR_TEXT: &'static str = "Validation error on field: ";

/// The service's top-level error.
#[derive(Debug, PartialEq, Eq)]
pub enum AppError {
    InternalError,
    ValidationError { field: String },
}

/// What an error holds, as mathematical values.
pub enum AppErrorView {
    InternalError,
    ValidationError { field: Seq<char> },
}

impl View for AppError {
    type V = AppErrorView;

    open spec fn view(&self) -> AppErrorView {
        match self {
            AppError::InternalError => AppErrorView::InternalError,
            AppError::ValidationError { field } => AppErrorView::ValidationError { field: field@ },
        }
    }
}

impl AppErrorView {
    /// The status the error is reported with.
    pub open spec fn status(self) -> u16 {
        match self {
            AppErrorView::ValidationError { field } => BAD_REQUEST,
            AppErrorView::InternalError => INTERNAL_SERVER_ERROR,
        }
    }

    /// The message shown to the client, which names no detail.
    pub open spec fn client_message(self) -> Seq<char> {
        match self {
            AppErrorView::ValidationError { field } => "invalid request"@,
            AppErrorView::InternalError => "oops"@,
        }
    }

    /// The full description, for the log.
    pub open spec fn description(self) -> Seq<char> {
        match self {
            AppErrorView::ValidationError { field } => VALIDATION_ERROR_TEXT@ + field,
            AppErrorView::InternalError => INTERNAL_ERROR_TEXT@,
        }
    }
}

impl AppError {
    /// The status the error is reported with: 400 for a validation error,
    /// 500 for an internal one.
    pub fn status_code(&self) -> (status: u16)
        ensures
            status == self@.status(),
    {
        match self {
            AppError::ValidationError { .. } => BAD_REQUEST,
            AppError::InternalError => INTERNAL_SERVER_ERROR,
        }
    }

    /// The message put into the response body.
    pub fn error_message(&self) -> (message: &'static str)
        ensures
            message@ == self@.client_message(),
    {
        match self {
            AppError::ValidationError { .. } => "invalid request",
            AppError::InternalError => "oops",
        }
    }

    /// The status and the message of the response for this error.
    pub fn into_response(self) -> (r: (u16, &'static str))
        ensures
            r.0 == self@.status(),
            r.1@ == self@.client_message(),
    {
        (self.status_code(), self.error_message())
    }

    /// The full description of the error.
    pub fn description(&self) -> (text: String)
        ensures
            text@ == self@.description(),
    {
        match self {
            AppError::ValidationError { field } => join2(VALIDATION_ERROR_TEXT, field.as_str()),
            AppError::InternalError => owned(INTERNAL_ERROR_TEXT),
        }
    }
}

/// An error reported to the client in full.
#[derive(Debug, PartialEq, Eq)]
pub enum UserError {
    InternalError,
    ValidationError { field: String },
}

impl View for UserError {
    type V = AppErrorView;

    open spec fn view(&self) -> AppErrorView {
        match self {
            UserError::InternalError => AppErrorView::InternalError,
            UserError::ValidationError { field } => AppErrorView::ValidationError { field: field@ },
        }
    }
}

impl UserError {
    /// The status the error is reported with: 400 for a validation error,
    /// 500 for an internal one.
    pub fn status_code(&self) -> (status: u16)
        ensures
            status == self@.status(),
    {
        match self {
            UserError::ValidationError { .. } => BAD_REQUEST,
            UserError::InternalError => INTERNAL_SERVER_ERROR,
        }
    }

    /// The status and the body of the response for this error: the body is
    /// the error's full description.
    pub fn error_response(&self) -> (r: (u16, String))
        ensures
            r.0 == self@.status(),
            r.1@ == self@.description(),
    {
        let body = match self {
            UserError::ValidationError { field } => join2(VALIDATION_ERROR_TEXT, field.as_str()),
            UserError::InternalError => owned(INTERNAL_ERROR_TEXT),
        };
        (self.status_code(), body)
    }
}

} // verus!
