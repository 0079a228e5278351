//! Error values shared by every part of the catalog, with the status and
//! body that the HTTP layer sends for each of them.
use vstd::prelude::*;

verus! {

/// The discriminant of an [`AppError`].
#[derive(Debug, Clone, Copy, PartialEq, Eq, Structural)]
pub enum AppErrorType {
    /// Any failure of the relational store.
    DbError,
    /// The input does not name an item that exists, or a URL that does not
    /// refer to a hosted repository.
    NotFoundError,
    /// The request cannot be attributed or is not authorized.
    AuthorizationError,
    /// The item to create exists already.
    AlreadyExistsError,
    /// The version-control host or the transient clone failed.
    GitError,
}

/// An error with one discriminant and an optional message and cause.
#[derive(Debug, Clone)]
pub struct AppError {
    pub message: Option<String>,
    pub cause: Option<String>,
    pub error_type: AppErrorType,
}

/// The body of an error response: `{ "detail": ... }`.
#[derive(Debug, Clone)]
pub struct AppErrorResponse {
    pub detail: String,
}

/// The text that the caller sees for an error.
pub open spec fn message_of(e: AppError) -> Seq<char> {
    match e.message {
        Some(m) => m@,
        None => if e.error_type == AppErrorType::NotFoundError {
            "The requested item was not found"@
        } else {
            "An unexpected error has occurred"@
        },
    }
}

/// The HTTP status that belongs to each discriminant.
pub open spec fn status_of(t: AppErrorType) -> u16 {
    match t {
        AppErrorType::DbError => 500,
        AppErrorType::NotFoundError => 404,
        AppErrorType::AuthorizationError => 401,
        AppErrorType::AlreadyExistsError => 401,
        AppErrorType::GitError => 400,
    }
}

impl AppError {
    /// An error of the given kind with a message and a cause.
    pub fn new(error_type: AppErrorType, message: &str, cause: String) -> (r: AppError)
        ensures
            r.error_type == error_type,
            r.message matches Some(m) && m@ == message@,
            r.cause == Some(cause),
    {
        AppError { message: Some(String::from_str(message)), cause: Some(cause), error_type }
    }

    /// A store failure, carrying the store's own description as the cause.
    pub fn db(cause: String) -> (r: AppError)
        ensures
            r.error_type == AppErrorType::DbError,
            r.message is None,
            r.cause == Some(cause),
    {
        AppError { message: None, cause: Some(cause), error_type: AppErrorType::DbError }
    }

    /// The message shown to the caller: the error's own message, or a default
    /// that depends on its kind.
    pub fn message(&self) -> (r: String)
        ensures
            r@ == message_of(*self),
    {
        match &self.message {
            Some(m) => m.clone(),
            None => match self.error_type {
                AppErrorType::NotFoundError => String::from_str("The requested item was not found"),
                _ => String::from_str("An unexpected error has occurred"),
            },
        }
    }

    /// The HTTP status code of the error.
    pub fn status_code(&self) -> (r: u16)
        ensures
            r == status_of(self.error_type),
    {
        match self.error_type {
            AppErrorType::DbError => 500,
            AppErrorType::NotFoundError => 404,
            AppErrorType::AuthorizationError => 401,
            AppErrorType::AlreadyExistsError => 401,
            AppErrorType::GitError => 400,
        }
    }

    /// The body of the error response.
    pub fn error_response(&self) -> (r: AppErrorResponse)
        ensures
            r.detail@ == message_of(*self),
    {
        AppErrorResponse { detail: self.message() }
    }
}

} // verus!
