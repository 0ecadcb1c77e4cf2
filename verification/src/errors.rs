//! The error every request handler answers with: an HTTP status class and a
//! message for the client.
use vstd::prelude::*;
use vstd::string::*;

verus! {

/// The kind of a refused request, each with its HTTP status.
#[derive(Debug, Clone, Copy, PartialEq, Eq, Structural)]
pub enum ErrorKind {
    /// 400: the request is malformed or breaks a rule.
    BadRequest,
    /// 401: the caller is not authenticated.
    Unauthorized,
    /// 403: the caller may not do this.
    Forbidden,
    /// 404: the thing asked for does not exist or is not visible.
    NotFound,
    /// 500: the server failed.
    Internal,
}

/// The HTTP status of each kind.
pub open spec fn status_of(kind: ErrorKind) -> u16 {
    match kind {
        ErrorKind::BadRequest => 400,
        ErrorKind::Unauthorized => 401,
        ErrorKind::Forbidden => 403,
        ErrorKind::NotFound => 404,
        ErrorKind::Internal => 500,
    }
}

/// A refused request: its kind and the message shown to the client.
#[derive(Debug, Clone)]
pub struct AppError {
    pub kind: ErrorKind,
    pub message: String,
}

/// Whether `e` is an error of kind `kind` with the message `msg`.
pub open spec fn is_error(e: AppError, kind: ErrorKind, msg: Seq<char>) -> bool {
    e.kind == kind && e.message@ == msg
}

/// Whether `r` is an error of kind `kind` with the message `msg`.
pub open spec fn fails_with<T>(r: Result<T, AppError>, kind: ErrorKind, msg: Seq<char>) -> bool {
    r matches Err(e) && is_error(e, kind, msg)
}

impl AppError {
    /// An error of the given kind and message.
    pub fn new(kind: ErrorKind, message: &str) -> (e: AppError)
        ensures
            is_error(e, kind, message@),
    {
        AppError { kind, message: String::from_str(message) }
    }

    /// A 400 error.
    pub fn bad_request(message: &str) -> (e: AppError)
        ensures
            is_error(e, ErrorKind::BadRequest, message@),
    {
        AppError::new(ErrorKind::BadRequest, message)
    }

    /// A 401 error.
    pub fn unauthorized(message: &str) -> (e: AppError)
        ensures
            is_error(e, ErrorKind::Unauthorized, message@),
    {
        AppError::new(ErrorKind::Unauthorized, message)
    }

    /// A 403 error.
    pub fn forbidden(message: &str) -> (e: AppError)
        ensures
            is_error(e, ErrorKind::Forbidden, message@),
    {
        AppError::new(ErrorKind::Forbidden, message)
    }

    /// A 404 error.
    pub fn not_found(message: &str) -> (e: AppError)
        ensures
            is_error(e, ErrorKind::NotFound, message@),
    {
        AppError::new(ErrorKind::NotFound, message)
    }

    /// A 500 error.
    pub fn internal(message: &str) -> (e: AppError)
        ensures
            is_error(e, ErrorKind::Internal, message@),
    {
        AppError::new(ErrorKind::Internal, message)
    }

    /// The HTTP status of this error.
    pub fn status(&self) -> (s: u16)
        ensures
            s == status_of(self.kind),
    {
        match self.kind {
            ErrorKind::BadRequest => 400,
            ErrorKind::Unauthorized => 401,
            ErrorKind::Forbidden => 403,
            ErrorKind::NotFound => 404,
            ErrorKind::Internal => 500,
        }
    }
}

/// The value found by a lookup, or 404 with `what` when there is none.
pub fn require_found<T>(found: Option<T>, what: &str) -> (res: Result<T, AppError>)
    ensures
        found is None ==> fails_with(res, ErrorKind::NotFound, what@),
        found matches Some(v) ==> res matches Ok(r) && r == v,
{
    match found {
        Some(v) => Ok(v),
        None => Err(AppError::not_found(what)),
    }
}

} // verus!
