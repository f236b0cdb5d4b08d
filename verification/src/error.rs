use vstd::prelude::*;
use vstd::string::StringExecFns;

verus! {

/// The kinds of failure a request can end in.
#[derive(Clone, Copy, Debug, PartialEq, Eq, Structural)]
pub enum ErrorKind {
    /// The request body is malformed or lacks a required field.
    Validation,
    /// The caller's credential is missing or does not resolve to a user.
    Unauthorized,
    /// The caller is known but lacks the role or the ownership.
    Forbidden,
    /// The target of the request does not exist.
    NotFound,
    /// A uniqueness or referential rule of the store would be broken.
    Conflict,
    /// The store could not be reached in time.
    Unavailable,
    /// The store failed in another way.
    Internal,
}

impl ErrorKind {
    /// The HTTP status that stands for this kind.
    pub open spec fn status(self) -> u16 {
        match self {
            ErrorKind::Validation => 400,
            ErrorKind::Unauthorized => 401,
            ErrorKind::Forbidden => 403,
            ErrorKind::NotFound => 404,
            ErrorKind::Conflict => 409,
            ErrorKind::Unavailable => 503,
            ErrorKind::Internal => 500,
        }
    }

    /// Computes [`ErrorKind::status`].
    pub fn status_code(self) -> (code: u16)
        ensures
            code == self.status(),
    {
        match self {
            ErrorKind::Validation => 400,
            ErrorKind::Unauthorized => 401,
            ErrorKind::Forbidden => 403,
            ErrorKind::NotFound => 404,
            ErrorKind::Conflict => 409,
            ErrorKind::Unavailable => 503,
            ErrorKind::Internal => 500,
        }
    }
}

/// A failed request: its kind and the message shown to the caller.
#[derive(Debug, PartialEq, Eq)]
pub struct ApiError {
    pub kind: ErrorKind,
    pub message: String,
}

/// The mathematical content of an [`ApiError`].
pub ghost struct Failure {
    pub kind: ErrorKind,
    pub message: Seq<char>,
}

impl View for ApiError {
    type V = Failure;

    open spec fn view(&self) -> Failure {
        Failure { kind: self.kind, message: self.message@ }
    }
}

/// `r` is the outcome that `model` describes: the same value, or an error with
/// the same kind and message.
pub open spec fn agrees<T>(model: Result<T, Failure>, r: Result<T, ApiError>) -> bool {
    match model {
        Ok(value) => r == Ok::<T, ApiError>(value),
        Err(failure) => r is Err && r->Err_0@ == failure,
    }
}

impl ApiError {
    /// An error of the given kind with the given message.
    pub fn new(kind: ErrorKind, message: &str) -> (e: ApiError)
        ensures
            e@ == (Failure { kind, message: message@ }),
    {
        ApiError { kind, message: String::from_str(message) }
    }

    /// An error of the given kind whose message is `head` followed by `tail`.
    pub fn joined(kind: ErrorKind, head: &str, tail: &str) -> (e: ApiError)
        ensures
            e@ == (Failure { kind, message: head@ + tail@ }),
    {
        ApiError { kind, message: String::from_str(head).concat(tail) }
    }

    /// The HTTP status of this error.
    pub fn status_code(&self) -> (code: u16)
        ensures
            code == self@.kind.status(),
    {
        self.kind.status_code()
    }
}

} // verus!
