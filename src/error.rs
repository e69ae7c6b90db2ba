//! The three categories of failure that clients can see.

use vstd::prelude::*;
use vstd::string::*;

verus! {

/// Category of an [`ErrorResponse`], as seen in contracts.
#[derive(Clone, Copy, Debug, PartialEq, Eq, Structural)]
pub enum ErrorKind {
    BadRequest,
    NotFound,
    InternalServerError,
}

/// Possible error outcomes of an operation.
#[derive(Debug)]
pub enum ErrorResponse {
    /// The client sent something wrong (status 400).
    BadRequest(String),
    /// The path or entity does not exist (status 404).
    NotFound(String),
    /// Something went wrong on the server (status 500).
    InternalServerError(String),
}

/// Result whose error is an [`ErrorResponse`].
pub type HandlerResult<T> = Result<T, ErrorResponse>;

impl View for ErrorResponse {
    type V = (ErrorKind, Seq<char>);

    open spec fn view(&self) -> (ErrorKind, Seq<char>) {
        match self {
            ErrorResponse::BadRequest(s) => (ErrorKind::BadRequest, s@),
            ErrorResponse::NotFound(s) => (ErrorKind::NotFound, s@),
            ErrorResponse::InternalServerError(s) => (ErrorKind::InternalServerError, s@),
        }
    }
}

/// The status code that belongs to each kind of error.
pub open spec fn status_of(kind: ErrorKind) -> u16 {
    match kind {
        ErrorKind::BadRequest => 400,
        ErrorKind::NotFound => 404,
        ErrorKind::InternalServerError => 500,
    }
}

/// The words that open the message of each kind of error.
pub open spec fn title_of(kind: ErrorKind) -> Seq<char> {
    match kind {
        ErrorKind::BadRequest => "Bad Request: "@,
        ErrorKind::NotFound => "Not Found: "@,
        ErrorKind::InternalServerError => "Internal Server Error: "@,
    }
}

/// The part of an error's detail that a client may see: all of it for bad
/// requests and missing entities, a generic text for internal server errors.
pub open spec fn client_detail(e: ErrorResponse) -> Seq<char> {
    match e {
        ErrorResponse::InternalServerError(_) => generic_detail(),
        _ => e@.1,
    }
}

/// The text shown to clients in place of the cause of an internal server error.
pub open spec fn generic_detail() -> Seq<char> {
    "Something went wrong."@
}

impl ErrorResponse {
    /// A bad request whose detail is the given text.
    pub fn bad_request(detail: &str) -> (r: ErrorResponse)
        ensures
            r@ == (ErrorKind::BadRequest, detail@),
    {
        ErrorResponse::BadRequest(String::from_str(detail))
    }

    /// The category of this error.
    pub fn kind(&self) -> (r: ErrorKind)
        ensures
            r == self@.0,
    {
        match self {
            ErrorResponse::BadRequest(_) => ErrorKind::BadRequest,
            ErrorResponse::NotFound(_) => ErrorKind::NotFound,
            ErrorResponse::InternalServerError(_) => ErrorKind::InternalServerError,
        }
    }

    /// The detail carried by this error.
    pub fn detail(&self) -> (r: &String)
        ensures
            r@ == self@.1,
    {
        match self {
            ErrorResponse::BadRequest(s) => s,
            ErrorResponse::NotFound(s) => s,
            ErrorResponse::InternalServerError(s) => s,
        }
    }

    /// HTTP status code with which this error is answered.
    pub fn status_code(&self) -> (r: u16)
        ensures
            r == status_of(self@.0),
    {
        match self {
            ErrorResponse::BadRequest(_) => 400,
            ErrorResponse::NotFound(_) => 404,
            ErrorResponse::InternalServerError(_) => 500,
        }
    }

    /// The message shown to the client: the category's title followed by the
    /// detail, except for internal server errors, whose detail stays on the
    /// server (see [`ErrorResponse::detail`]) and whose message is generic.
    pub fn message(&self) -> (r: String)
        ensures
            r@ == title_of(self@.0) + client_detail(*self),
    {
        match self {
            ErrorResponse::BadRequest(s) => {
                let mut r = String::from_str("Bad Request: ");
                r.append(s.as_str());
                r
            },
            ErrorResponse::NotFound(s) => {
                let mut r = String::from_str("Not Found: ");
                r.append(s.as_str());
                r
            },
            ErrorResponse::InternalServerError(_) => {
                let mut r = String::from_str("Internal Server Error: ");
                r.append("Something went wrong.");
                r
            },
        }
    }

    /// A copy of this error with the same category and detail.
    pub fn duplicate(&self) -> (r: ErrorResponse)
        ensures
            r@ == self@,
    {
        match self {
            ErrorResponse::BadRequest(s) => ErrorResponse::BadRequest(s.clone()),
            ErrorResponse::NotFound(s) => ErrorResponse::NotFound(s.clone()),
            ErrorResponse::InternalServerError(s) => ErrorResponse::InternalServerError(s.clone()),
        }
    }
}

/// Answer for a path that matches no operation: not found, naming the path.
pub fn not_found(uri: String) -> (r: ErrorResponse)
    ensures
        r@ == (ErrorKind::NotFound, uri@),
{
    ErrorResponse::NotFound(uri)
}

/// Answer for an unexpected fault: a generic message that leaks no internals.
pub fn internal_server_error() -> (r: ErrorResponse)
    ensures
        r@ == (ErrorKind::InternalServerError, generic_detail()),
{
    ErrorResponse::InternalServerError(String::from_str("Something went wrong."))
}

} // verus!
