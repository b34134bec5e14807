//! Failures on their way to the client: what a stage reports, what a failed
//! request is known by, and which HTTP status each is answered with.

use vstd::prelude::*;

verus! {

pub const NOT_FOUND: u16 = 404;

pub const BAD_REQUEST: u16 = 400;

pub const METHOD_NOT_ALLOWED: u16 = 405;

pub const INTERNAL_SERVER_ERROR: u16 = 500;

/// What a stage of the pipeline reports when it fails.
#[derive(Clone, Debug, PartialEq)]
pub struct ErrorMessage {
    /// The HTTP status, where one is set.
    pub code: Option<u16>,
    /// A text that may be shown to the client.
    pub message: String,
    /// The number of the stage that failed.
    pub internal_code: Option<u16>,
}

pub struct ErrorMessageView {
    pub code: Option<u16>,
    pub message: Seq<char>,
    pub internal_code: Option<u16>,
}

impl View for ErrorMessage {
    type V = ErrorMessageView;

    open spec fn view(&self) -> ErrorMessageView {
        ErrorMessageView {
            code: self.code,
            message: self.message@,
            internal_code: self.internal_code,
        }
    }
}

/// What is known of a request that was turned down: whether no route took
/// it, what a stage of the pipeline reported, and whether a route took the
/// path but not the method. Several of these may hold of one request.
#[derive(Clone, Debug, PartialEq)]
pub struct Rejection {
    pub not_found: bool,
    pub error: Option<ErrorMessage>,
    pub method_not_allowed: bool,
}

pub struct RejectionView {
    pub not_found: bool,
    pub error: Option<ErrorMessageView>,
    pub method_not_allowed: bool,
}

impl View for Rejection {
    type V = RejectionView;

    open spec fn view(&self) -> RejectionView {
        RejectionView {
            not_found: self.not_found,
            error: match self.error {
                Some(e) => Some(e@),
                None => None,
            },
            method_not_allowed: self.method_not_allowed,
        }
    }
}

/// A failure with its HTTP status.
#[derive(Clone, Copy, Debug, PartialEq)]
pub enum HttpError<'a> {
    NotFound(u16),
    BadRequest(u16, &'a ErrorMessage),
    MethodNotAllowed(u16),
    InternalServerError(u16),
}

pub enum HttpErrorView {
    NotFound(u16),
    BadRequest(u16, ErrorMessageView),
    MethodNotAllowed(u16),
    InternalServerError(u16),
}

impl<'a> View for HttpError<'a> {
    type V = HttpErrorView;

    open spec fn view(&self) -> HttpErrorView {
        match self {
            HttpError::NotFound(status) => HttpErrorView::NotFound(*status),
            HttpError::BadRequest(status, e) => HttpErrorView::BadRequest(*status, e@),
            HttpError::MethodNotAllowed(status) => HttpErrorView::MethodNotAllowed(*status),
            HttpError::InternalServerError(status) => HttpErrorView::InternalServerError(*status),
        }
    }
}

impl HttpErrorView {
    pub open spec fn status(self) -> u16 {
        match self {
            HttpErrorView::NotFound(status) => status,
            HttpErrorView::BadRequest(status, _) => status,
            HttpErrorView::MethodNotAllowed(status) => status,
            HttpErrorView::InternalServerError(status) => status,
        }
    }
}

/// The classes in their order: a request that no route took, then what the
/// pipeline reported, then a method that the route does not take, then all
/// the rest.
pub open spec fn spec_resolve_rejection(err: RejectionView) -> HttpErrorView {
    if err.not_found {
        HttpErrorView::NotFound(NOT_FOUND)
    } else if err.error is Some {
        HttpErrorView::BadRequest(BAD_REQUEST, err.error->0)
    } else if err.method_not_allowed {
        HttpErrorView::MethodNotAllowed(METHOD_NOT_ALLOWED)
    } else {
        HttpErrorView::InternalServerError(INTERNAL_SERVER_ERROR)
    }
}

impl<'a> HttpError<'a> {
    /// Sorts a rejection into its class.
    pub fn resolve_rejection(err: &'a Rejection) -> (r: HttpError<'a>)
        ensures
            r@ == spec_resolve_rejection(err@),
    {
        if err.not_found {
            return HttpError::NotFound(NOT_FOUND);
        }
        if let Some(error) = &err.error {
            return HttpError::BadRequest(BAD_REQUEST, error);
        }
        if err.method_not_allowed {
            return HttpError::MethodNotAllowed(METHOD_NOT_ALLOWED);
        }
        HttpError::InternalServerError(INTERNAL_SERVER_ERROR)
    }
}

/// The rejection that stands for the failure of one stage: it carries the
/// number of the stage and the error in its own words, whatever they are.
pub open spec fn spec_format_error(code: u16, error: Seq<char>) -> RejectionView {
    RejectionView {
        not_found: false,
        error: Some(ErrorMessageView { code: None, message: error, internal_code: Some(code) }),
        method_not_allowed: false,
    }
}

/// Turns the failure of a stage into a rejection that carries the number of
/// the stage and the error's text.
pub fn format_error(code: u16, error: &str) -> (r: Rejection)
    ensures
        r@ == spec_format_error(code, error@),
{
    Rejection {
        not_found: false,
        error: Some(
            ErrorMessage { code: None, message: error.to_owned(), internal_code: Some(code) },
        ),
        method_not_allowed: false,
    }
}

/// `http::StatusCode::canonical_reason`, for the status of that number.
/// Trusted: the phrases of 404, 405 and 500 are those of the crate's table.
#[verifier::external_body]
pub(crate) fn canonical_reason(status: u16) -> (r: Option<&'static str>)
    ensures
        status == 404 ==> r is Some && r->0@ == "Not Found"@,
        status == 405 ==> r is Some && r->0@ == "Method Not Allowed"@,
        status == 500 ==> r is Some && r->0@ == "Internal Server Error"@,
{
    match http::StatusCode::from_u16(status) {
        Ok(code) => code.canonical_reason(),
        Err(_) => None,
    }
}

} // verus!
