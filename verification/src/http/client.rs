//! Classifying an HTTP response by its status.
use crate::error::{Error, ErrorView};
use vstd::prelude::*;

verus! {

/// A response that the server marked as a success, with its body.
#[derive(Debug, Clone, PartialEq, Eq)]
pub struct HttpResponse<T> {
    pub body: T,
    pub status: u16,
}

/// Whether `status` lies in the success range, 200 to 299.
pub open spec fn is_success(status: u16) -> bool {
    200 <= status && status < 300
}

/// What a response with this status and this raw body is taken for.
pub open spec fn classified(status: u16, body: Seq<char>) -> Result<(u16, Seq<char>), ErrorView> {
    if is_success(status) {
        Ok((status, body))
    } else {
        Err(ErrorView::StatusCodeError { status, body })
    }
}

/// A classification with its texts as sequences of characters.
pub open spec fn response_outcome(r: Result<HttpResponse<String>, Error>) -> Result<
    (u16, Seq<char>),
    ErrorView,
> {
    match r {
        Ok(response) => Ok((response.status, response.body@)),
        Err(e) => Err(e@),
    }
}

/// Whether `status` lies in the success range, 200 to 299.
pub fn status_is_success(status: u16) -> (r: bool)
    ensures
        r == is_success(status),
{
    200 <= status && status < 300
}

impl HttpResponse<String> {
    /// Classifies a response. With a status in 200..=299 the body is handed on
    /// untouched, to be decoded. With any other status the response becomes a
    /// `StatusCodeError` that keeps the status and the raw body; nothing is
    /// decoded then.
    pub fn from_status_and_body(status: u16, body: String) -> (r: Result<HttpResponse<String>, Error>)
        ensures
            response_outcome(r) == classified(status, body@),
    {
        if status_is_success(status) {
            Ok(HttpResponse { body, status })
        } else {
            Err(Error::StatusCodeError { status, body })
        }
    }
}

/// A status outside 200..=299 always gives a `StatusCodeError` with exactly
/// that status and that body, and a status inside never does.
pub proof fn lemma_status_decides_classification(status: u16, body: Seq<char>)
    ensures
        (status < 200 || status > 299) ==> classified(status, body) == Err::<
            (u16, Seq<char>),
            ErrorView,
        >(ErrorView::StatusCodeError { status, body }),
        (200 <= status && status <= 299) ==> classified(status, body) == Ok::<
            (u16, Seq<char>),
            ErrorView,
        >((status, body)),
{
}

} // verus!
