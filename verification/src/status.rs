//! Decisions taken on a response: which statuses pass, what a failing status
//! is answered with, and when a fallback fetch is made.

use vstd::prelude::*;

use crate::error::FetchError;

verus! {

/// The success statuses: `200` through `299`.
pub open spec fn is_success_status(status: u16) -> bool {
    200 <= status <= 299
}

/// Whether a response with `status` is passed on as a success; any other
/// status is answered with [`status_failure`].
pub fn status_is_success(status: u16) -> (r: bool)
    ensures
        r == is_success_status(status),
        r <==> (200 <= status && status <= 299),
{
    200 <= status && status <= 299
}

/// Every status from 200 through 299 passes (201 Created and 204 No
/// Content among them), and every other status is answered with
/// `StatusCode`: below 200 (informational), 300 and above (redirects, client
/// and server errors).
pub proof fn exactly_2xx_succeeds(status: u16)
    ensures
        200 <= status && status <= 299 ==> is_success_status(status),
        status < 200 ==> !is_success_status(status),
        status >= 300 ==> !is_success_status(status),
{
}

/// A failing status is answered with an error carrying that very status and
/// the body read, whatever the status: nothing is passed on as a success.
pub proof fn failures_keep_their_status(status: u16, body: Option<String>, e: FetchError)
    requires
        !is_success_status(status),
        e matches FetchError::StatusCode { status: s, body: b } && s == status && b@
            == recorded_body(body),
    ensures
        status < 200 || status >= 300,
        e is StatusCode,
{
}

/// The body recorded for a failing response: the text read, or empty when
/// it could not be read.
pub open spec fn recorded_body(body: Option<String>) -> Seq<char> {
    match body {
        Some(b) => b@,
        None => Seq::empty(),
    }
}

/// The error for a response with a non-success `status`: `StatusCode` with
/// the status and the response body (`None` when the body could not be
/// read, which records an empty body).
pub fn status_failure(status: u16, body: Option<String>) -> (r: FetchError)
    ensures
        r matches FetchError::StatusCode { status: s, body: b } && s == status && b@
            == recorded_body(body),
{
    let body = match body {
        Some(b) => b,
        None => String::new(),
    };
    FetchError::StatusCode { status, body }
}

/// What a fetch with fallback does once the primary fetch has completed.
pub enum FallbackStep<T> {
    /// The primary fetch succeeded: its value is the result.
    Done(T),
    /// The primary fetch failed: the fallback fetch's result is the result.
    FetchFallback,
}

/// Decides a fetch with fallback after its primary fetch: a success is the
/// result and the fallback is never fetched; any failure (a 4xx status
/// included) leads to the fallback fetch, whose result is final.
pub fn after_primary<T>(primary: Result<T, FetchError>) -> (r: FallbackStep<T>)
    ensures
        primary matches Ok(v) ==> r matches FallbackStep::Done(w) && w == v,
        primary is Err ==> r is FetchFallback,
{
    match primary {
        Ok(v) => FallbackStep::Done(v),
        Err(_) => FallbackStep::FetchFallback,
    }
}

} // verus!
