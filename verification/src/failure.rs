//! Mapping of transport errors (from `reqwest`) and middleware-chain errors
//! (from `reqwest-middleware`, possibly wrapped by the retry middleware)
//! onto [`FetchError`].

use std::convert::Infallible;
use vstd::prelude::*;

use crate::error::FetchError;
use crate::time::{duration_from_secs, duration_nanos};

verus! {

#[verifier::external_type_specification]
#[verifier::external_body]
pub struct ExReqwestError(reqwest::Error);

#[verifier::external_type_specification]
#[verifier::external_body]
pub struct ExMiddlewareError(reqwest_middleware::Error);

#[verifier::external_type_specification]
#[verifier::external_body]
pub struct ExAnyhowError(anyhow::Error);

#[verifier::external_type_specification]
#[verifier::external_body]
pub struct ExRetryError(reqwest_retry::RetryError);

#[verifier::external_type_specification]
#[verifier::external_body]
#[verifier::reject_recursive_types(E)]
pub struct ExCircuitBreakerError<E>(breaker::CircuitBreakerError<E>);

/// The two shapes of a `reqwest_middleware::Error`.
pub enum MiddlewareFailure {
    /// Raised by a middleware of the chain.
    Chain(anyhow::Error),
    /// Raised by the underlying `reqwest` client.
    Transport(reqwest::Error),
}

/// Whether a `reqwest::Error` is a timeout (`reqwest::Error::is_timeout`).
pub uninterp spec fn reqwest_error_timed_out(e: reqwest::Error) -> bool;

/// The text `reqwest::Error`'s `Display` implementation renders.
pub uninterp spec fn reqwest_error_message(e: reqwest::Error) -> Seq<char>;

/// The shape of a `reqwest_middleware::Error`: its variant and the error it
/// holds.
pub uninterp spec fn middleware_failure_of(e: reqwest_middleware::Error) -> MiddlewareFailure;

/// The `reqwest_retry::RetryError` an `anyhow::Error` holds, if it holds
/// one (what `anyhow::Error::downcast` finds).
pub uninterp spec fn retry_error_within(a: anyhow::Error) -> Option<reqwest_retry::RetryError>;

/// The `reqwest_middleware::Error` a `reqwest_retry::RetryError` wraps.
pub uninterp spec fn retry_error_inner(e: reqwest_retry::RetryError) -> reqwest_middleware::Error;

/// The text `reqwest_retry::RetryError`'s `Display` implementation renders.
pub uninterp spec fn retry_error_message(e: reqwest_retry::RetryError) -> Seq<char>;

/// Whether an `anyhow::Error` holds `breaker::CircuitBreakerError::CircuitOpen`,
/// the signal of a refused request.
pub uninterp spec fn is_open_signal(a: anyhow::Error) -> bool;

/// The text `anyhow::Error`'s `Display` implementation renders.
pub uninterp spec fn anyhow_message(a: anyhow::Error) -> Seq<char>;

/// Calls `reqwest::Error::is_timeout`.
#[verifier::external_body]
fn reqwest_error_is_timeout(e: &reqwest::Error) -> (r: bool)
    ensures
        r == reqwest_error_timed_out(*e),
{
    e.is_timeout()
}

/// Calls `reqwest::Error`'s `Display` implementation.
#[verifier::external_body]
pub(crate) fn reqwest_error_text(e: &reqwest::Error) -> (r: String)
    ensures
        r@ == reqwest_error_message(*e),
{
    format!("{}", e)
}

/// Tells the variants of a `reqwest_middleware::Error` apart.
#[verifier::external_body]
fn split_middleware_error(e: reqwest_middleware::Error) -> (r: MiddlewareFailure)
    ensures
        r == middleware_failure_of(e),
{
    match e {
        reqwest_middleware::Error::Middleware(a) => MiddlewareFailure::Chain(a),
        reqwest_middleware::Error::Reqwest(r) => MiddlewareFailure::Transport(r),
    }
}

/// Calls `anyhow::Error::downcast::<reqwest_retry::RetryError>`: the
/// `RetryError` the error holds, or the error itself when it holds none.
#[verifier::external_body]
fn downcast_retry_error(e: anyhow::Error) -> (r: Result<reqwest_retry::RetryError, anyhow::Error>)
    ensures
        match r {
            Ok(inner) => retry_error_within(e) == Some(inner),
            Err(same) => retry_error_within(e) is None && same == e,
        },
{
    e.downcast::<reqwest_retry::RetryError>()
}

/// Moves the wrapped `reqwest_middleware::Error` out of either variant of a
/// `reqwest_retry::RetryError`.
#[verifier::external_body]
fn retry_error_source(e: reqwest_retry::RetryError) -> (r: reqwest_middleware::Error)
    ensures
        r == retry_error_inner(e),
{
    match e {
        reqwest_retry::RetryError::WithRetries { err, .. } => err,
        reqwest_retry::RetryError::Error(err) => err,
    }
}

/// Calls `reqwest_retry::RetryError`'s `Display` implementation.
#[verifier::external_body]
fn retry_error_text(e: &reqwest_retry::RetryError) -> (r: String)
    ensures
        r@ == retry_error_message(*e),
{
    format!("{}", e)
}

/// Calls `anyhow::Error::downcast_ref::<breaker::CircuitBreakerError<Infallible>>`
/// and tells whether it found the `CircuitOpen` variant.
#[verifier::external_body]
fn is_open_circuit_signal(e: &anyhow::Error) -> (r: bool)
    ensures
        r == is_open_signal(*e),
{
    matches!(
        e.downcast_ref::<breaker::CircuitBreakerError<Infallible>>(),
        Some(breaker::CircuitBreakerError::CircuitOpen)
    )
}

/// Calls `anyhow::Error`'s `Display` implementation.
#[verifier::external_body]
fn anyhow_text(e: &anyhow::Error) -> (r: String)
    ensures
        r@ == anyhow_message(*e),
{
    format!("{}", e)
}

/// Whether `e` is the signal of a refused request: raised in the chain, not
/// a `RetryError`, and holding `CircuitBreakerError::CircuitOpen`.
pub open spec fn is_refusal(e: reqwest_middleware::Error) -> bool {
    match middleware_failure_of(e) {
        MiddlewareFailure::Chain(a) => retry_error_within(a) is None && is_open_signal(a),
        MiddlewareFailure::Transport(_) => false,
    }
}

/// Builds the error a middleware raises to refuse a request while the
/// circuit is open: `reqwest_middleware::Error::Middleware` around
/// `breaker::CircuitBreakerError::<Infallible>::CircuitOpen`.
#[verifier::external_body]
pub(crate) fn open_circuit_signal() -> (r: reqwest_middleware::Error)
    ensures
        is_refusal(r),
{
    reqwest_middleware::Error::Middleware(anyhow::Error::new(
        breaker::CircuitBreakerError::<Infallible>::CircuitOpen,
    ))
}

/// Whether `r` is what a `reqwest::Error` maps to: a timeout becomes
/// `Timeout` with a zero duration, anything else `Network` with the error's
/// message.
pub open spec fn reqwest_maps_to(e: reqwest::Error, r: FetchError) -> bool {
    if reqwest_error_timed_out(e) {
        r matches FetchError::Timeout(d) && duration_nanos(d) == 0
    } else {
        r matches FetchError::Network(m) && m@ == reqwest_error_message(e)
    }
}

/// Whether `r` is what a `reqwest_middleware::Error` maps to, unwrapping at
/// most `depth` retry wrappers: a client error maps as in
/// [`reqwest_maps_to`]; a `RetryError` maps as the error it wraps; the
/// open-circuit signal becomes `CircuitOpen`; anything else `Middleware` with
/// its message.
pub open spec fn middleware_maps_to(e: reqwest_middleware::Error, depth: nat, r: FetchError) -> bool
    decreases depth,
{
    match middleware_failure_of(e) {
        MiddlewareFailure::Transport(t) => reqwest_maps_to(t, r),
        MiddlewareFailure::Chain(a) => match retry_error_within(a) {
            Some(retry) => if depth == 0 {
                r matches FetchError::Middleware(m) && m@ == retry_error_message(retry)
            } else {
                middleware_maps_to(retry_error_inner(retry), (depth - 1) as nat, r)
            },
            None => if is_open_signal(a) {
                r == FetchError::CircuitOpen
            } else {
                r matches FetchError::Middleware(m) && m@ == anyhow_message(a)
            },
        },
    }
}

/// A transport error that timed out is reported as `Timeout` (of zero
/// length), never as `Network`; any other transport error is reported as
/// `Network` with the error's message, never as `Timeout`. This holds for the
/// error on its own and for the error as the middleware chain hands it on.
pub proof fn timeouts_are_reported_as_timeouts(
    e: reqwest::Error,
    m: reqwest_middleware::Error,
    depth: nat,
    r: FetchError,
)
    ensures
        reqwest_maps_to(e, r) && reqwest_error_timed_out(e) ==> (r matches FetchError::Timeout(d)
            && duration_nanos(d) == 0),
        reqwest_maps_to(e, r) && !reqwest_error_timed_out(e) ==> (r matches FetchError::Network(t)
            && t@ == reqwest_error_message(e)),
        middleware_maps_to(m, depth, r) && middleware_failure_of(m) == MiddlewareFailure::Transport(e)
            && reqwest_error_timed_out(e) ==> r is Timeout,
        middleware_maps_to(m, depth, r) && middleware_failure_of(m) == MiddlewareFailure::Transport(e)
            && !reqwest_error_timed_out(e) ==> r is Network,
{
}

/// A refused request is answered with `CircuitOpen`, however many retry
/// wrappers may be unwrapped.
pub proof fn refusal_maps_to_circuit_open(e: reqwest_middleware::Error, depth: nat, r: FetchError)
    requires
        is_refusal(e),
        middleware_maps_to(e, depth, r),
    ensures
        r == FetchError::CircuitOpen,
{
}

/// The error for a failed transport call: a timeout becomes `Timeout` with a
/// zero duration, anything else `Network` with the transport's message.
pub fn transport_failure(timed_out: bool, message: String) -> (r: FetchError)
    ensures
        timed_out ==> (r matches FetchError::Timeout(d) && duration_nanos(d) == 0),
        !timed_out ==> r == FetchError::Network(message),
{
    if timed_out {
        FetchError::Timeout(duration_from_secs(0))
    } else {
        FetchError::Network(message)
    }
}

/// The error for a failure raised inside the middleware chain: the
/// open-circuit signal becomes `CircuitOpen`, anything else `Middleware`
/// with the failure's message.
pub fn chain_failure(open_circuit: bool, message: String) -> (r: FetchError)
    ensures
        open_circuit ==> r == FetchError::CircuitOpen,
        !open_circuit ==> r == FetchError::Middleware(message),
{
    if open_circuit {
        FetchError::CircuitOpen
    } else {
        FetchError::Middleware(message)
    }
}

impl FetchError {
    /// Maps a `reqwest::Error`: a timeout becomes `Timeout`, anything else
    /// `Network` with the error's message (see [`transport_failure`]).
    pub fn from_reqwest(err: reqwest::Error) -> (r: FetchError)
        ensures
            reqwest_maps_to(err, r),
            reqwest_error_timed_out(err) ==> (r matches FetchError::Timeout(d) && duration_nanos(d)
                == 0),
            !reqwest_error_timed_out(err) ==> (r matches FetchError::Network(m) && m@
                == reqwest_error_message(err)),
    {
        let timed_out = reqwest_error_is_timeout(&err);
        let message = reqwest_error_text(&err);
        transport_failure(timed_out, message)
    }

    /// Maps a `reqwest_middleware::Error`. Client errors map as in
    /// [`FetchError::from_reqwest`]; errors raised in the chain are first
    /// unwrapped from the retry middleware's `RetryError`, then the
    /// open-circuit signal becomes `CircuitOpen` and anything else
    /// `Middleware` (see [`chain_failure`]).
    pub fn from_middleware(err: reqwest_middleware::Error) -> (r: FetchError)
        ensures
            middleware_maps_to(err, u32::MAX as nat, r),
            middleware_failure_of(err) matches MiddlewareFailure::Transport(t) ==> (
            reqwest_error_timed_out(t) ==> r is Timeout),
            middleware_failure_of(err) matches MiddlewareFailure::Transport(t) ==> (
            !reqwest_error_timed_out(t) ==> r is Network),
            is_refusal(err) ==> r == FetchError::CircuitOpen,
    {
        Self::from_middleware_within(err, u32::MAX)
    }

    fn from_middleware_within(err: reqwest_middleware::Error, depth: u32) -> (r: FetchError)
        ensures
            middleware_maps_to(err, depth as nat, r),
        decreases depth,
    {
        match split_middleware_error(err) {
            MiddlewareFailure::Transport(e) => Self::from_reqwest(e),
            MiddlewareFailure::Chain(a) => match downcast_retry_error(a) {
                Ok(retry) => {
                    if depth == 0 {
                        FetchError::Middleware(retry_error_text(&retry))
                    } else {
                        Self::from_middleware_within(retry_error_source(retry), depth - 1)
                    }
                },
                Err(a) => {
                    let open = is_open_circuit_signal(&a);
                    chain_failure(open, anyhow_text(&a))
                },
            },
        }
    }
}

} // verus!
