//! Circuit-breaker policy of the middleware chain: which requests are let
//! through, and which outcomes count as failures.

use vstd::prelude::*;

use crate::failure::{is_refusal, open_circuit_signal};
use crate::recording::{record_failure, record_success, Recorded};

verus! {

#[verifier::external_type_specification]
#[verifier::external_body]
pub struct ExCircuitBreaker(breaker::CircuitBreaker);

#[verifier::external_type_specification]
#[verifier::external_body]
pub struct ExBreakerState(breaker::State);

/// The state a circuit breaker reports.
#[derive(Clone, Copy, Debug, PartialEq, Eq, Structural)]
pub enum CircuitState {
    /// Requests are allowed.
    Closed,
    /// Requests are rejected.
    Open,
    /// Probing for recovery.
    HalfOpen,
}

/// Whether a request may go down the chain.
#[derive(Clone, Copy, Debug, PartialEq, Eq, Structural)]
pub enum Admission {
    /// Forward the request.
    Proceed,
    /// Refuse the request without sending it.
    Reject,
}

/// How a completed request is recorded by the breaker.
#[derive(Clone, Copy, Debug, PartialEq, Eq, Structural)]
pub enum Outcome {
    /// Recorded as a success.
    Success,
    /// Recorded as a failure.
    Failure,
}

/// Whether a response status counts as a failure: `429 Too Many Requests`
/// and every `5xx`.
pub open spec fn is_failure_status(status: u16) -> bool {
    status == 429 || status >= 500
}

/// The outcome recorded for a request that got a response with `status`
/// (`Some`) or none at all (`None`, a transport error).
pub open spec fn outcome_spec(status: Option<u16>) -> Outcome {
    match status {
        Some(s) => if is_failure_status(s) {
            Outcome::Failure
        } else {
            Outcome::Success
        },
        None => Outcome::Failure,
    }
}

/// A request is let through unless the circuit is open.
pub fn admission_for(state: CircuitState) -> (r: Admission)
    ensures
        r == (if state == CircuitState::Open {
            Admission::Reject
        } else {
            Admission::Proceed
        }),
{
    match state {
        CircuitState::Open => Admission::Reject,
        CircuitState::HalfOpen => Admission::Proceed,
        CircuitState::Closed => Admission::Proceed,
    }
}

/// Every 5xx status and 429 Too Many Requests is recorded as a failure, as
/// is a request that got no response; every other status (1xx, 2xx, 3xx and
/// the 4xx statuses but 429) is recorded as a success.
pub proof fn failures_are_429_5xx_and_transport_errors(status: u16)
    ensures
        500 <= status ==> outcome_spec(Some(status)) == Outcome::Failure,
        status == 429 ==> outcome_spec(Some(status)) == Outcome::Failure,
        status < 500 && status != 429 ==> outcome_spec(Some(status)) == Outcome::Success,
        outcome_spec(None) == Outcome::Failure,
{
}

/// Classifies a completed request (see [`outcome_spec`]).
pub fn outcome_for(status: Option<u16>) -> (r: Outcome)
    ensures
        r == outcome_spec(status),
        status matches Some(s) && (s == 429 || 500 <= s) ==> r == Outcome::Failure,
        status matches Some(s) && s != 429 && s < 500 ==> r == Outcome::Success,
        status is None ==> r == Outcome::Failure,
{
    match status {
        Some(s) => if s == 429 || s >= 500 {
            Outcome::Failure
        } else {
            Outcome::Success
        },
        None => Outcome::Failure,
    }
}

/// Calls `breaker::CircuitBreaker::state` and tells its variants apart.
/// The state depends on the time elapsed since the circuit opened, so
/// nothing is promised of it.
#[verifier::external_body]
fn breaker_state(b: &breaker::CircuitBreaker) -> CircuitState {
    match b.state() {
        breaker::State::Closed => CircuitState::Closed,
        breaker::State::Open => CircuitState::Open,
        breaker::State::HalfOpen => CircuitState::HalfOpen,
    }
}

/// Checks a circuit breaker before each request of the chain and records
/// the outcome after it.
///
/// If the circuit is **Open** the request is refused; a response with
/// status 429 or 5xx, or a transport error, records a failure; any other
/// response records a success.
pub struct CircuitBreakerMiddleware {
    breaker: breaker::CircuitBreaker,
}

impl CircuitBreakerMiddleware {
    /// Creates a new middleware wrapping the given circuit breaker.
    pub fn new(breaker: breaker::CircuitBreaker) -> (r: Self)
        ensures
            r.breaker() == breaker,
    {
        CircuitBreakerMiddleware { breaker }
    }

    /// The wrapped circuit breaker.
    pub closed spec fn breaker(&self) -> breaker::CircuitBreaker {
        self.breaker
    }

    /// Decides, with [`admission_for`], from the breaker's current state
    /// whether the next request may go down the chain. That state depends
    /// on the time elapsed since the circuit opened.
    pub fn admission(&self) -> Admission {
        let state = breaker_state(&self.breaker);
        admission_for(state)
    }

    /// Records the outcome of a completed request on the breaker: `status`
    /// is the response status, or `None` when the request failed without a
    /// response. Returns the receipt of the recording call made.
    pub fn settle(&self, status: Option<u16>) -> (r: Recorded)
        ensures
            r.recorded() == outcome_spec(status),
            status matches Some(s) && (s == 429 || 500 <= s) ==> r.recorded() == Outcome::Failure,
            status matches Some(s) && s != 429 && s < 500 ==> r.recorded() == Outcome::Success,
            status is None ==> r.recorded() == Outcome::Failure,
            r.breaker() == self.breaker(),
    {
        match outcome_for(status) {
            Outcome::Failure => record_failure(&self.breaker),
            Outcome::Success => record_success(&self.breaker),
        }
    }

    /// The error a refused request is answered with: the open-circuit
    /// signal, which `FetchError::from_middleware` maps to `CircuitOpen`
    /// (see `refusal_maps_to_circuit_open`).
    pub fn rejection(&self) -> (r: reqwest_middleware::Error)
        ensures
            is_refusal(r),
    {
        open_circuit_signal()
    }
}

} // verus!
