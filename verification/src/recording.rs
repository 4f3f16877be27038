//! The calls that record an outcome on a circuit breaker, and the receipt
//! only they hand out.

use vstd::prelude::*;

use crate::middleware::Outcome;

verus! {

/// A receipt for an outcome recorded on a circuit breaker. Only
/// [`record_success`] and [`record_failure`] make one, so holding one shows
/// which of the breaker's recording methods was called.
pub struct Recorded {
    outcome: Outcome,
    breaker: Ghost<breaker::CircuitBreaker>,
}

impl Recorded {
    /// The outcome that was recorded.
    pub closed spec fn recorded(&self) -> Outcome {
        self.outcome
    }

    /// The breaker it was recorded on.
    pub closed spec fn breaker(&self) -> breaker::CircuitBreaker {
        self.breaker@
    }

    /// The outcome that was recorded.
    pub fn outcome(&self) -> (r: Outcome)
        ensures
            r == self.recorded(),
    {
        self.outcome
    }
}

/// Calls `breaker::CircuitBreaker::record_success`.
#[verifier::external_body]
pub(crate) fn record_success(b: &breaker::CircuitBreaker) -> (r: Recorded)
    ensures
        r.recorded() == Outcome::Success,
        r.breaker() == *b,
{
    b.record_success();
    Recorded { outcome: Outcome::Success, breaker: Ghost(*b) }
}

/// Calls `breaker::CircuitBreaker::record_failure`.
#[verifier::external_body]
pub(crate) fn record_failure(b: &breaker::CircuitBreaker) -> (r: Recorded)
    ensures
        r.recorded() == Outcome::Failure,
        r.breaker() == *b,
{
    b.record_failure();
    Recorded { outcome: Outcome::Failure, breaker: Ghost(*b) }
}

} // verus!
