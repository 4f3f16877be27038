//! The retry policy of the middleware chain: how many times a transient
//! failure is retried and within which backoff bounds.

use std::time::Duration;
use vstd::prelude::*;

use crate::time::{duration_as_nanos, duration_nanos};

verus! {

#[verifier::external_type_specification]
#[verifier::external_body]
pub struct ExExponentialBackoff(reqwest_retry::policies::ExponentialBackoff);

#[verifier::external_type_specification]
#[verifier::external_body]
pub struct ExExponentialBackoffBuilder(reqwest_retry::policies::ExponentialBackoffBuilder);

/// The settings of an exponential-backoff policy: at most `max_retries`
/// retries, waiting between `min_backoff` and `max_backoff` nanoseconds.
pub struct RetryPolicyView {
    pub max_retries: nat,
    pub min_backoff: int,
    pub max_backoff: int,
}

/// The minimum and maximum backoff (nanoseconds) an
/// `ExponentialBackoffBuilder` holds.
pub uninterp spec fn builder_bounds(b: reqwest_retry::policies::ExponentialBackoffBuilder) -> (int, int);

/// The retry count and backoff bounds of an `ExponentialBackoff` (its
/// public fields `max_n_retries`, `min_retry_interval`, `max_retry_interval`).
pub uninterp spec fn policy_settings(p: reqwest_retry::policies::ExponentialBackoff) -> RetryPolicyView;

/// The bounds a fresh `ExponentialBackoffBuilder` holds: one second and
/// thirty minutes.
pub open spec fn default_bounds() -> (int, int) {
    (1_000_000_000, 1_800_000_000_000)
}

/// Calls `ExponentialBackoff::builder`: a builder with the default bounds.
#[verifier::external_body]
fn backoff_builder() -> (r: reqwest_retry::policies::ExponentialBackoffBuilder)
    ensures
        builder_bounds(r) == default_bounds(),
{
    reqwest_retry::policies::ExponentialBackoff::builder()
}

/// Calls `ExponentialBackoffBuilder::retry_bounds`, which panics unless the
/// minimum is at most the maximum; the builder then holds these bounds.
#[verifier::external_body]
fn backoff_bounds(
    b: reqwest_retry::policies::ExponentialBackoffBuilder,
    min: Duration,
    max: Duration,
) -> (r: reqwest_retry::policies::ExponentialBackoffBuilder)
    requires
        duration_nanos(min) <= duration_nanos(max),
    ensures
        builder_bounds(r) == (duration_nanos(min), duration_nanos(max)),
{
    b.retry_bounds(min, max)
}

/// Calls `ExponentialBackoffBuilder::build_with_max_retries`: a policy of at
/// most `n` retries within the builder's bounds.
#[verifier::external_body]
fn backoff_with_max_retries(
    b: reqwest_retry::policies::ExponentialBackoffBuilder,
    n: u32,
) -> (r: reqwest_retry::policies::ExponentialBackoff)
    ensures
        policy_settings(r) == (RetryPolicyView {
            max_retries: n as nat,
            min_backoff: builder_bounds(b).0,
            max_backoff: builder_bounds(b).1,
        }),
{
    b.build_with_max_retries(n)
}

/// Whether `initial` and `max` are ordered backoff bounds (`initial` at most
/// `max`), as `ClientBuilder::retry_bounds` requires.
pub fn ordered_bounds(initial: Duration, max: Duration) -> (r: bool)
    ensures
        r == (duration_nanos(initial) <= duration_nanos(max)),
{
    duration_as_nanos(initial) <= duration_as_nanos(max)
}

/// The settings of the policy for `max_retries` retries within `bounds`,
/// or within the default bounds when there are none.
pub open spec fn policy_for(max_retries: u32, bounds: Option<(Duration, Duration)>) -> RetryPolicyView {
    let (min, max) = match bounds {
        Some((lo, hi)) => (duration_nanos(lo), duration_nanos(hi)),
        None => default_bounds(),
    };
    RetryPolicyView { max_retries: max_retries as nat, min_backoff: min, max_backoff: max }
}

/// Builds the exponential-backoff policy for `max_retries` retries, with the
/// given bounds when `bounds` is set and the policy's defaults otherwise.
pub fn backoff_policy(max_retries: u32, bounds: Option<(Duration, Duration)>) -> (r:
    reqwest_retry::policies::ExponentialBackoff)
    requires
        bounds matches Some((min, max)) ==> duration_nanos(min) <= duration_nanos(max),
    ensures
        policy_settings(r) == policy_for(max_retries, bounds),
{
    let builder = backoff_builder();
    let builder = match bounds {
        Some((min, max)) => backoff_bounds(builder, min, max),
        None => builder,
    };
    backoff_with_max_retries(builder, max_retries)
}

} // verus!
