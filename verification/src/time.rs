//! Durations as the library reasons about them: by their total length in
//! nanoseconds.

use std::time::Duration;
use vstd::prelude::*;

verus! {

/// Total length of `d` in nanoseconds, as `Duration::as_nanos` reports it.
pub uninterp spec fn duration_nanos(d: Duration) -> int;

/// The text `Duration`'s `Debug` implementation renders for a duration of
/// `nanos` nanoseconds (for example `5s`, `0ns`, `1.5s`).
pub uninterp spec fn duration_debug_text(nanos: int) -> Seq<char>;

/// Calls `Duration::as_nanos`: the total number of nanoseconds in `d`.
#[verifier::external_body]
pub(crate) fn duration_as_nanos(d: Duration) -> (r: u128)
    ensures
        r == duration_nanos(d),
{
    d.as_nanos()
}

/// Calls `Duration::from_secs`: a duration of `secs` whole seconds.
#[verifier::external_body]
pub(crate) fn duration_from_secs(secs: u64) -> (r: Duration)
    ensures
        duration_nanos(r) == secs * 1_000_000_000,
{
    Duration::from_secs(secs)
}

/// Calls `Duration::from_millis`: a duration of `millis` milliseconds.
#[verifier::external_body]
pub(crate) fn duration_from_millis(millis: u64) -> (r: Duration)
    ensures
        duration_nanos(r) == millis * 1_000_000,
{
    Duration::from_millis(millis)
}

/// Renders `d` with `Duration`'s `Debug` implementation; the text depends
/// only on the duration's length.
#[verifier::external_body]
pub(crate) fn duration_debug(d: Duration) -> (r: String)
    ensures
        r@ == duration_debug_text(duration_nanos(d)),
{
    format!("{:?}", d)
}

} // verus!
