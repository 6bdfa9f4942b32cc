//! Timeouts, retries and durations: the decisions behind running an
//! operation under a time limit and retrying it, and conversions between
//! durations and milliseconds.
use vstd::prelude::*;

use crate::mechaflow_core::error::Error;

verus! {

/// The whole seconds in a duration (`Duration::as_secs`).
pub uninterp spec fn duration_whole_secs(d: std::time::Duration) -> u64;

/// The nanoseconds beyond the whole seconds (`Duration::subsec_nanos`).
pub uninterp spec fn duration_subsec_ns(d: std::time::Duration) -> u32;

/// The whole milliseconds beyond the whole seconds.
pub open spec fn duration_subsec_ms(d: std::time::Duration) -> int {
    duration_subsec_ns(d) as int / 1_000_000
}

/// Calls `Duration::as_secs`: the number of whole seconds.
#[verifier::external_body]
pub(crate) fn duration_as_secs(d: std::time::Duration) -> (r: u64)
    ensures
        r == duration_whole_secs(d),
{
    d.as_secs()
}

/// Calls `Duration::subsec_millis`: the fractional part in whole
/// milliseconds, that is the fractional nanoseconds divided by one million,
/// which the documentation bounds below one thousand.
#[verifier::external_body]
fn duration_subsec_millis(d: std::time::Duration) -> (r: u32)
    ensures
        r == duration_subsec_ns(d) / 1_000_000,
        r < 1000,
{
    d.subsec_millis()
}

/// Calls `Duration::from_millis`: a duration of `ms` milliseconds, so of
/// `ms / 1000` whole seconds and `(ms % 1000) * 1_000_000` further
/// nanoseconds. A `Duration` is made of its whole seconds and its fractional
/// nanoseconds, so a duration with the same two parts is this one.
#[verifier::external_body]
fn duration_from_millis(ms: u64) -> (r: std::time::Duration)
    ensures
        duration_whole_secs(r) == ms / 1000,
        duration_subsec_ns(r) == (ms % 1000) * 1_000_000,
        forall|d: std::time::Duration|
            duration_whole_secs(d) == duration_whole_secs(r) && duration_subsec_ns(d)
                == duration_subsec_ns(r) ==> d == r,
{
    std::time::Duration::from_millis(ms)
}

/// The length of a duration in whole milliseconds.
pub open spec fn duration_ms(d: std::time::Duration) -> int {
    duration_whole_secs(d) * 1000 + duration_subsec_ms(d)
}

/// `r` is the duration of exactly `m` milliseconds: `m / 1000` whole
/// seconds and nothing finer than the remaining milliseconds.
pub open spec fn is_millis_duration(r: std::time::Duration, m: int) -> bool {
    &&& duration_whole_secs(r) == m / 1000
    &&& duration_subsec_ns(r) == (m % 1000) * 1_000_000
    &&& forall|d: std::time::Duration|
        duration_whole_secs(d) == duration_whole_secs(r) && duration_subsec_ns(d)
            == duration_subsec_ns(r) ==> d == r
}

/// Convert a Duration to milliseconds; the result must fit in a `u64`.
pub fn duration_to_millis(duration: std::time::Duration) -> (r: u64)
    requires
        duration_ms(duration) <= u64::MAX,
    ensures
        r == duration_ms(duration),
        duration_subsec_ns(duration) < 1_000_000_000,
{
    let secs = duration_as_secs(duration);
    let ms = duration_subsec_millis(duration);
    secs * 1000 + ms as u64
}

/// Convert a Duration to milliseconds, or `None` where the count does not
/// fit in a `u64`. Its fractional part is below one second either way.
pub fn checked_duration_to_millis(duration: std::time::Duration) -> (r: Option<u64>)
    ensures
        match r {
            Some(m) => m == duration_ms(duration),
            None => duration_ms(duration) > u64::MAX,
        },
        duration_subsec_ns(duration) < 1_000_000_000,
{
    let secs = duration_as_secs(duration);
    let ms = duration_subsec_millis(duration);
    match secs.checked_mul(1000) {
        Some(whole) => whole.checked_add(ms as u64),
        None => None,
    }
}

/// Convert milliseconds to a Duration
pub fn millis_to_duration(millis: u64) -> (r: std::time::Duration)
    ensures
        duration_ms(r) == millis,
        is_millis_duration(r, millis as int),
{
    duration_from_millis(millis)
}

/// A duration of whole milliseconds comes back unchanged from being turned
/// into milliseconds and back.
pub proof fn lemma_whole_millis_round_trip(d: std::time::Duration, r: std::time::Duration)
    requires
        duration_subsec_ns(d) < 1_000_000_000,
        duration_subsec_ns(d) % 1_000_000 == 0,
        is_millis_duration(r, duration_ms(d)),
    ensures
        r == d,
{
    let m = duration_ms(d);
    let q = duration_subsec_ns(d) / 1_000_000;
    assert(duration_subsec_ns(d) == q * 1_000_000);
    assert(0 <= q < 1000);
    assert(m / 1000 == duration_whole_secs(d) && m % 1000 == q) by (nonlinear_arith)
        requires
            m == duration_whole_secs(d) * 1000 + q,
            0 <= q < 1000,
            duration_whole_secs(d) >= 0,
    ;
}

/// How one attempt of a timed operation ended.
#[derive(Debug)]
pub enum AttemptOutcome<T> {
    /// The operation finished within the time limit
    Finished(std::result::Result<T, Error>),
    /// The time limit passed first
    TimedOut,
}

/// The result of running an operation under a time limit: its own, or a
/// timeout error "Operation timed out".
pub fn with_timeout_result<T>(outcome: AttemptOutcome<T>) -> (r: std::result::Result<T, Error>)
    ensures
        match outcome {
            AttemptOutcome::Finished(res) => r == res,
            AttemptOutcome::TimedOut => r matches Err(Error::Timeout(m)) && m@
                == "Operation timed out"@,
        },
{
    match outcome {
        AttemptOutcome::Finished(res) => res,
        AttemptOutcome::TimedOut => {
            proof {
                reveal_strlit("Operation timed out");
            }
            Err(Error::timeout("Operation timed out"))
        },
    }
}

/// What to do after an attempt when retrying.
#[derive(Debug)]
pub enum RetryDecision<T> {
    /// Stop with this result
    Done(std::result::Result<T, Error>),
    /// Make the attempt with this number (counting from zero)
    Retry(usize),
}

/// Whether another attempt follows attempt `attempt` (counting from zero)
/// when `retries` retries are allowed and the attempt `failed`.
pub open spec fn retry_continues(attempt: int, retries: int, failed: bool) -> bool {
    failed && attempt < retries
}

/// Whether an attempt ended without a value.
pub open spec fn attempt_failed<T>(outcome: AttemptOutcome<T>) -> bool {
    !(outcome matches AttemptOutcome::Finished(Ok(_)))
}

/// After attempt `attempt` (counting from zero) of at most `retries + 1`:
/// success ends the retries; a failure or timeout leads to the next attempt
/// while attempts remain, and otherwise ends with the last error.
pub fn retry_decision<T>(attempt: usize, retries: usize, outcome: AttemptOutcome<T>) -> (r: RetryDecision<T>)
    ensures
        match outcome {
            AttemptOutcome::Finished(Ok(v)) => r == RetryDecision::Done(Ok::<T, Error>(v)),
            AttemptOutcome::Finished(Err(e)) => if attempt < retries {
                r == RetryDecision::<T>::Retry((attempt + 1) as usize)
            } else {
                r == RetryDecision::<T>::Done(Err(e))
            },
            AttemptOutcome::TimedOut => if attempt < retries {
                r == RetryDecision::<T>::Retry((attempt + 1) as usize)
            } else {
                r matches RetryDecision::Done(Err(Error::Timeout(m))) && m@ == "Operation timed out"@
            },
        },
        (r is Retry) == retry_continues(attempt as int, retries as int, attempt_failed(outcome)),
{
    let failed = match &outcome {
        AttemptOutcome::Finished(Ok(_)) => false,
        _ => true,
    };
    if failed && attempt < retries {
        return RetryDecision::Retry(attempt + 1);
    }
    RetryDecision::Done(with_timeout_result(outcome))
}

/// How an operation applied to every member of a collection treats a
/// member's failure.
#[derive(Debug, Clone, Copy, PartialEq, Eq, Structural)]
pub enum FailurePolicy {
    /// Stop at the first failure and report it
    Abort,
    /// Carry on with the other members; the whole operation succeeds
    Continue,
}

/// After one member's outcome: the error to stop with, or `None` to go on
/// with the next member.
pub fn bulk_step<E>(policy: FailurePolicy, outcome: std::result::Result<(), E>) -> (stop: Option<E>)
    ensures
        match outcome {
            Ok(_) => stop is None,
            Err(e) => match policy {
                FailurePolicy::Abort => stop == Some(e),
                FailurePolicy::Continue => stop is None,
            },
        },
{
    match outcome {
        Ok(_) => None,
        Err(e) => match policy {
            FailurePolicy::Abort => Some(e),
            FailurePolicy::Continue => None,
        },
    }
}

/// The attempt at which a run stops, looking from attempt `j` on: the first
/// success at or after `j`, or attempt `retries` when none succeeds before.
pub open spec fn stop_attempt_from(fails: Seq<bool>, retries: int, j: int) -> int
    decreases retries - j,
{
    if j >= retries || !fails[j] {
        j
    } else {
        stop_attempt_from(fails, retries, j + 1)
    }
}

/// A whole run of retries, attempt `j` failing exactly when `fails[j]`:
/// with `k` the attempt at which it stops, every attempt before `k` failed
/// and was retried, attempt `k` is not retried, so `k + 1` attempts are
/// made; the run ends in success exactly when some attempt up to `retries`
/// succeeds, at the first such attempt, and otherwise ends after attempt
/// `retries` with its failure.
pub proof fn lemma_retry_run(fails: Seq<bool>, retries: nat)
    requires
        fails.len() > retries,
    ensures
        ({
            let k = stop_attempt_from(fails, retries as int, 0);
            &&& 0 <= k <= retries
            &&& forall|j: int| 0 <= j < k ==> #[trigger] fails[j] && retry_continues(j, retries as int, fails[j])
            &&& !retry_continues(k, retries as int, fails[k])
            &&& !fails[k] <==> exists|j: int| 0 <= j <= retries && !#[trigger] fails[j]
            &&& fails[k] ==> k == retries
        }),
{
    lemma_stop_from(fails, retries as int, 0);
    let k = stop_attempt_from(fails, retries as int, 0);
    if !fails[k] {
        assert(0 <= k <= retries && !fails[k]);
    } else {
        assert forall|j: int| 0 <= j <= retries implies #[trigger] fails[j] by {
            if j < k {
            } else {
            }
        }
    }
}

proof fn lemma_stop_from(fails: Seq<bool>, retries: int, j: int)
    requires
        0 <= j <= retries,
        fails.len() > retries,
    ensures
        j <= stop_attempt_from(fails, retries, j) <= retries,
        forall|i: int| j <= i < stop_attempt_from(fails, retries, j) ==> #[trigger] fails[i],
        !fails[stop_attempt_from(fails, retries, j)] || stop_attempt_from(fails, retries, j) == retries,
    decreases retries - j,
{
    if !(j >= retries || !fails[j]) {
        lemma_stop_from(fails, retries, j + 1);
    }
}

} // verus!
