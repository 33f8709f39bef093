use vstd::prelude::*;
use crate::errors::FairLendError;

verus! {

/// The freshness window in seconds: an attestation older than this is stale.
pub const FRESHNESS_WINDOW_SECS: i64 = 300;

/// The clock-skew allowance in seconds: a timestamp may claim to lie at most
/// this far in the future.
pub const CLOCK_SKEW_ALLOWANCE_SECS: i64 = 10;

/// An attestation is stale when its timestamp is more than the freshness
/// window behind `now`.
pub open spec fn spec_is_stale(now: i64, timestamp: i64) -> bool {
    now - timestamp > FRESHNESS_WINDOW_SECS
}

/// An attestation timestamp is invalid when it lies beyond the clock-skew
/// allowance in the future of `now`.
pub open spec fn spec_is_future(now: i64, timestamp: i64) -> bool {
    timestamp > now + CLOCK_SKEW_ALLOWANCE_SECS
}

/// A timestamp is fresh exactly when it is neither stale nor in the future:
/// `now - timestamp <= 300` and `timestamp <= now + 10`.
pub open spec fn spec_is_fresh(now: i64, timestamp: i64) -> bool {
    !spec_is_stale(now, timestamp) && !spec_is_future(now, timestamp)
}

/// Checks attestation freshness against the current time.
///
/// Passes exactly when the timestamp is fresh; a stale timestamp yields
/// `StaleAttestation` and a too-far-future one yields `InvalidTimestamp`.
/// The two failure conditions cannot hold at once, so the result is fully
/// determined.
pub fn check_freshness(now: i64, timestamp: i64) -> (r: Result<(), FairLendError>)
    ensures
        r == Ok::<(), FairLendError>(()) <==> spec_is_fresh(now, timestamp),
        r == Err::<(), FairLendError>(FairLendError::StaleAttestation) <==> spec_is_stale(
            now,
            timestamp,
        ),
        r == Err::<(), FairLendError>(FairLendError::InvalidTimestamp) <==> spec_is_future(
            now,
            timestamp,
        ),
{
    let now_wide: i128 = now as i128;
    let ts_wide: i128 = timestamp as i128;
    if now_wide - ts_wide > FRESHNESS_WINDOW_SECS as i128 {
        Err(FairLendError::StaleAttestation)
    } else if ts_wide > now_wide + CLOCK_SKEW_ALLOWANCE_SECS as i128 {
        Err(FairLendError::InvalidTimestamp)
    } else {
        Ok(())
    }
}

/// Freshness law: for any `now` and `timestamp`, the timestamp is fresh
/// exactly when `-10 <= now - timestamp <= 300`; outside those bounds the
/// violated side determines which specific error `check_freshness` returns,
/// and the two violations are mutually exclusive.
pub proof fn lemma_freshness_window(now: i64, timestamp: i64)
    ensures
        spec_is_fresh(now, timestamp) <==> -CLOCK_SKEW_ALLOWANCE_SECS <= now - timestamp
            <= FRESHNESS_WINDOW_SECS,
        spec_is_stale(now, timestamp) <==> now - timestamp > FRESHNESS_WINDOW_SECS,
        spec_is_future(now, timestamp) <==> now - timestamp < -CLOCK_SKEW_ALLOWANCE_SECS,
        !(spec_is_stale(now, timestamp) && spec_is_future(now, timestamp)),
{
}

} // verus!
