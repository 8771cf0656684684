//! Delay computation for re-arming the scheduler's periodic timer.
//!
//! Each re-arm waits for the configured period plus, when a maximum jitter is
//! configured, a fresh uniformly random offset below that maximum.

use rand::Rng;
use vstd::prelude::*;

verus! {

/// Relies on rand's thread_rng and Rng::gen_range: a uniformly random value in
/// [lo, hi). gen_range panics on an empty range, so lo < hi is required.
#[verifier::external_body]
fn random_in_range(lo: u64, hi: u64) -> (r: u64)
    requires
        lo < hi,
    ensures
        lo <= r < hi,
{
    rand::thread_rng().gen_range(lo..hi)
}

/// The delay before the next scheduled refresh: the period itself when no
/// jitter is configured, otherwise the period plus a random offset drawn
/// anew on every call from [0, max_jitter).
pub fn compute_delay(period: u64, max_jitter: Option<u64>) -> (delay: u64)
    requires
        max_jitter matches Some(j) ==> j > 0 && period + j <= u64::MAX,
    ensures
        max_jitter is None ==> delay == period,
        max_jitter matches Some(j) ==> period <= delay && delay < period + j,
{
    match max_jitter {
        Some(j) => {
            let jitter = random_in_range(0, j);
            period + jitter
        }
        None => period,
    }
}

} // verus!
