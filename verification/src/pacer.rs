//! Playback pacing: how long to sleep after a frame so that frames are
//! delivered at the configured rate.

use vstd::prelude::*;

verus! {

/// Slack left in the target inter-frame interval after a frame took
/// `elapsed_micros` to render: the caller sleeps for exactly this long.
/// A late frame (elapsed at or over the interval) gets no sleep and no
/// catch-up compensation.
pub fn sleep_slack(interval_micros: u64, elapsed_micros: u64) -> (slack: u64)
    ensures
        elapsed_micros < interval_micros ==> slack == interval_micros - elapsed_micros,
        elapsed_micros >= interval_micros ==> slack == 0,
{
    if elapsed_micros < interval_micros {
        interval_micros - elapsed_micros
    } else {
        0
    }
}

} // verus!
