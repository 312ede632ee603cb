//! The time since boot, split into the four magnitudes that the report
//! chooses from.

use vstd::prelude::*;
use crate::clock::WallClock;
use crate::query::BootTime;

verus! {

/// The time since boot as four whole counts of the same span: each field is
/// the full elapsed time in its unit, not a remainder of the one before.
#[derive(Clone, Copy, Debug, PartialEq, Eq)]
pub struct UptimeDuration {
    pub days: u64,
    pub hours: u64,
    pub minutes: u64,
    pub seconds: u64,
}

/// Seconds from `boot` to `now`; a boot time that lies ahead counts as no
/// time at all.
pub open spec fn elapsed_seconds(now: int, boot: int) -> nat {
    if now > boot {
        (now - boot) as nat
    } else {
        0
    }
}

/// The four counts of `elapsed` seconds.
pub open spec fn split_elapsed(elapsed: nat) -> UptimeDuration {
    UptimeDuration {
        days: (elapsed / 86400) as u64,
        hours: (elapsed / 3600) as u64,
        minutes: (elapsed / 60) as u64,
        seconds: elapsed as u64,
    }
}

/// The duration of a number of seconds.
pub fn split_seconds(elapsed: u64) -> (up: UptimeDuration)
    ensures
        up == split_elapsed(elapsed as nat),
{
    UptimeDuration {
        days: elapsed / 86400,
        hours: elapsed / 3600,
        minutes: elapsed / 60,
        seconds: elapsed,
    }
}

/// The time from boot to now.
///
/// A clock that was set back, or a restored snapshot, can put the boot time
/// after the present. The span is then taken as zero, so that the report
/// reads "0 secs" and not a negative count.
pub fn compute_uptime(now: &WallClock, boot: &BootTime) -> (up: UptimeDuration)
    ensures
        up == split_elapsed(elapsed_seconds(now.epoch_seconds(), boot.seconds as int)),
{
    let now_seconds: i64 = now.seconds();
    let elapsed: u64 = if now_seconds > boot.seconds {
        (now_seconds as i128 - boot.seconds as i128) as u64
    } else {
        0
    };
    split_seconds(elapsed)
}

} // verus!
