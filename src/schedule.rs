//! When a widget's command is due to run again.

use vstd::prelude::*;

verus! {

/// Whole seconds from `since` to `now`; none when the clock reads earlier.
pub open spec fn elapsed(since: u64, now: u64) -> nat {
    if now >= since {
        (now - since) as nat
    } else {
        0
    }
}

/// A refresh is due when none was recorded, or when strictly more than
/// `interval` seconds have passed since the last one.
pub open spec fn refresh_due(timer: Option<u64>, interval: u64, now: u64) -> bool {
    match timer {
        None => true,
        Some(t) => elapsed(t, now) > interval,
    }
}

/// Whether a widget last refreshed at `timer` must refresh at `now`.
pub fn is_due(timer: Option<u64>, interval: u64, now: u64) -> (r: bool)
    ensures
        r == refresh_due(timer, interval, now),
{
    match timer {
        None => true,
        Some(t) => now >= t && now - t > interval,
    }
}

/// Exactly `interval` seconds after a refresh nothing is due; one second
/// later a refresh is due.
pub proof fn lemma_refresh_boundary(last: u64, interval: u64)
    requires
        last + interval + 1 <= u64::MAX,
    ensures
        !refresh_due(Some(last), interval, (last + interval) as u64),
        refresh_due(Some(last), interval, (last + interval + 1) as u64),
{
}

/// A widget with no recorded refresh is due at any time, whatever its
/// interval.
pub proof fn lemma_first_refresh_due(interval: u64, now: u64)
    ensures
        refresh_due(None, interval, now),
{
}

/// Right after a refresh recorded at `now`, nothing more is due at `now`.
pub proof fn lemma_no_second_refresh(interval: u64, now: u64)
    ensures
        !refresh_due(Some(now), interval, now),
{
}

} // verus!
