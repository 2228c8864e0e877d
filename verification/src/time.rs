//! Durations of std, by the number of nanoseconds they last.

use std::time::Duration;

use vstd::prelude::*;

verus! {

/// The nanoseconds that `Duration::as_nanos` gives for a duration.
pub uninterp spec fn duration_nanos(duration: Duration) -> nat;

/// The longest duration in nanoseconds: a `u64` of seconds and the nanoseconds
/// of one more, less one.
pub const MAX_DURATION_NANOS: u128 = 18_446_744_073_709_551_615_999_999_999;

/// `Duration::as_nanos`: the total number of nanoseconds, named
/// `duration_nanos`. A duration holds a `u64` of whole seconds and less than a
/// second beside them, which bounds the number.
pub assume_specification[ Duration::as_nanos ](duration: &Duration) -> (nanos: u128)
    ensures
        nanos == duration_nanos(*duration),
        nanos <= MAX_DURATION_NANOS,
;

/// `Duration::from_secs`: lasts exactly the given number of seconds.
pub assume_specification[ Duration::from_secs ](secs: u64) -> (duration: Duration)
    ensures
        duration_nanos(duration) == secs * 1_000_000_000,
;

/// `Duration::from_nanos`: lasts exactly the given number of nanoseconds.
pub assume_specification[ Duration::from_nanos ](nanos: u64) -> (duration: Duration)
    ensures
        duration_nanos(duration) == nanos,
;

/// The whole milliseconds of a duration.
pub open spec fn duration_millis(duration: Duration) -> nat {
    duration_nanos(duration) / 1_000_000
}

/// The milliseconds of a duration, as far as they fit.
pub open spec fn millis_of(duration: Duration) -> u64 {
    if duration_millis(duration) > u64::MAX {
        u64::MAX
    } else {
        duration_millis(duration) as u64
    }
}

/// The milliseconds of a duration, as far as they fit.
pub fn bounded_millis(duration: &Duration) -> (millis: u64)
    ensures
        millis == millis_of(*duration),
{
    let millis: u128 = duration.as_nanos() / 1_000_000;
    if millis > u64::MAX as u128 {
        u64::MAX
    } else {
        millis as u64
    }
}

/// The low 64 bits of the milliseconds of a duration.
pub open spec fn low_millis(duration: Duration) -> u64 {
    (duration_millis(duration) % 0x1_0000_0000_0000_0000) as u64
}

/// The moment that lies a duration after another, both in milliseconds. Of the
/// duration the low 64 bits count; the result stops at the greatest moment.
pub open spec fn moment_after(wall_time_millis: u64, duration: Duration) -> u64 {
    if wall_time_millis + low_millis(duration) > u64::MAX {
        u64::MAX
    } else {
        (wall_time_millis + low_millis(duration)) as u64
    }
}

/// The moment that lies a duration after another, both in milliseconds. Of the
/// duration the low 64 bits count; the result stops at the greatest moment.
pub fn after(wall_time_millis: u64, duration: &Duration) -> (moment: u64)
    ensures
        moment == moment_after(wall_time_millis, *duration),
{
    let millis: u128 = duration.as_nanos() / 1_000_000;
    let low: u64 = (millis % 0x1_0000_0000_0000_0000) as u64;
    wall_time_millis.saturating_add(low)
}

/// The wall time in milliseconds, from the time since the epoch: zero for a
/// clock that stands before the epoch.
pub fn wall_time_millis(since_epoch: Option<Duration>) -> (millis: u64)
    ensures
        millis == match since_epoch {
            Some(duration) => millis_of(duration),
            None => 0,
        },
{
    match since_epoch {
        Some(duration) => bounded_millis(&duration),
        None => 0,
    }
}

/// Whether a duration lasts no time at all.
pub fn is_zero(duration: &Duration) -> (zero: bool)
    ensures
        zero == (duration_nanos(*duration) == 0),
{
    duration.as_nanos() == 0
}

/// A millisecond is a million nanoseconds: what is left of a duration beside its whole
/// milliseconds is less than one. A duration whose milliseconds do not fit counts as the
/// longest that does.
pub proof fn law_milliseconds(duration: Duration)
    ensures
        duration_millis(duration) * 1_000_000 <= duration_nanos(duration),
        duration_nanos(duration) < (duration_millis(duration) + 1) * 1_000_000,
        duration_nanos(duration) / 1_000_000 <= u64::MAX ==> millis_of(duration) as nat
            == duration_nanos(duration) / 1_000_000,
        duration_nanos(duration) / 1_000_000 > u64::MAX ==> millis_of(duration) == u64::MAX,
{
}

/// A moment lies after another by the milliseconds of the duration, as long as both fit; it
/// never lies before it.
pub proof fn law_moments_follow(wall_time_millis: u64, duration: Duration)
    ensures
        moment_after(wall_time_millis, duration) >= wall_time_millis,
        wall_time_millis + duration_nanos(duration) / 1_000_000 <= u64::MAX ==> moment_after(
            wall_time_millis,
            duration,
        ) == wall_time_millis + duration_nanos(duration) / 1_000_000,
        duration_nanos(duration) / 1_000_000 <= u64::MAX && wall_time_millis + duration_nanos(
            duration,
        ) / 1_000_000 > u64::MAX ==> moment_after(wall_time_millis, duration) == u64::MAX,
{
}

} // verus!
