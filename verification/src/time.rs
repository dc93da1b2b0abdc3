//! Durations and timestamps as counts of nanoseconds, and their split into
//! hours, minutes and seconds.

use vstd::prelude::*;

verus! {

/// A duration, or a timestamp counted from the caller's origin, in
/// nanoseconds.
pub type Nanos = u128;

/// Nanoseconds in one second.
pub const NANOS_PER_SECOND: Nanos = 1_000_000_000;

/// The whole seconds in `d` nanoseconds.
pub open spec fn whole_seconds(d: nat) -> nat {
    d / 1_000_000_000
}

/// The whole hours in `d` nanoseconds.
pub open spec fn hours_of(d: nat) -> nat {
    whole_seconds(d) / 3600
}

/// The whole minutes in `d` nanoseconds beyond its whole hours.
pub open spec fn minutes_of(d: nat) -> nat {
    whole_seconds(d) % 3600 / 60
}

/// The whole seconds in `d` nanoseconds beyond its whole minutes.
pub open spec fn seconds_of(d: nat) -> nat {
    whole_seconds(d) % 60
}

/// The nanoseconds in `hours` hours, `minutes` minutes and `seconds`
/// seconds. Neither minutes nor seconds need stay below sixty.
pub open spec fn hms(hours: nat, minutes: nat, seconds: nat) -> nat {
    (hours * 3600 + minutes * 60 + seconds) * 1_000_000_000
}

/// Splitting a duration into hours, minutes and seconds and putting them
/// together again loses the fraction of a second and nothing else; minutes
/// and seconds of the split stay below sixty.
pub proof fn lemma_split_rejoins(d: nat)
    ensures
        minutes_of(d) < 60,
        seconds_of(d) < 60,
        hms(hours_of(d), minutes_of(d), seconds_of(d)) == whole_seconds(d) * 1_000_000_000,
        hms(hours_of(d), minutes_of(d), seconds_of(d)) <= d,
{
}

/// The duration of `hours` hours, `minutes` minutes and `seconds` seconds.
pub fn from_hms(hours: u64, minutes: u64, seconds: u64) -> (d: Nanos)
    ensures
        d == hms(hours as nat, minutes as nat, seconds as nat),
{
    let total: u128 = (hours as u128) * 3600 + (minutes as u128) * 60 + (seconds as u128);
    total * NANOS_PER_SECOND
}

/// The hours, minutes and seconds of `d`, in this order.
pub fn split_hms(d: Nanos) -> (parts: (u128, u128, u128))
    ensures
        parts.0 == hours_of(d as nat),
        parts.1 == minutes_of(d as nat),
        parts.2 == seconds_of(d as nat),
{
    let secs: u128 = d / NANOS_PER_SECOND;
    (secs / 3600, secs % 3600 / 60, secs % 60)
}

} // verus!
