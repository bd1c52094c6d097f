//! Fixed values of the schedule and of message building.

use vstd::prelude::*;

verus! {

/// How many due occurrences the relay queue between the scheduler and the
/// dispatcher holds before the scheduler has to wait.
pub const MAXIMUM_CHANNEL_CAPACITY: usize = 10;

/// The host that serves the map images.
pub const CDN_URL: &'static str = "https://cdn.thatskyapplication.com";

/// Whether the space station opens on this day of the month: the 6th, 14th,
/// 22nd and 30th.
pub open spec fn is_space_station_date(day: int) -> bool {
    day == 6 || day == 14 || day == 22 || day == 30
}

/// Whether the relay queue is observed full, which operators want logged.
pub open spec fn is_saturated(queued: int) -> bool {
    queued >= MAXIMUM_CHANNEL_CAPACITY
}

/// Whether the space station opens on this day of the month.
pub fn international_space_station_date(day: u32) -> (r: bool)
    ensures
        r == is_space_station_date(day as int),
{
    day == 6 || day == 14 || day == 22 || day == 30
}

/// Whether the space station opens on the day after this day of the month,
/// counted within one month: the 5th, 13th, 21st and 29th.
pub fn international_space_station_prior_date(day: u32) -> (r: bool)
    ensures
        r == is_space_station_date(day + 1),
{
    day == 5 || day == 13 || day == 21 || day == 29
}

/// Whether a relay queue holding `queued` occurrences is full.
pub fn queue_saturated(queued: usize) -> (r: bool)
    ensures
        r == is_saturated(queued as int),
{
    queued >= MAXIMUM_CHANNEL_CAPACITY
}

} // verus!
