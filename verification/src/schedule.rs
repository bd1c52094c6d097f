//! The event predicates and the tick scheduler.
//!
//! Once a minute the scheduler reads the clock and asks every rule whether its
//! event is due: starting now, or starting in a number of minutes that the
//! rule announces. The rules of most kinds read the civil clock alone; the
//! eruption and the visitor are matched against instants.
//!
//! A rule announces an event during the minutes that lead up to it, counting
//! down by one each minute, and reports it as starting now in exactly one
//! minute.

use vstd::prelude::*;
use crate::civil::{days_in_month, last_day_of_month, CivilTime};
use crate::constants::{
    international_space_station_date,
    international_space_station_prior_date,
    is_space_station_date,
};
use crate::notification::{NotificationNotify, NotificationNotifyView, NotificationType};
use crate::shard_eruption::{
    rotation_for,
    ShardEruption,
    ShardEruptionResponse,
    ShardEruptionResponseView,
};
use crate::travelling_spirit::{TravellingSpirit, TravellingSpiritView};

verus! {

/// Minutes ahead of a landing that an eruption is announced.
pub const SHARD_ERUPTION_LEAD: i64 = 10;

/// Minutes ahead of an arrival that a visitor is announced.
pub const TRAVELLING_SPIRIT_LEAD: i64 = 15;

/// The lead time of an event that starts on the hour. It is due now in the
/// first minute of an hour in which it starts, and announced during the last
/// `window` minutes of the hour before.
pub open spec fn lead_to_hour(starts_now: bool, starts_next_hour: bool, window: int, minute: int)
    -> Option<int> {
    if minute == 0 && starts_now {
        Some(0)
    } else if minute >= 60 - window && starts_next_hour {
        Some(60 - minute)
    } else {
        None
    }
}

/// The lead time of an event that starts at minute `at` of an hour and is
/// announced from minute `from` of that hour on.
pub open spec fn lead_within_hour(in_this_hour: bool, from: int, at: int, minute: int) -> Option<
    int,
> {
    if in_this_hour && from <= minute <= at {
        Some(at - minute)
    } else {
        None
    }
}

/// Whether an event of the kind is due at a clock reading, and in how many
/// minutes it starts. The eruption and the visitor are not read off the clock.
///
/// - The daily reset starts at midnight and is announced 15 minutes ahead.
/// - The Eye of Eden resets at midnight before Sunday, announced 24 minutes ahead.
/// - The space station opens at midnight before the 6th, 14th, 22nd and 30th,
///   announced 15 minutes ahead.
/// - The geyser erupts 5 minutes into every even hour, announced 10 minutes ahead.
/// - Grandma comes 35 minutes and the turtle 50 minutes into every even hour,
///   each announced 10 minutes ahead.
/// - The concert starts with every even hour, announced 15 minutes ahead.
/// - The quests start every quarter of an hour, announced 5 minutes ahead.
/// - The festival runs on the first of the month, every four hours from
///   midnight to 20:00, each show announced 15 minutes ahead.
pub open spec fn clock_lead(kind: NotificationType, now: CivilTime) -> Option<int> {
    let day = now.day as int;
    let last_day = days_in_month(now.year as int, now.month as int);
    let weekday = now.weekday as int;
    let hour = now.hour as int;
    let minute = now.minute as int;
    match kind {
        NotificationType::DailyReset => lead_to_hour(hour == 0, hour == 23, 15, minute),
        NotificationType::EyeOfEden => lead_to_hour(
            weekday == 7 && hour == 0,
            weekday == 6 && hour == 23,
            24,
            minute,
        ),
        NotificationType::InternationalSpaceStation => lead_to_hour(
            is_space_station_date(day) && hour == 0,
            is_space_station_date(day + 1) && day < last_day && hour == 23,
            15,
            minute,
        ),
        NotificationType::PollutedGeyser => if hour % 2 == 1 {
            lead_within_hour(true, 55, 65, minute)
        } else {
            lead_within_hour(true, 0, 5, minute)
        },
        NotificationType::Grandma => lead_within_hour(hour % 2 == 0, 25, 35, minute),
        NotificationType::Turtle => lead_within_hour(hour % 2 == 0, 40, 50, minute),
        NotificationType::Aurora => lead_to_hour(hour % 2 == 0, hour % 2 == 1, 15, minute),
        NotificationType::Passage => if minute % 15 == 0 {
            Some(0)
        } else {
            lead_within_hour(true, 10, 15, minute % 15)
        },
        NotificationType::AviarysFireworkFestival => lead_to_hour(
            day == 1 && hour % 4 == 0,
            (day == 1 && hour % 4 == 3 && hour != 23) || (day == last_day && hour == 23),
            15,
            minute,
        ),
        NotificationType::Dragon => None,
        NotificationType::ShardEruptionRegular => None,
        NotificationType::ShardEruptionStrong => None,
        NotificationType::TravellingSpirit => None,
    }
}

/// The occurrence of a clock-driven kind that is due at a clock reading.
pub open spec fn clock_occurrence(kind: NotificationType, now: CivilTime) -> Option<
    NotificationNotifyView,
> {
    match clock_lead(kind, now) {
        Some(lead) => Some(
            NotificationNotifyView {
                kind,
                start_time: now.timestamp + 60 * lead,
                end_time: None,
                time_until_start: lead,
                shard_eruption: None,
                travelling_spirit_name: None,
            },
        ),
        None => None,
    }
}

/// Whether an event that starts at `start` is due at `now` when it is
/// announced `window` minutes ahead: it has not started more than a moment
/// ago and starts within the window. Instants are in seconds.
pub open spec fn due_within(start: int, now: int, window: int) -> bool {
    0 <= start - now < 60 * (window + 1)
}

/// Whole minutes from `now` to `start`.
pub open spec fn minutes_until(start: int, now: int) -> int {
    (start - now) / 60
}

/// The first window at or after index `from` whose opening is due at `now`.
pub open spec fn first_due_window(windows: Seq<(int, int)>, now: int, from: int) -> Option<int>
    decreases windows.len() - from,
{
    if from < 0 || from >= windows.len() {
        None
    } else if due_within(windows[from].0, now, SHARD_ERUPTION_LEAD as int) {
        Some(from)
    } else {
        first_due_window(windows, now, from + 1)
    }
}

/// The kind under which an eruption is announced.
pub open spec fn shard_eruption_kind(strong: bool) -> NotificationType {
    if strong {
        NotificationType::ShardEruptionStrong
    } else {
        NotificationType::ShardEruptionRegular
    }
}

/// The occurrence of the day's eruption that is due at `now`: its first
/// window that opens within the next 10 minutes.
pub open spec fn shard_eruption_occurrence(now: int, shard_data: Option<ShardEruptionResponseView>)
    -> Option<NotificationNotifyView> {
    match shard_data {
        Some(shard) => match first_due_window(shard.timestamps, now, 0) {
            Some(k) => Some(
                NotificationNotifyView {
                    kind: shard_eruption_kind(shard.strong),
                    start_time: shard.timestamps[k].0,
                    end_time: Some(shard.timestamps[k].1),
                    time_until_start: minutes_until(shard.timestamps[k].0, now),
                    shard_eruption: Some(shard),
                    travelling_spirit_name: None,
                },
            ),
            None => None,
        },
        None => None,
    }
}

/// The occurrence of the visitor that is due at `now`: the arrival lies
/// within the next 15 minutes.
pub open spec fn travelling_spirit_occurrence(now: int, spirit: TravellingSpiritView) -> Option<
    NotificationNotifyView,
> {
    if due_within(spirit.start as int, now, TRAVELLING_SPIRIT_LEAD as int) {
        Some(
            NotificationNotifyView {
                kind: NotificationType::TravellingSpirit,
                start_time: spirit.start as int,
                end_time: None,
                time_until_start: minutes_until(spirit.start as int, now),
                shard_eruption: None,
                travelling_spirit_name: Some(spirit.entity),
            },
        )
    } else {
        None
    }
}

/// An optional occurrence as a list of none or one.
pub open spec fn listed(occurrence: Option<NotificationNotifyView>) -> Seq<NotificationNotifyView> {
    match occurrence {
        Some(o) => seq![o],
        None => Seq::empty(),
    }
}

/// The contents of a list of occurrences.
pub open spec fn notifies_view(list: Seq<NotificationNotify>) -> Seq<NotificationNotifyView> {
    Seq::new(list.len(), |i: int| list[i]@)
}

/// The contents of an optional eruption.
pub open spec fn shard_data_view(shard_data: Option<ShardEruptionResponse>) -> Option<
    ShardEruptionResponseView,
> {
    match shard_data {
        Some(shard) => Some(shard@),
        None => None,
    }
}

/// Every occurrence that is due at a tick, in the order the rules are asked:
/// the eruption, the daily reset, the Eye of Eden, the space station, the
/// visitor, the quests, the concert, the geyser, grandma, the turtle and the
/// festival.
pub open spec fn due_occurrences(
    now: CivilTime,
    shard_data: Option<ShardEruptionResponseView>,
    spirit: TravellingSpiritView,
) -> Seq<NotificationNotifyView> {
    listed(shard_eruption_occurrence(now.timestamp as int, shard_data)) + listed(
        clock_occurrence(NotificationType::DailyReset, now),
    ) + listed(clock_occurrence(NotificationType::EyeOfEden, now)) + listed(
        clock_occurrence(NotificationType::InternationalSpaceStation, now),
    ) + listed(travelling_spirit_occurrence(now.timestamp as int, spirit)) + listed(
        clock_occurrence(NotificationType::Passage, now),
    ) + listed(clock_occurrence(NotificationType::Aurora, now)) + listed(
        clock_occurrence(NotificationType::PollutedGeyser, now),
    ) + listed(clock_occurrence(NotificationType::Grandma, now)) + listed(
        clock_occurrence(NotificationType::Turtle, now),
    ) + listed(clock_occurrence(NotificationType::AviarysFireworkFestival, now))
}

fn lead_to_hour_of(starts_now: bool, starts_next_hour: bool, window: u32, minute: u32) -> (r:
    Option<u32>)
    requires
        minute < 60,
        window <= 60,
    ensures
        r matches Some(lead) ==> lead_to_hour(
            starts_now,
            starts_next_hour,
            window as int,
            minute as int,
        ) == Some(lead as int),
        r is None ==> lead_to_hour(starts_now, starts_next_hour, window as int, minute as int)
            is None,
{
    if minute == 0 && starts_now {
        Some(0)
    } else if minute >= 60 - window && starts_next_hour {
        Some(60 - minute)
    } else {
        None
    }
}

fn lead_within_hour_of(in_this_hour: bool, from: u32, at: u32, minute: u32) -> (r: Option<u32>)
    ensures
        r matches Some(lead) ==> lead_within_hour(in_this_hour, from as int, at as int, minute as int)
            == Some(lead as int),
        r is None ==> lead_within_hour(in_this_hour, from as int, at as int, minute as int)
            is None,
{
    if in_this_hour && from <= minute && minute <= at {
        Some(at - minute)
    } else {
        None
    }
}

/// Asks the rule of a kind whether its event is due at a clock reading, and
/// in how many minutes it starts.
pub fn lead_time(kind: NotificationType, now: &CivilTime) -> (r: Option<u32>)
    requires
        now.valid(),
    ensures
        r matches Some(lead) ==> clock_lead(kind, *now) == Some(lead as int),
        r is None ==> clock_lead(kind, *now) is None,
{
    let day = now.day;
    let hour = now.hour;
    let minute = now.minute;
    match kind {
        NotificationType::DailyReset => lead_to_hour_of(hour == 0, hour == 23, 15, minute),
        NotificationType::EyeOfEden => lead_to_hour_of(
            now.weekday == 7 && hour == 0,
            now.weekday == 6 && hour == 23,
            24,
            minute,
        ),
        NotificationType::InternationalSpaceStation => {
            let last_day = last_day_of_month(now.year, now.month);
            lead_to_hour_of(
                international_space_station_date(day) && hour == 0,
                international_space_station_prior_date(day) && day < last_day && hour == 23,
                15,
                minute,
            )
        },
        NotificationType::PollutedGeyser => if hour % 2 == 1 {
            lead_within_hour_of(true, 55, 65, minute)
        } else {
            lead_within_hour_of(true, 0, 5, minute)
        },
        NotificationType::Grandma => lead_within_hour_of(hour % 2 == 0, 25, 35, minute),
        NotificationType::Turtle => lead_within_hour_of(hour % 2 == 0, 40, 50, minute),
        NotificationType::Aurora => lead_to_hour_of(hour % 2 == 0, hour % 2 == 1, 15, minute),
        NotificationType::Passage => if minute % 15 == 0 {
            Some(0)
        } else {
            lead_within_hour_of(true, 10, 15, minute % 15)
        },
        NotificationType::AviarysFireworkFestival => {
            let last_day = last_day_of_month(now.year, now.month);
            lead_to_hour_of(
                day == 1 && hour % 4 == 0,
                (day == 1 && hour % 4 == 3 && hour != 23) || (day == last_day && hour == 23),
                15,
                minute,
            )
        },
        NotificationType::Dragon => None,
        NotificationType::ShardEruptionRegular => None,
        NotificationType::ShardEruptionStrong => None,
        NotificationType::TravellingSpirit => None,
    }
}

/// The occurrence of a clock-driven kind that is due at a clock reading.
pub fn clock_notification(kind: NotificationType, now: &CivilTime) -> (r: Option<
    NotificationNotify,
>)
    requires
        now.valid(),
    ensures
        match r {
            Some(notify) => clock_occurrence(kind, *now) == Some(notify@),
            None => clock_occurrence(kind, *now) is None,
        },
{
    match lead_time(kind, now) {
        Some(lead) => {
            let start_time: i64 = now.timestamp + 60 * (lead as i64);
            Some(
                NotificationNotify {
                    kind,
                    start_time,
                    end_time: None,
                    time_until_start: lead,
                    shard_eruption: None,
                    travelling_spirit_name: None,
                },
            )
        },
        None => None,
    }
}

/// Whether an event that starts at `start` is due at `now` when it is
/// announced `window` minutes ahead, and in how many minutes it starts.
pub fn lead_until(start: i64, now: i64, window: i64) -> (r: Option<u32>)
    requires
        window <= u32::MAX,
    ensures
        r is Some <==> due_within(start as int, now as int, window as int),
        r matches Some(lead) ==> lead == minutes_until(start as int, now as int) && lead
            <= window,
{
    let remaining: i128 = (start as i128) - (now as i128);
    if 0 <= remaining && remaining < 60 * ((window as i128) + 1) {
        Some((remaining / 60) as u32)
    } else {
        None
    }
}

/// The occurrence of the day's eruption that is due at `now`.
pub fn shard_eruption_notification(now: i64, shard_data: &Option<ShardEruptionResponse>) -> (r:
    Option<NotificationNotify>)
    ensures
        match r {
            Some(notify) => shard_eruption_occurrence(now as int, shard_data_view(*shard_data))
                == Some(notify@),
            None => shard_eruption_occurrence(now as int, shard_data_view(*shard_data)) is None,
        },
{
    match shard_data {
        Some(shard) => {
            let mut k: usize = 0;
            while k < shard.timestamps.len()
                invariant
                    k <= shard.timestamps.len(),
                    *shard_data == Some(*shard),
                    shard@.timestamps.len() == shard.timestamps.len(),
                    first_due_window(shard@.timestamps, now as int, 0) == first_due_window(
                        shard@.timestamps,
                        now as int,
                        k as int,
                    ),
                decreases shard.timestamps.len() - k,
            {
                let dates = shard.timestamps[k];
                assert(shard@.timestamps[k as int] == (dates.start as int, dates.end as int));
                match lead_until(dates.start, now, SHARD_ERUPTION_LEAD) {
                    Some(lead) => {
                        let kind = if shard.strong {
                            NotificationType::ShardEruptionStrong
                        } else {
                            NotificationType::ShardEruptionRegular
                        };
                        let notify = NotificationNotify {
                            kind,
                            start_time: dates.start,
                            end_time: Some(dates.end),
                            time_until_start: lead,
                            shard_eruption: Some(shard.clone()),
                            travelling_spirit_name: None,
                        };
                        proof {
                            assert(first_due_window(shard@.timestamps, now as int, k as int)
                                == Some(k as int));
                            assert(shard_data_view(*shard_data) == Some(shard@));
                            assert(kind == shard_eruption_kind(shard@.strong));
                        }
                        return Some(notify);
                    },
                    None => {},
                }
                k += 1;
            }
            None
        },
        None => None,
    }
}

/// The occurrence of the visitor that is due at `now`.
pub fn travelling_spirit_notification(now: i64, travelling_spirit: &TravellingSpirit) -> (r:
    Option<NotificationNotify>)
    ensures
        match r {
            Some(notify) => travelling_spirit_occurrence(now as int, travelling_spirit@) == Some(
                notify@,
            ),
            None => travelling_spirit_occurrence(now as int, travelling_spirit@) is None,
        },
{
    match lead_until(travelling_spirit.start, now, TRAVELLING_SPIRIT_LEAD) {
        Some(lead) => Some(
            NotificationNotify {
                kind: NotificationType::TravellingSpirit,
                start_time: travelling_spirit.start,
                end_time: None,
                time_until_start: lead,
                shard_eruption: None,
                travelling_spirit_name: Some(travelling_spirit.entity.clone()),
            },
        ),
        None => None,
    }
}

fn push_listed(
    out: &mut Vec<NotificationNotify>,
    occurrence: Option<NotificationNotify>,
    Ghost(expected): Ghost<Option<NotificationNotifyView>>,
)
    requires
        match occurrence {
            Some(notify) => expected == Some(notify@),
            None => expected is None,
        },
    ensures
        notifies_view(final(out)@) == notifies_view(old(out)@) + listed(expected),
{
    match occurrence {
        Some(notify) => {
            out.push(notify);
            assert(notifies_view(out@) =~= notifies_view(old(out)@) + listed(expected));
        },
        None => {
            assert(notifies_view(out@) =~= notifies_view(old(out)@) + listed(expected));
        },
    }
}

fn push_clock(out: &mut Vec<NotificationNotify>, kind: NotificationType, now: &CivilTime)
    requires
        now.valid(),
    ensures
        notifies_view(final(out)@) == notifies_view(old(out)@) + listed(
            clock_occurrence(kind, *now),
        ),
{
    let occurrence = clock_notification(kind, now);
    push_listed(out, occurrence, Ghost(clock_occurrence(kind, *now)));
}

/// Evaluates every rule at one tick and collects the occurrences that are due.
pub fn due_notifications(
    now: &CivilTime,
    shard_data: &Option<ShardEruptionResponse>,
    travelling_spirit: &TravellingSpirit,
) -> (r: Vec<NotificationNotify>)
    requires
        now.valid(),
    ensures
        notifies_view(r@) == due_occurrences(
            *now,
            shard_data_view(*shard_data),
            travelling_spirit@,
        ),
{
    let mut notification_notifies: Vec<NotificationNotify> = Vec::new();
    assert(notifies_view(notification_notifies@) =~= Seq::empty());
    let shard = shard_eruption_notification(now.timestamp, shard_data);
    push_listed(
        &mut notification_notifies,
        shard,
        Ghost(shard_eruption_occurrence(now.timestamp as int, shard_data_view(*shard_data))),
    );
    assert(notifies_view(notification_notifies@) =~= listed(
        shard_eruption_occurrence(now.timestamp as int, shard_data_view(*shard_data)),
    ));
    push_clock(&mut notification_notifies, NotificationType::DailyReset, now);
    push_clock(&mut notification_notifies, NotificationType::EyeOfEden, now);
    push_clock(&mut notification_notifies, NotificationType::InternationalSpaceStation, now);
    let spirit = travelling_spirit_notification(now.timestamp, travelling_spirit);
    push_listed(
        &mut notification_notifies,
        spirit,
        Ghost(travelling_spirit_occurrence(now.timestamp as int, travelling_spirit@)),
    );
    push_clock(&mut notification_notifies, NotificationType::Passage, now);
    push_clock(&mut notification_notifies, NotificationType::Aurora, now);
    push_clock(&mut notification_notifies, NotificationType::PollutedGeyser, now);
    push_clock(&mut notification_notifies, NotificationType::Grandma, now);
    push_clock(&mut notification_notifies, NotificationType::Turtle, now);
    push_clock(&mut notification_notifies, NotificationType::AviarysFireworkFestival, now);
    notification_notifies
}

/// The eruption of the day that a clock reading falls on, where that day has
/// a midnight the library converts.
pub open spec fn rotation_at(now: CivilTime) -> Option<ShardEruptionResponseView> {
    match now.date_spec() {
        Some(date) => rotation_for(date),
        None => None,
    }
}

/// Whether a tick is the first of a civil day, at which the scheduler renews
/// what it knows of the day.
pub open spec fn is_refresh_due(now: CivilTime) -> bool {
    now.hour == 0 && now.minute == 0
}

/// The wait from an instant, given in milliseconds since the Unix epoch, to
/// the next full minute: 60000 on a full minute, less between two.
pub open spec fn wait_until_next_minute(now_millis: int) -> int {
    60_000 - now_millis % 60_000
}

/// How long the scheduler sleeps before its next tick, in milliseconds. The
/// wait ends on a full minute of the clock, whatever the instant it starts at.
pub fn millis_until_next_minute(now_millis: i64) -> (r: u64)
    ensures
        r == wait_until_next_minute(now_millis as int),
        1 <= r <= 60_000,
        (now_millis + r) % 60_000 == 0,
{
    let into_minute: i64 = now_millis % 60_000;
    if into_minute < 0 {
        (-into_minute) as u64
    } else {
        (60_000 - into_minute) as u64
    }
}

/// The tick scheduler's state between two ticks: the rotation table, the
/// eruption of the current day and the visit last heard of.
pub struct Scheduler {
    rotation: ShardEruption,
    shard_data: Option<ShardEruptionResponse>,
    travelling_spirit: TravellingSpirit,
}

impl Scheduler {
    /// The eruption the scheduler holds for the current day.
    pub closed spec fn shard_data(&self) -> Option<ShardEruptionResponseView> {
        shard_data_view(self.shard_data)
    }

    /// The visit the scheduler holds.
    pub closed spec fn travelling_spirit(&self) -> TravellingSpiritView {
        self.travelling_spirit@
    }

    fn rotation_of(rotation: &ShardEruption, now: &CivilTime) -> (r: Option<
        ShardEruptionResponse,
    >)
        requires
            now.valid(),
        ensures
            shard_data_view(r) == rotation_at(*now),
    {
        match now.date() {
            Some(date) => rotation.rotation_for(&date),
            None => None,
        }
    }

    /// Starts a scheduler at a clock reading. The eruption of the day is
    /// computed at once, not at the first midnight.
    pub fn new(rotation: ShardEruption, now: &CivilTime, travelling_spirit: TravellingSpirit) -> (s:
        Self)
        requires
            now.valid(),
        ensures
            s.shard_data() == rotation_at(*now),
            s.travelling_spirit() == travelling_spirit@,
    {
        let shard_data = Self::rotation_of(&rotation, now);
        Scheduler { rotation, shard_data, travelling_spirit }
    }

    /// Whether a tick is the first of a civil day.
    pub fn refresh_due(now: &CivilTime) -> (r: bool)
        ensures
            r == is_refresh_due(*now),
    {
        now.hour == 0 && now.minute == 0
    }

    /// Renews the state for the day of a clock reading: the eruption is
    /// computed anew and the visit replaced by the one given.
    pub fn refresh(&mut self, now: &CivilTime, travelling_spirit: TravellingSpirit)
        requires
            now.valid(),
        ensures
            final(self).shard_data() == rotation_at(*now),
            final(self).travelling_spirit() == travelling_spirit@,
    {
        let shard_data = Self::rotation_of(&self.rotation, now);
        self.shard_data = shard_data;
        self.travelling_spirit = travelling_spirit;
    }

    /// Evaluates every rule at one tick against the state as it stands.
    pub fn tick(&self, now: &CivilTime) -> (r: Vec<NotificationNotify>)
        requires
            now.valid(),
        ensures
            notifies_view(r@) == due_occurrences(*now, self.shard_data(), self.travelling_spirit()),
    {
        due_notifications(now, &self.shard_data, &self.travelling_spirit)
    }

    /// One pass of the scheduler after it woke: at the first tick of a day
    /// the state is renewed, with the visit just fetched where there is one,
    /// and then every rule is evaluated.
    pub fn wake(&mut self, now: &CivilTime, fetched: Option<TravellingSpirit>) -> (r: Vec<
        NotificationNotify,
    >)
        requires
            now.valid(),
        ensures
            final(self).shard_data() == if is_refresh_due(*now) {
                rotation_at(*now)
            } else {
                old(self).shard_data()
            },
            final(self).travelling_spirit() == match fetched {
                Some(spirit) => if is_refresh_due(*now) {
                    spirit@
                } else {
                    old(self).travelling_spirit()
                },
                None => old(self).travelling_spirit(),
            },
            notifies_view(r@) == due_occurrences(
                *now,
                final(self).shard_data(),
                final(self).travelling_spirit(),
            ),
    {
        if Self::refresh_due(now) {
            let shard_data = Self::rotation_of(&self.rotation, now);
            self.shard_data = shard_data;
            match fetched {
                Some(spirit) => {
                    self.travelling_spirit = spirit;
                },
                None => {},
            }
        }
        self.tick(now)
    }
}

/// Minutes ahead of its start that an event of the kind is first announced.
pub open spec fn announcement_window(kind: NotificationType) -> int {
    match kind {
        NotificationType::DailyReset => 15,
        NotificationType::EyeOfEden => 24,
        NotificationType::InternationalSpaceStation => 15,
        NotificationType::PollutedGeyser => 10,
        NotificationType::Grandma => 10,
        NotificationType::Turtle => 10,
        NotificationType::Aurora => 15,
        NotificationType::Passage => 5,
        NotificationType::AviarysFireworkFestival => 15,
        NotificationType::ShardEruptionRegular => SHARD_ERUPTION_LEAD as int,
        NotificationType::ShardEruptionStrong => SHARD_ERUPTION_LEAD as int,
        NotificationType::TravellingSpirit => TRAVELLING_SPIRIT_LEAD as int,
        NotificationType::Dragon => 0,
    }
}

/// Whether two clock readings fall on the same civil day.
pub open spec fn same_day(a: CivilTime, b: CivilTime) -> bool {
    b.year == a.year && b.month == a.month && b.day == a.day && b.weekday == a.weekday
}

/// Whether `b` is the reading of the civil minute right after that of `a`:
/// the next minute of the hour, else the first of the next hour, else the
/// first of the next day, on the next weekday and the next day of the month
/// or the first of the month after.
pub open spec fn next_minute(a: CivilTime, b: CivilTime) -> bool {
    if a.minute < 59 {
        same_day(a, b) && b.hour == a.hour && b.minute == a.minute + 1
    } else if a.hour < 23 {
        same_day(a, b) && b.hour == a.hour + 1 && b.minute == 0
    } else {
        &&& b.hour == 0
        &&& b.minute == 0
        &&& b.weekday == a.weekday % 7 + 1
        &&& if a.day < days_in_month(a.year as int, a.month as int) {
            b.year == a.year && b.month == a.month && b.day == a.day + 1
        } else {
            b.day == 1
        }
    }
}

/// Every lead time that a rule reports lies within the window of its kind.
pub proof fn lemma_clock_lead_in_window(kind: NotificationType, now: CivilTime)
    requires
        now.fields_valid(),
    ensures
        clock_lead(kind, now) matches Some(lead) ==> 0 <= lead <= announcement_window(kind),
{
}

/// From one civil minute to the next, the announcement of an event counts
/// down by exactly one minute, from the window of its kind to zero: no lead
/// time is skipped and none is reported twice, and an event is reported as
/// starting now in one minute only.
pub proof fn lemma_clock_countdown(kind: NotificationType, a: CivilTime, b: CivilTime)
    requires
        a.fields_valid(),
        b.fields_valid(),
        next_minute(a, b),
    ensures
        clock_lead(kind, a) matches Some(lead) ==> (lead > 0 ==> clock_lead(kind, b) == Some(
            lead - 1,
        )),
        clock_lead(kind, b) matches Some(lead) ==> (lead < announcement_window(kind)
            ==> clock_lead(kind, a) == Some(lead + 1)),
        clock_lead(kind, a) == Some(0int) ==> clock_lead(kind, b) != Some(0int),
{
}

/// Within one hour of one day, an event is reported as starting now in one
/// minute only; the quests, which start four times an hour, are reported a
/// quarter of an hour apart or more.
pub proof fn lemma_due_now_once(kind: NotificationType, a: CivilTime, b: CivilTime)
    requires
        a.fields_valid(),
        b.fields_valid(),
        same_day(a, b),
        a.hour == b.hour,
        clock_lead(kind, a) == Some(0int),
        clock_lead(kind, b) == Some(0int),
    ensures
        a.minute == b.minute || (kind == NotificationType::Passage && (a.minute - b.minute >= 15
            || b.minute - a.minute >= 15)),
{
}

/// The daily reset, the reset of the Eye of Eden and the opening of the space
/// station are reported as starting now at most once a day: at midnight.
pub proof fn lemma_due_now_once_a_day(kind: NotificationType, now: CivilTime)
    requires
        now.fields_valid(),
        kind == NotificationType::DailyReset || kind == NotificationType::EyeOfEden || kind
            == NotificationType::InternationalSpaceStation,
        clock_lead(kind, now) == Some(0int),
    ensures
        now.hour == 0,
        now.minute == 0,
{
}

/// What `first_due_window` finds: the first window from `from` on that is
/// due, none before it being due.
proof fn lemma_first_due_window(windows: Seq<(int, int)>, now: int, from: int)
    requires
        0 <= from,
    ensures
        match first_due_window(windows, now, from) {
            Some(k) => {
                &&& from <= k < windows.len()
                &&& due_within(windows[k].0, now, SHARD_ERUPTION_LEAD as int)
                &&& forall|j: int|
                    from <= j < k ==> !due_within(
                        (#[trigger] windows[j]).0,
                        now,
                        SHARD_ERUPTION_LEAD as int,
                    )
            },
            None => forall|j: int|
                from <= j < windows.len() ==> !due_within(
                    (#[trigger] windows[j]).0,
                    now,
                    SHARD_ERUPTION_LEAD as int,
                ),
        },
    decreases windows.len() - from,
{
    if from < windows.len() && !due_within(windows[from].0, now, SHARD_ERUPTION_LEAD as int) {
        lemma_first_due_window(windows, now, from + 1);
    }
}

/// Windows listed by the instant they open, earliest first.
pub open spec fn opens_in_order(windows: Seq<(int, int)>) -> bool {
    forall|i: int, j: int|
        0 <= i < j < windows.len() ==> (#[trigger] windows[i]).0 <= (#[trigger] windows[j]).0
}

/// From one tick to the next, a minute later, the announcement of an eruption
/// whose windows are listed in order counts down by exactly one minute, for
/// the same window; and a window reported as opening now is not reported
/// again.
pub proof fn lemma_shard_eruption_countdown(shard: ShardEruptionResponseView, now: int)
    requires
        opens_in_order(shard.timestamps),
    ensures
        shard_eruption_occurrence(now, Some(shard)) matches Some(due) ==> {
            &&& 0 <= due.time_until_start <= SHARD_ERUPTION_LEAD
            &&& due.time_until_start > 0 ==> shard_eruption_occurrence(now + 60, Some(shard))
                == Some(
                NotificationNotifyView { time_until_start: due.time_until_start - 1, ..due },
            )
            &&& due.time_until_start == 0 ==> !due_within(
                due.start_time,
                now + 60,
                SHARD_ERUPTION_LEAD as int,
            )
        },
{
    lemma_first_due_window(shard.timestamps, now, 0);
    lemma_first_due_window(shard.timestamps, now + 60, 0);
}

/// From one tick to the next, a minute later, the announcement of the visitor
/// counts down by exactly one minute; the arrival is reported as happening
/// now at one tick only.
pub proof fn lemma_travelling_spirit_countdown(spirit: TravellingSpiritView, now: int)
    ensures
        travelling_spirit_occurrence(now, spirit) matches Some(due) ==> {
            &&& 0 <= due.time_until_start <= TRAVELLING_SPIRIT_LEAD
            &&& due.time_until_start > 0 ==> travelling_spirit_occurrence(now + 60, spirit)
                == Some(
                NotificationNotifyView { time_until_start: due.time_until_start - 1, ..due },
            )
            &&& due.time_until_start == 0 ==> travelling_spirit_occurrence(now + 60, spirit)
                is None
        },
{
}

/// Evaluating the rules is a function of the frozen inputs: two evaluations
/// of one clock reading against one state report the same occurrences in the
/// same order.
pub proof fn lemma_evaluation_is_repeatable(
    first: Seq<NotificationNotify>,
    second: Seq<NotificationNotify>,
    now: CivilTime,
    shard_data: Option<ShardEruptionResponseView>,
    spirit: TravellingSpiritView,
)
    requires
        notifies_view(first) == due_occurrences(now, shard_data, spirit),
        notifies_view(second) == due_occurrences(now, shard_data, spirit),
    ensures
        notifies_view(first) == notifies_view(second),
        first.len() == second.len(),
        forall|i: int| 0 <= i < first.len() ==> (#[trigger] first[i])@ == second[i]@,
{
    assert(notifies_view(first).len() == first.len());
    assert(notifies_view(second).len() == second.len());
    assert forall|i: int| 0 <= i < first.len() implies (#[trigger] first[i])@ == second[i]@ by {
        assert(notifies_view(first)[i] == first[i]@);
        assert(notifies_view(second)[i] == second[i]@);
    }
}

} // verus!
