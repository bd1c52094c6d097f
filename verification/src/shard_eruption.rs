//! The rotation calculator: which map carries the day's shard eruption, how
//! strong it is, what it rewards and in which three windows it lands.
//!
//! The rotation is a function of the civil date alone. The day of the month
//! picks one of five variants and one of five realms; the variant fixes the
//! weekdays without an eruption, the first landing after local midnight and
//! the spacing of the three landings.

use vstd::prelude::*;
use vstd::string::*;
use crate::civil::{CivilDate, CivilTime, MAX_TIMESTAMP};
use crate::constants::CDN_URL;
use crate::sky_map::SkyMap;

verus! {

/// Seconds from the start of a landing slot to the moment the shard lands.
pub const LANDING_DELAY: i64 = 520;

/// Seconds a window stays open once the shard has landed.
pub const WINDOW_DURATION: i64 = 14_400;

/// One window of an eruption: the instants it opens and closes, in seconds
/// since the Unix epoch.
#[derive(Clone, Copy, Debug)]
pub struct ShardEruptionDates {
    pub start: i64,
    pub end: i64,
}

/// The eruption of one day.
#[derive(Debug)]
pub struct ShardEruptionResponse {
    /// The realm the map lies in.
    pub realm: String,
    pub sky_map: SkyMap,
    /// Strong eruptions fall on odd days of the month, regular ones on even days.
    pub strong: bool,
    /// The reward in tenths of a unit.
    pub reward: u32,
    /// The windows of the day, earliest first.
    pub timestamps: Vec<ShardEruptionDates>,
    /// Where the image of the map is served.
    pub url: String,
}

/// The mathematical content of a `ShardEruptionResponse`.
pub struct ShardEruptionResponseView {
    pub realm: Seq<char>,
    pub sky_map: SkyMap,
    pub strong: bool,
    pub reward: int,
    /// Each window as its opening and closing instant.
    pub timestamps: Seq<(int, int)>,
    pub url: Seq<char>,
}

/// The windows of a list of dates as pairs of instants.
pub open spec fn windows_of(dates: Seq<ShardEruptionDates>) -> Seq<(int, int)> {
    Seq::new(dates.len(), |i: int| (dates[i].start as int, dates[i].end as int))
}

impl View for ShardEruptionResponse {
    type V = ShardEruptionResponseView;

    open spec fn view(&self) -> ShardEruptionResponseView {
        ShardEruptionResponseView {
            realm: self.realm@,
            sky_map: self.sky_map,
            strong: self.strong,
            reward: self.reward as int,
            timestamps: windows_of(self.timestamps@),
            url: self.url@,
        }
    }
}

impl Clone for ShardEruptionResponse {
    fn clone(&self) -> (r: Self)
        ensures
            r@ == self@,
    {
        let mut timestamps: Vec<ShardEruptionDates> = Vec::new();
        let mut i: usize = 0;
        while i < self.timestamps.len()
            invariant
                i <= self.timestamps.len(),
                timestamps@ == self.timestamps@.take(i as int),
            decreases self.timestamps.len() - i,
        {
            timestamps.push(self.timestamps[i]);
            i += 1;
            assert(timestamps@ =~= self.timestamps@.take(i as int));
        }
        assert(timestamps@ =~= self.timestamps@);
        ShardEruptionResponse {
            realm: self.realm.clone(),
            sky_map: self.sky_map,
            strong: self.strong,
            reward: self.reward,
            timestamps,
            url: self.url.clone(),
        }
    }
}

/// Windows that follow one another: each closes after it opens and no later
/// than the next one opens.
pub open spec fn windows_ordered(windows: Seq<(int, int)>) -> bool {
    &&& forall|i: int| 0 <= i < windows.len() ==> (#[trigger] windows[i]).0 < windows[i].1
    &&& forall|i: int, j: int|
        0 <= i < j < windows.len() ==> (#[trigger] windows[i]).1 <= (#[trigger] windows[j]).0
}

/// The address of the image of a map.
pub open spec fn map_url(sky_map: SkyMap) -> Seq<char> {
    CDN_URL@ + "/daily_guides/shard_eruptions/"@ + sky_map.slug_spec() + ".webp"@
}

/// The name of the realm with the given index.
pub open spec fn realm_name(realm: int) -> Seq<char> {
    if realm == 0 {
        "Daylight Prairie"@
    } else if realm == 1 {
        "Hidden Forest"@
    } else if realm == 2 {
        "Valley of Triumph"@
    } else if realm == 3 {
        "Golden Wasteland"@
    } else {
        "Vault of Knowledge"@
    }
}

/// Whether the eruption of a day of the month is a strong one.
pub open spec fn is_strong(day: int) -> bool {
    day % 2 == 1
}

/// The variant that a day of the month falls under: strong days cycle through
/// variants 2, 3 and 4, regular days alternate between variants 0 and 1.
pub open spec fn variant_index(day: int) -> int {
    if is_strong(day) {
        ((day - 1) / 2) % 3 + 2
    } else {
        (day / 2) % 2
    }
}

/// The realm that a day of the month falls in.
pub open spec fn realm_index(day: int) -> int {
    (day - 1) % 5
}

/// The two weekdays (1 for Monday up to 7 for Sunday) on which a variant has
/// no eruption.
pub open spec fn variant_blackout(variant: int) -> (int, int) {
    if variant == 0 {
        (6, 7)
    } else if variant == 1 {
        (7, 1)
    } else if variant == 2 {
        (1, 2)
    } else if variant == 3 {
        (2, 3)
    } else {
        (3, 4)
    }
}

/// Hours between the landings of a variant.
pub open spec fn variant_interval(variant: int) -> int {
    if variant == 0 || variant == 1 {
        8
    } else {
        6
    }
}

/// Milliseconds from local midnight to the first landing slot of a variant.
pub open spec fn variant_offset(variant: int) -> int {
    if variant == 0 {
        6_600_000
    } else if variant == 1 {
        7_800_000
    } else if variant == 2 {
        27_600_000
    } else if variant == 3 {
        8_400_000
    } else {
        12_600_000
    }
}

/// The map of each realm under a variant.
pub open spec fn variant_maps(variant: int) -> Seq<SkyMap> {
    if variant == 0 {
        seq![
            SkyMap::ButterflyFields,
            SkyMap::ForestBrook,
            SkyMap::IceRink,
            SkyMap::BrokenTemple,
            SkyMap::StarlightDesert,
        ]
    } else if variant == 1 {
        seq![
            SkyMap::KoiPond,
            SkyMap::Boneyard,
            SkyMap::IceRink,
            SkyMap::Battlefield,
            SkyMap::StarlightDesert,
        ]
    } else if variant == 2 {
        seq![
            SkyMap::Cave,
            SkyMap::ForestEnd,
            SkyMap::VillageOfDreams,
            SkyMap::Graveyard,
            SkyMap::JellyfishCove,
        ]
    } else if variant == 3 {
        seq![
            SkyMap::BirdNest,
            SkyMap::Treehouse,
            SkyMap::VillageOfDreams,
            SkyMap::CrabFields,
            SkyMap::JellyfishCove,
        ]
    } else {
        seq![
            SkyMap::SanctuaryIslands,
            SkyMap::ElevatedClearing,
            SkyMap::HermitValley,
            SkyMap::ForgottenArk,
            SkyMap::JellyfishCove,
        ]
    }
}

/// The reward of each realm under a variant, in tenths of a unit.
pub open spec fn variant_rewards(variant: int) -> Seq<int> {
    if variant == 0 || variant == 1 {
        seq![2000, 2000, 2000, 2000, 2000]
    } else if variant == 2 {
        seq![20, 25, 25, 20, 35]
    } else if variant == 3 {
        seq![25, 35, 25, 25, 35]
    } else {
        seq![35, 35, 35, 35, 35]
    }
}

/// Whether a variant has no eruption on a weekday.
pub open spec fn is_blackout(variant: int, weekday: int) -> bool {
    weekday == variant_blackout(variant).0 || weekday == variant_blackout(variant).1
}

/// The instant the `k`-th window of a day opens: local midnight, the variant's
/// offset, `k` intervals and the landing delay.
pub open spec fn window_start(midnight: int, variant: int, k: int) -> int {
    midnight + variant_offset(variant) / 1000 + k * (variant_interval(variant) * 3600)
        + LANDING_DELAY
}

/// The `k`-th window of a day.
pub open spec fn window(midnight: int, variant: int, k: int) -> (int, int) {
    (window_start(midnight, variant, k), window_start(midnight, variant, k) + WINDOW_DURATION)
}

/// The eruption of a civil day, or `None` on a day without one.
pub open spec fn rotation_for(date: CivilDate) -> Option<ShardEruptionResponseView> {
    let variant = variant_index(date.day as int);
    let realm = realm_index(date.day as int);
    if is_blackout(variant, date.weekday as int) {
        None
    } else {
        Some(
            ShardEruptionResponseView {
                realm: realm_name(realm),
                sky_map: variant_maps(variant)[realm],
                strong: is_strong(date.day as int),
                reward: variant_rewards(variant)[realm],
                timestamps: Seq::new(3, |k: int| window(date.midnight as int, variant, k)),
                url: map_url(variant_maps(variant)[realm]),
            },
        )
    }
}

/// The eruption of the civil day on which an instant falls, the instant given
/// in seconds since the Unix epoch: none where the instant has no reading,
/// where its day has no midnight the library converts, or where the day has
/// no eruption.
pub open spec fn rotation_at_instant(timestamp: int) -> Option<ShardEruptionResponseView> {
    match CivilTime::of_timestamp(timestamp) {
        Some(now) => match now.date_spec() {
            Some(date) => rotation_for(date),
            None => None,
        },
        None => None,
    }
}

/// The address of the image of a map.
pub fn shard_eruption_map_url(sky_map: SkyMap) -> (url: String)
    ensures
        url@ == map_url(sky_map),
{
    let mut url = String::from_str(CDN_URL);
    url.append("/daily_guides/shard_eruptions/");
    url.append(sky_map.slug());
    url.append(".webp");
    url
}

/// A map of a variant with its image and reward.
struct ShardEruptionMapData {
    sky_map: SkyMap,
    url: String,
    reward: u32,
}

/// One variant of the rotation.
struct ShardEruptionData {
    no_shard_weekday: [u32; 2],
    interval: u32,
    offset: u32,
    area: Vec<ShardEruptionMapData>,
}

/// The rotation table: the five variants.
pub struct ShardEruption {
    data: [ShardEruptionData; 5],
}

impl ShardEruptionMapData {
    spec fn agrees(self, variant: int, realm: int) -> bool {
        &&& self.sky_map == variant_maps(variant)[realm]
        &&& self.url@ == map_url(self.sky_map)
        &&& self.reward == variant_rewards(variant)[realm]
    }
}

impl ShardEruptionData {
    spec fn agrees(self, variant: int) -> bool {
        &&& self.no_shard_weekday[0] == variant_blackout(variant).0
        &&& self.no_shard_weekday[1] == variant_blackout(variant).1
        &&& self.interval == variant_interval(variant)
        &&& self.offset == variant_offset(variant)
        &&& self.area@.len() == 5
        &&& forall|realm: int| 0 <= realm < 5 ==> (#[trigger] self.area@[realm]).agrees(variant, realm)
    }
}

fn map_data(sky_map: SkyMap, reward: u32) -> (r: ShardEruptionMapData)
    ensures
        r.sky_map == sky_map,
        r.reward == reward,
        r.url@ == map_url(sky_map),
{
    ShardEruptionMapData { sky_map, url: shard_eruption_map_url(sky_map), reward }
}

fn realm_name_of(realm: usize) -> (name: &'static str)
    requires
        realm < 5,
    ensures
        name@ == realm_name(realm as int),
{
    if realm == 0 {
        "Daylight Prairie"
    } else if realm == 1 {
        "Hidden Forest"
    } else if realm == 2 {
        "Valley of Triumph"
    } else if realm == 3 {
        "Golden Wasteland"
    } else {
        "Vault of Knowledge"
    }
}

impl ShardEruption {
    /// The table holds, variant by variant and realm by realm, what
    /// `variant_blackout`, `variant_interval`, `variant_offset`,
    /// `variant_maps`, `variant_rewards` and `map_url` say. Every table does.
    #[verifier::type_invariant]
    pub closed spec fn tables_hold(self) -> bool {
        forall|variant: int| 0 <= variant < 5 ==> (#[trigger] self.data[variant]).agrees(variant)
    }

    /// The eruption of the given civil day.
    ///
    /// A day has an eruption exactly when its weekday is none of the two that
    /// its variant leaves out. An eruption has three windows of four hours,
    /// one after the other.
    pub fn rotation_for(&self, date: &CivilDate) -> (r: Option<ShardEruptionResponse>)
        requires
            date.valid(),
        ensures
            r is None <==> is_blackout(variant_index(date.day as int), date.weekday as int),
            match r {
                Some(shard) => rotation_for(*date) == Some(shard@),
                None => rotation_for(*date) is None,
            },
            r matches Some(shard) ==> shard.timestamps@.len() == 3 && windows_ordered(shard@.timestamps),
    {
        proof {
            use_type_invariant(self);
        }
        let day = date.day;
        let strong = day % 2 == 1;
        let info_index: u32 = if strong {
            ((day - 1) / 2) % 3 + 2
        } else {
            (day / 2) % 2
        };
        let variant = info_index as usize;
        assert(self.data[variant as int].agrees(variant as int));
        let shard_eruption = &self.data[variant];
        let no_shard_day = shard_eruption.no_shard_weekday[0] == date.weekday
            || shard_eruption.no_shard_weekday[1] == date.weekday;
        if no_shard_day {
            return None;
        }
        let realm_index = ((day - 1) % 5) as usize;
        assert(shard_eruption.area@[realm_index as int].agrees(variant as int, realm_index as int));
        let area = &shard_eruption.area[realm_index];
        let interval: i64 = (shard_eruption.interval as i64) * 3600;
        let first_slot: i64 = date.midnight + (shard_eruption.offset / 1000) as i64;
        let mut timestamps: Vec<ShardEruptionDates> = Vec::new();
        let mut start_time: i64 = first_slot;
        proof {
            lemma_window_start(date.midnight as int, variant as int, 0);
        }
        while timestamps.len() < 3
            invariant
                date.valid(),
                timestamps@.len() <= 3,
                0 <= variant < 5,
                interval == variant_interval(variant as int) * 3600,
                start_time + LANDING_DELAY == window_start(
                    date.midnight as int,
                    variant as int,
                    timestamps@.len() as int,
                ),
                forall|k: int|
                    0 <= k < timestamps@.len() ==> (#[trigger] timestamps@[k]).start
                        == window_start(date.midnight as int, variant as int, k)
                        && timestamps@[k].end == timestamps@[k].start + WINDOW_DURATION,
            decreases 3 - timestamps@.len(),
        {
            proof {
                lemma_window_start(date.midnight as int, variant as int, timestamps@.len() as int);
                lemma_window_start(
                    date.midnight as int,
                    variant as int,
                    timestamps@.len() as int + 1,
                );
            }
            let start = start_time + LANDING_DELAY;
            let end = start + WINDOW_DURATION;
            timestamps.push(ShardEruptionDates { start, end });
            start_time += interval;
        }
        let shard = ShardEruptionResponse {
            realm: String::from_str(realm_name_of(realm_index)),
            sky_map: area.sky_map,
            strong,
            reward: area.reward,
            timestamps,
            url: area.url.clone(),
        };
        proof {
            let expected = rotation_for(*date)->0;
            assert(shard@.timestamps =~= expected.timestamps);
            lemma_rotation_windows(*date);
        }
        Some(shard)
    }

    /// The eruption of the present day, read off the system clock.
    ///
    /// The clock decides which instant it is. Whatever it says, the answer is
    /// the one that `rotation_at_instant` gives for that instant: the
    /// eruption of the civil day the instant falls on, and none where that
    /// day has none or the instant has no reading.
    pub fn shard(&self) -> (r: Option<ShardEruptionResponse>)
        ensures
            exists|timestamp: int|
                #![trigger rotation_at_instant(timestamp)]
                match r {
                    Some(shard) => rotation_at_instant(timestamp) == Some(shard@),
                    None => rotation_at_instant(timestamp) is None,
                },
            r matches Some(shard) ==> exists|date: CivilDate|
                date.valid() && #[trigger] rotation_for(date) == Some(shard@),
            r matches Some(shard) ==> shard.timestamps@.len() == 3 && windows_ordered(
                shard@.timestamps,
            ),
    {
        match CivilTime::now() {
            Some(now) => {
                let r = match now.date() {
                    Some(date) => self.rotation_for(&date),
                    None => None,
                };
                proof {
                    let at = rotation_at_instant(now.timestamp as int);
                    assert(match r {
                        Some(shard) => at == Some(shard@),
                        None => at is None,
                    });
                }
                r
            },
            None => {
                proof {
                    assert(rotation_at_instant(MAX_TIMESTAMP + 1) is None);
                }
                None
            },
        }
    }
}

/// The opening of a window written out for the two spacings that occur.
proof fn lemma_window_start(midnight: int, variant: int, k: int)
    requires
        0 <= variant < 5,
    ensures
        variant_interval(variant) == 8 || variant_interval(variant) == 6,
        0 <= variant_offset(variant) / 1000 <= 27_600,
        variant_interval(variant) == 8 ==> window_start(midnight, variant, k) == midnight
            + variant_offset(variant) / 1000 + k * 28_800 + LANDING_DELAY,
        variant_interval(variant) == 6 ==> window_start(midnight, variant, k) == midnight
            + variant_offset(variant) / 1000 + k * 21_600 + LANDING_DELAY,
{
    if variant_interval(variant) == 8 {
        assert(k * (8 * 3600) == k * 28_800);
    } else {
        assert(k * (6 * 3600) == k * 21_600);
    }
}

/// On every day the rotation accepts, an eruption comes with exactly three
/// windows; each lasts four hours and closes before the next one opens.
pub proof fn lemma_rotation_windows(date: CivilDate)
    requires
        date.valid(),
    ensures
        rotation_for(date) is None <==> is_blackout(
            variant_index(date.day as int),
            date.weekday as int,
        ),
        rotation_for(date) matches Some(shard) ==> {
            &&& shard.timestamps.len() == 3
            &&& windows_ordered(shard.timestamps)
            &&& forall|k: int|
                0 <= k < 3 ==> (#[trigger] shard.timestamps[k]).1 == shard.timestamps[k].0
                    + WINDOW_DURATION
            &&& shard.timestamps[0].0 == date.midnight + variant_offset(
                variant_index(date.day as int),
            ) / 1000 + LANDING_DELAY
            &&& forall|k: int|
                0 <= k < 2 ==> (#[trigger] shard.timestamps[k + 1]).0 == shard.timestamps[k].0
                    + variant_interval(variant_index(date.day as int)) * 3600
        },
{
    let variant = variant_index(date.day as int);
    lemma_window_start(date.midnight as int, variant, 0);
    lemma_window_start(date.midnight as int, variant, 1);
    lemma_window_start(date.midnight as int, variant, 2);
}

/// The variant and the realm of every day of a month index the tables within
/// their five entries.
pub proof fn lemma_indices_in_bounds(day: int)
    requires
        1 <= day <= 31,
    ensures
        0 <= variant_index(day) < 5,
        0 <= realm_index(day) < 5,
        is_strong(day) <==> variant_index(day) >= 2,
{
}

/// The rotation table of the game.
pub fn initialise_shard_eruption() -> (r: ShardEruption)
    ensures
        r.tables_hold(),
{
    let regular_early = ShardEruptionData {
        no_shard_weekday: [6, 7],
        interval: 8,
        offset: 6600000,
        area: vec![
            map_data(SkyMap::ButterflyFields, 2000),
            map_data(SkyMap::ForestBrook, 2000),
            map_data(SkyMap::IceRink, 2000),
            map_data(SkyMap::BrokenTemple, 2000),
            map_data(SkyMap::StarlightDesert, 2000),
        ],
    };
    let regular_late = ShardEruptionData {
        no_shard_weekday: [7, 1],
        interval: 8,
        offset: 7800000,
        area: vec![
            map_data(SkyMap::KoiPond, 2000),
            map_data(SkyMap::Boneyard, 2000),
            map_data(SkyMap::IceRink, 2000),
            map_data(SkyMap::Battlefield, 2000),
            map_data(SkyMap::StarlightDesert, 2000),
        ],
    };
    let strong_first = ShardEruptionData {
        no_shard_weekday: [1, 2],
        interval: 6,
        offset: 27600000,
        area: vec![
            map_data(SkyMap::Cave, 20),
            map_data(SkyMap::ForestEnd, 25),
            map_data(SkyMap::VillageOfDreams, 25),
            map_data(SkyMap::Graveyard, 20),
            map_data(SkyMap::JellyfishCove, 35),
        ],
    };
    let strong_second = ShardEruptionData {
        no_shard_weekday: [2, 3],
        interval: 6,
        offset: 8400000,
        area: vec![
            map_data(SkyMap::BirdNest, 25),
            map_data(SkyMap::Treehouse, 35),
            map_data(SkyMap::VillageOfDreams, 25),
            map_data(SkyMap::CrabFields, 25),
            map_data(SkyMap::JellyfishCove, 35),
        ],
    };
    let strong_third = ShardEruptionData {
        no_shard_weekday: [3, 4],
        interval: 6,
        offset: 12600000,
        area: vec![
            map_data(SkyMap::SanctuaryIslands, 35),
            map_data(SkyMap::ElevatedClearing, 35),
            map_data(SkyMap::HermitValley, 35),
            map_data(SkyMap::ForgottenArk, 35),
            map_data(SkyMap::JellyfishCove, 35),
        ],
    };
    assert(regular_early.agrees(0));
    assert(regular_late.agrees(1));
    assert(strong_first.agrees(2));
    assert(strong_second.agrees(3));
    assert(strong_third.agrees(4));
    ShardEruption {
        data: [regular_early, regular_late, strong_first, strong_second, strong_third],
    }
}

} // verus!
