use sky_notifications::civil::{CivilDate, CivilTime};
use sky_notifications::shard_eruption::{
    initialise_shard_eruption, ShardEruptionDates, ShardEruptionResponse,
};
use sky_notifications::sky_map::SkyMap;

fn date_of(timestamp: i64) -> CivilDate {
    CivilTime::from_timestamp(timestamp).unwrap().date().unwrap()
}

fn windows(shard: &ShardEruptionResponse) -> Vec<(i64, i64)> {
    shard.timestamps.iter().map(|w| (w.start, w.end)).collect()
}

#[test]
fn rotation_on_the_first_of_march() {
    // Friday 2024-03-01: an odd day, the first strong variant, the first realm.
    let rotation = initialise_shard_eruption();
    let shard = rotation.rotation_for(&date_of(1709280000)).unwrap();
    assert_eq!(shard.realm, "Daylight Prairie");
    assert_eq!(shard.sky_map, SkyMap::Cave);
    assert!(shard.strong);
    assert_eq!(shard.reward, 20);
    assert_eq!(
        shard.url,
        "https://cdn.thatskyapplication.com/daily_guides/shard_eruptions/cave.webp"
    );
    assert_eq!(
        windows(&shard),
        vec![
            (1709308120, 1709322520),
            (1709329720, 1709344120),
            (1709351320, 1709365720),
        ]
    );
}

#[test]
fn rotation_on_an_even_day_is_regular() {
    // Saturday 2024-03-02 falls under the second regular variant, which
    // leaves out Sunday and Monday.
    let rotation = initialise_shard_eruption();
    let shard = rotation.rotation_for(&date_of(1709366400)).unwrap();
    assert!(!shard.strong);
    assert_eq!(shard.realm, "Hidden Forest");
    assert_eq!(shard.sky_map, SkyMap::Boneyard);
    assert_eq!(shard.reward, 2000);
    let first = 1709366400 + 7800 + 520;
    assert_eq!(
        windows(&shard),
        vec![
            (first, first + 14400),
            (first + 28800, first + 28800 + 14400),
            (first + 57600, first + 57600 + 14400),
        ]
    );
}

#[test]
fn rotation_on_a_blackout_weekday_is_none() {
    // Monday 2024-04-01: day 1 falls under the first strong variant, which
    // leaves out Monday and Tuesday.
    let rotation = initialise_shard_eruption();
    let date = date_of(1711954800);
    assert_eq!((date.day, date.weekday), (1, 1));
    assert!(rotation.rotation_for(&date).is_none());
}

#[test]
fn rotation_has_three_ordered_windows_or_none_on_every_day_and_weekday() {
    let rotation = initialise_shard_eruption();
    let blackout: [(u32, u32); 5] = [(6, 7), (7, 1), (1, 2), (2, 3), (3, 4)];
    for day in 1..=31u32 {
        let variant = if day % 2 == 1 { ((day - 1) / 2) % 3 + 2 } else { (day / 2) % 2 };
        for weekday in 1..=7u32 {
            let date = CivilDate { day, weekday, midnight: 1709280000 };
            let left_out = blackout[variant as usize];
            match rotation.rotation_for(&date) {
                None => assert!(weekday == left_out.0 || weekday == left_out.1),
                Some(shard) => {
                    assert!(weekday != left_out.0 && weekday != left_out.1);
                    assert_eq!(shard.strong, day % 2 == 1);
                    assert_eq!(shard.timestamps.len(), 3);
                    for w in &shard.timestamps {
                        assert_eq!(w.end - w.start, 14400);
                    }
                    assert!(shard.timestamps[0].end <= shard.timestamps[1].start);
                    assert!(shard.timestamps[1].end <= shard.timestamps[2].start);
                    assert!(shard.timestamps[0].start > date.midnight);
                },
            }
        }
    }
}

#[test]
fn rotation_cycles_through_the_five_realms() {
    let rotation = initialise_shard_eruption();
    let realms = [
        "Daylight Prairie",
        "Hidden Forest",
        "Valley of Triumph",
        "Golden Wasteland",
        "Vault of Knowledge",
    ];
    for day in 1..=31u32 {
        // Friday is left out by no variant.
        let date = CivilDate { day, weekday: 5, midnight: 0 };
        let shard = rotation.rotation_for(&date).unwrap();
        assert_eq!(shard.realm, realms[((day - 1) % 5) as usize]);
    }
}

#[test]
fn rotation_tables_hold_the_maps_and_rewards() {
    let rotation = initialise_shard_eruption();
    let expect = |day: u32, map: SkyMap, reward: u32, first: i64| {
        let shard = rotation.rotation_for(&CivilDate { day, weekday: 5, midnight: 0 }).unwrap();
        assert_eq!(shard.sky_map, map);
        assert_eq!(shard.reward, reward);
        assert_eq!(shard.timestamps[0].start, first);
    };
    // Regular variants on the even days.
    expect(4, SkyMap::BrokenTemple, 2000, 6600 + 520);
    expect(2, SkyMap::Boneyard, 2000, 7800 + 520);
    expect(10, SkyMap::StarlightDesert, 2000, 7800 + 520);
    expect(8, SkyMap::IceRink, 2000, 6600 + 520);
    // Strong variants on the odd days.
    expect(7, SkyMap::ForestEnd, 25, 27600 + 520);
    expect(3, SkyMap::VillageOfDreams, 25, 8400 + 520);
    expect(9, SkyMap::CrabFields, 25, 8400 + 520);
    expect(5, SkyMap::JellyfishCove, 35, 12600 + 520);
    expect(11, SkyMap::SanctuaryIslands, 35, 12600 + 520);
    expect(17, SkyMap::ElevatedClearing, 35, 12600 + 520);
    expect(27, SkyMap::Treehouse, 35, 8400 + 520);
    expect(13, SkyMap::VillageOfDreams, 25, 27600 + 520);
    expect(19, SkyMap::Graveyard, 20, 27600 + 520);
    expect(23, SkyMap::HermitValley, 35, 12600 + 520);
    expect(29, SkyMap::ForgottenArk, 35, 12600 + 520);
    expect(6, SkyMap::KoiPond, 2000, 7800 + 520);
    expect(12, SkyMap::ForestBrook, 2000, 6600 + 520);
    expect(16, SkyMap::ButterflyFields, 2000, 6600 + 520);
    expect(14, SkyMap::Battlefield, 2000, 7800 + 520);
    expect(21, SkyMap::BirdNest, 25, 8400 + 520);
    expect(1, SkyMap::Cave, 20, 27600 + 520);
}

#[test]
fn rotation_is_the_same_when_asked_twice() {
    let rotation = initialise_shard_eruption();
    let date = date_of(1709280000);
    let first = rotation.rotation_for(&date).unwrap();
    let second = rotation.rotation_for(&date).unwrap();
    assert_eq!(first.realm, second.realm);
    assert_eq!(first.sky_map, second.sky_map);
    assert_eq!(windows(&first), windows(&second));
}

#[test]
fn rotation_of_the_present_day_is_a_rotation() {
    let rotation = initialise_shard_eruption();
    let now = CivilTime::now().unwrap();
    let expected = rotation.rotation_for(&now.date().unwrap());
    let shard = rotation.shard();
    // The day may change between the two readings of the clock; where the
    // answers are of one day, they agree.
    if let (Some(a), Some(b)) = (&expected, &shard) {
        if a.timestamps[0].start == b.timestamps[0].start {
            assert_eq!(a.sky_map, b.sky_map);
            assert_eq!(a.realm, b.realm);
        }
        assert_eq!(b.timestamps.len(), 3);
    }
}

#[test]
fn clone_of_an_eruption_keeps_every_field() {
    let shard = ShardEruptionResponse {
        realm: String::from("Hidden Forest"),
        sky_map: SkyMap::Treehouse,
        strong: true,
        reward: 35,
        timestamps: vec![
            ShardEruptionDates { start: 10, end: 20 },
            ShardEruptionDates { start: 30, end: 40 },
        ],
        url: String::from("u"),
    };
    let copy = shard.clone();
    assert_eq!(copy.realm, "Hidden Forest");
    assert_eq!(copy.sky_map, SkyMap::Treehouse);
    assert!(copy.strong);
    assert_eq!(copy.reward, 35);
    assert_eq!(windows(&copy), vec![(10, 20), (30, 40)]);
    assert_eq!(copy.url, "u");
}
