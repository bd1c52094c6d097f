use sky_notifications::notification::{
    fan_out, prepare_notification_to_send, subscriptions, Notification, NotificationNotify,
    NotificationPacket, NotificationType,
};
use sky_notifications::shard_eruption::{ShardEruptionDates, ShardEruptionResponse};
use sky_notifications::sky_map::SkyMap;

fn plain(kind: NotificationType, start_time: i64, time_until_start: u32) -> NotificationNotify {
    NotificationNotify {
        kind,
        start_time,
        end_time: None,
        time_until_start,
        shard_eruption: None,
        travelling_spirit_name: None,
    }
}

fn eruption(strong: bool, time_until_start: u32) -> NotificationNotify {
    NotificationNotify {
        kind: if strong {
            NotificationType::ShardEruptionStrong
        } else {
            NotificationType::ShardEruptionRegular
        },
        start_time: 1709308120,
        end_time: Some(1709322520),
        time_until_start,
        shard_eruption: Some(ShardEruptionResponse {
            realm: String::from("Daylight Prairie"),
            sky_map: SkyMap::BirdNest,
            strong,
            reward: 25,
            timestamps: vec![ShardEruptionDates { start: 1709308120, end: 1709322520 }],
            url: String::from("https://example.org/bird_nest.webp"),
        }),
        travelling_spirit_name: None,
    }
}

fn subscription(guild_id: u64, kind: NotificationType, offset: i16) -> Notification {
    Notification {
        guild_id,
        kind: kind.code(),
        channel_id: Some(guild_id + 1),
        role_id: Some(guild_id + 2),
        offset,
        sendable: true,
    }
}

fn packet(guild_id: &str, kind: i16, channel_id: Option<&str>, role_id: Option<&str>) -> NotificationPacket {
    NotificationPacket {
        guild_id: String::from(guild_id),
        kind,
        channel_id: channel_id.map(String::from),
        role_id: role_id.map(String::from),
        offset: 0,
        sendable: true,
    }
}

#[test]
fn kinds_are_numbered_in_order() {
    let kinds = [
        NotificationType::DailyReset,
        NotificationType::EyeOfEden,
        NotificationType::InternationalSpaceStation,
        NotificationType::Dragon,
        NotificationType::PollutedGeyser,
        NotificationType::Grandma,
        NotificationType::Turtle,
        NotificationType::ShardEruptionRegular,
        NotificationType::ShardEruptionStrong,
        NotificationType::Aurora,
        NotificationType::Passage,
        NotificationType::AviarysFireworkFestival,
        NotificationType::TravellingSpirit,
    ];
    for (i, kind) in kinds.iter().enumerate() {
        assert_eq!(kind.code(), i as i16);
        assert_eq!(kind.to_string(), format!("{}", i));
        assert_eq!(NotificationType::from_code(i as i16), Some(*kind));
    }
    assert_eq!(NotificationType::from_code(13), None);
    assert_eq!(NotificationType::from_code(-1), None);
}

#[test]
fn announcements_of_events_that_start_now() {
    let expect = |kind: NotificationType, text: &str| {
        assert_eq!(plain(kind, 1709280000, 0).suffix().unwrap(), text);
    };
    expect(NotificationType::DailyReset, "It's a new day. Time to forge candles again!");
    expect(NotificationType::EyeOfEden, "Sky kids may save statues in the Eye of Eden again!");
    expect(
        NotificationType::InternationalSpaceStation,
        "The International Space Station is accessible!",
    );
    expect(NotificationType::Dragon, "The dragon is appearing now!");
    expect(NotificationType::PollutedGeyser, "The Polluted Geyser is starting to erupt!");
    expect(NotificationType::Grandma, "Grandma has begun sharing her light!");
    expect(NotificationType::Turtle, "The turtle needs cleansing of darkness now!");
    expect(NotificationType::Aurora, "The AURORA concert is starting! Take your friends!");
    expect(NotificationType::Passage, "The Season of Passage quests are starting!");
    expect(NotificationType::AviarysFireworkFestival, "Aviary's Firework Festival is beginning!");
}

#[test]
fn announcements_of_events_that_are_still_to_come() {
    let expect = |kind: NotificationType, text: &str| {
        assert_eq!(plain(kind, 1709280000, 5).suffix().unwrap(), text);
    };
    expect(NotificationType::DailyReset, "A new day will begin in <t:1709280000:R>!");
    expect(
        NotificationType::EyeOfEden,
        "Statues in the Eye of Eden will reset <t:1709280000:R>!",
    );
    expect(
        NotificationType::InternationalSpaceStation,
        "The International Space Station will be accessible <t:1709280000:R>!",
    );
    expect(NotificationType::Dragon, "The dragon will appear <t:1709280000:R>!");
    expect(NotificationType::PollutedGeyser, "The Polluted Geyser will erupt <t:1709280000:R>!");
    expect(NotificationType::Grandma, "Grandma will share her light <t:1709280000:R>!");
    expect(
        NotificationType::Turtle,
        "The turtle will need cleansing of darkness <t:1709280000:R>!",
    );
    expect(
        NotificationType::Aurora,
        "The AURORA concert will start <t:1709280000:R>! Take your friends!",
    );
    expect(
        NotificationType::Passage,
        "The Season of Passage quests will start <t:1709280000:R>!",
    );
    expect(
        NotificationType::AviarysFireworkFestival,
        "Aviary's Firework Festival will begin <t:1709280000:R>!",
    );
}

#[test]
fn announcements_of_eruptions() {
    assert_eq!(
        eruption(false, 0).suffix().unwrap(),
        "A regular shard eruption is landing in the [Daylight Prairie (Bird Nest)](https://example.org/bird_nest.webp) and clears up <t:1709322520:R>!"
    );
    assert_eq!(
        eruption(false, 10).suffix().unwrap(),
        "A regular shard eruption lands in the [Daylight Prairie (Bird Nest)](https://example.org/bird_nest.webp) <t:1709308120:R> and clears up <t:1709322520:R>!"
    );
    assert_eq!(
        eruption(true, 0).suffix().unwrap(),
        "A strong shard eruption is landing in the [Daylight Prairie (Bird Nest)](https://example.org/bird_nest.webp) and clears up <t:1709322520:R>!"
    );
    assert_eq!(
        eruption(true, 3).suffix().unwrap(),
        "A strong shard eruption lands in the [Daylight Prairie (Bird Nest)](https://example.org/bird_nest.webp) <t:1709308120:R> and clears up <t:1709322520:R>!"
    );
}

#[test]
fn announcements_of_the_visitor() {
    let mut notify = plain(NotificationType::TravellingSpirit, 1709280000, 0);
    notify.travelling_spirit_name = Some(String::from("Saluting Protector"));
    assert_eq!(notify.suffix().unwrap(), "Saluting Protector has arrived!");
    notify.time_until_start = 15;
    assert_eq!(notify.suffix().unwrap(), "Saluting Protector will arrive <t:1709280000:R>!");
}

#[test]
fn occurrences_without_what_their_template_reads_have_no_announcement() {
    let visitor = plain(NotificationType::TravellingSpirit, 0, 0);
    assert!(!visitor.is_well_formed());
    assert!(visitor.suffix().is_none());
    let mut no_end = eruption(true, 0);
    no_end.end_time = None;
    assert!(!no_end.is_well_formed());
    assert!(no_end.suffix().is_none());
    let mut no_data = eruption(false, 0);
    no_data.shard_eruption = None;
    assert!(!no_data.is_well_formed());
    assert!(no_data.suffix().is_none());
    assert!(eruption(false, 0).is_well_formed());
    assert!(plain(NotificationType::DailyReset, 0, 0).is_well_formed());
}

#[test]
fn message_mentions_the_role_and_carries_the_token() {
    let sub = Notification {
        guild_id: 100,
        kind: NotificationType::Passage.code(),
        channel_id: Some(200),
        role_id: Some(300),
        offset: 0,
        sendable: true,
    };
    let message = sub.message(&plain(NotificationType::Passage, 1709280000, 0)).unwrap();
    assert_eq!(message.guild_id, 100);
    assert_eq!(message.channel_id, 200);
    assert_eq!(message.role_id, 300);
    assert_eq!(message.content, "<@&300> The Season of Passage quests are starting!");
    assert_eq!(message.nonce, "10-200");
}

#[test]
fn message_token_depends_on_kind_and_channel_only() {
    let sub = subscription(7, NotificationType::Aurora, 15);
    let first = sub.message(&plain(NotificationType::Aurora, 1000, 15)).unwrap();
    let second = sub.message(&plain(NotificationType::Aurora, 2000, 15)).unwrap();
    assert_eq!(first.nonce, "9-8");
    assert_eq!(first.nonce, second.nonce);
    assert_ne!(first.content, second.content);
}

#[test]
fn subscription_is_served_only_when_every_condition_holds() {
    let notify = plain(NotificationType::Grandma, 1709280000, 10);
    let good = subscription(1, NotificationType::Grandma, 10);
    assert!(good.is_eligible(NotificationType::Grandma, 10));
    assert!(good.message(&notify).is_some());

    let mut other_kind = good;
    other_kind.kind = NotificationType::Turtle.code();
    assert!(!other_kind.is_eligible(NotificationType::Grandma, 10));
    assert!(other_kind.message(&notify).is_none());

    let mut disabled = good;
    disabled.sendable = false;
    assert!(disabled.message(&notify).is_none());

    let mut no_channel = good;
    no_channel.channel_id = None;
    assert!(!no_channel.is_eligible(NotificationType::Grandma, 10));
    assert!(no_channel.message(&notify).is_none());

    let mut no_role = good;
    no_role.role_id = None;
    assert!(no_role.message(&notify).is_none());

    let mut earlier = good;
    earlier.offset = 9;
    assert!(earlier.message(&notify).is_none());
    let mut later = good;
    later.offset = 11;
    assert!(later.message(&notify).is_none());
    let mut negative = good;
    negative.offset = -10;
    assert!(negative.message(&notify).is_none());
}

#[test]
fn offset_fifteen_is_served_at_lead_fifteen_and_not_at_fourteen() {
    let subs = vec![subscription(1, NotificationType::Passage, 15)];
    let at_fifteen = fan_out(&subs, &plain(NotificationType::Passage, 1709280900, 15));
    assert_eq!(at_fifteen.len(), 1);
    assert_eq!(
        at_fifteen[0].content,
        "<@&3> The Season of Passage quests will start <t:1709280900:R>!"
    );
    let at_fourteen = fan_out(&subs, &plain(NotificationType::Passage, 1709280900, 14));
    assert!(at_fourteen.is_empty());
}

#[test]
fn fan_out_sends_one_message_to_each_served_subscription_in_order() {
    let mut disabled = subscription(3, NotificationType::Aurora, 0);
    disabled.sendable = false;
    let subs = vec![
        subscription(1, NotificationType::Aurora, 0),
        subscription(2, NotificationType::Aurora, 15),
        disabled,
        subscription(4, NotificationType::Turtle, 0),
        subscription(5, NotificationType::Aurora, 0),
    ];
    let messages = fan_out(&subs, &plain(NotificationType::Aurora, 1709280000, 0));
    let guilds: Vec<u64> = messages.iter().map(|m| m.guild_id).collect();
    assert_eq!(guilds, vec![1, 5]);
    assert_eq!(messages[1].channel_id, 6);
    assert_eq!(messages[1].nonce, "9-6");
}

#[test]
fn fan_out_of_an_occurrence_without_payload_sends_nothing() {
    let subs = vec![subscription(1, NotificationType::TravellingSpirit, 0)];
    let messages = fan_out(&subs, &plain(NotificationType::TravellingSpirit, 0, 0));
    assert!(messages.is_empty());
}

#[test]
fn fan_out_over_no_subscriptions_sends_nothing() {
    let messages = fan_out(&Vec::new(), &plain(NotificationType::DailyReset, 0, 0));
    assert!(messages.is_empty());
}

#[test]
fn rows_decode_to_subscriptions() {
    let row = packet("1234567890123456789", 4, Some("42"), Some("18446744073709551615"));
    let sub = Notification::from_packet(&row).unwrap();
    assert_eq!(sub.guild_id, 1234567890123456789);
    assert_eq!(sub.kind, 4);
    assert_eq!(sub.channel_id, Some(42));
    assert_eq!(sub.role_id, Some(18446744073709551615));
    assert_eq!(sub.offset, 0);
    assert!(sub.sendable);
}

#[test]
fn rows_without_channel_or_role_decode_to_unconfigured_subscriptions() {
    let sub = Notification::from_packet(&packet("5", 0, None, None)).unwrap();
    assert_eq!(sub.channel_id, None);
    assert_eq!(sub.role_id, None);
    assert!(!sub.is_eligible(NotificationType::DailyReset, 0));
}

#[test]
fn rows_with_malformed_ids_are_refused() {
    assert!(Notification::from_packet(&packet("", 0, Some("1"), Some("2"))).is_none());
    assert!(Notification::from_packet(&packet("abc", 0, Some("1"), Some("2"))).is_none());
    assert!(Notification::from_packet(&packet("0", 0, Some("1"), Some("2"))).is_none());
    assert!(Notification::from_packet(&packet("-1", 0, Some("1"), Some("2"))).is_none());
    assert!(Notification::from_packet(&packet("1 ", 0, Some("1"), Some("2"))).is_none());
    assert!(Notification::from_packet(&packet("1", 0, Some("x"), Some("2"))).is_none());
    assert!(Notification::from_packet(&packet("1", 0, Some("1"), Some(""))).is_none());
    assert!(Notification::from_packet(&packet("1", 0, Some("1"), Some("18446744073709551616"))).is_none());
    assert!(Notification::from_packet(&packet("+", 0, Some("1"), Some("2"))).is_none());
}

#[test]
fn ids_may_carry_a_plus_sign_and_leading_zeros() {
    let sub = Notification::from_packet(&packet("+7", 0, Some("007"), Some("+0012"))).unwrap();
    assert_eq!(sub.guild_id, 7);
    assert_eq!(sub.channel_id, Some(7));
    assert_eq!(sub.role_id, Some(12));
}

#[test]
fn decoding_a_table_drops_the_rows_that_do_not_decode() {
    let rows = vec![
        packet("1", 0, Some("11"), Some("12")),
        packet("oops", 0, Some("21"), Some("22")),
        packet("3", 0, Some("31"), Some("32")),
    ];
    let subs = subscriptions(&rows);
    let guilds: Vec<u64> = subs.iter().map(|s| s.guild_id).collect();
    assert_eq!(guilds, vec![1, 3]);
}

#[test]
fn prepared_messages_go_to_the_served_rows_only() {
    let mut wrong_offset = packet("2", 0, Some("21"), Some("22"));
    wrong_offset.offset = 15;
    let mut disabled = packet("4", 0, Some("41"), Some("42"));
    disabled.sendable = false;
    let rows = vec![
        packet("1", 0, Some("11"), Some("12")),
        wrong_offset,
        packet("3", 0, None, Some("32")),
        disabled,
        packet("bad", 0, Some("51"), Some("52")),
        packet("6", 1, Some("61"), Some("62")),
        packet("7", 0, Some("71"), Some("72")),
    ];
    let notify = plain(NotificationType::DailyReset, 1709280000, 0);
    let messages = prepare_notification_to_send(&rows, &notify);
    assert_eq!(messages.len(), 2);
    assert_eq!(messages[0].guild_id, 1);
    assert_eq!(messages[0].channel_id, 11);
    assert_eq!(messages[0].role_id, 12);
    assert_eq!(messages[0].content, "<@&12> It's a new day. Time to forge candles again!");
    assert_eq!(messages[0].nonce, "0-11");
    assert_eq!(messages[1].guild_id, 7);
    assert_eq!(messages[1].nonce, "0-71");
}

#[test]
fn clone_of_a_row_keeps_every_field() {
    let row = NotificationPacket {
        guild_id: String::from("9"),
        kind: 12,
        channel_id: Some(String::from("8")),
        role_id: None,
        offset: 15,
        sendable: false,
    };
    let copy = row.clone();
    assert_eq!(copy.guild_id, "9");
    assert_eq!(copy.kind, 12);
    assert_eq!(copy.channel_id, Some(String::from("8")));
    assert_eq!(copy.role_id, None);
    assert_eq!(copy.offset, 15);
    assert!(!copy.sendable);
}
