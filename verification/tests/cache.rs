use sky_notifications::cache::{ChangeEvent, Operation, SubscriptionCache};
use sky_notifications::notification::{
    fan_out, Notification, NotificationNotify, NotificationPacket, NotificationType,
};

fn subscription(guild_id: u64, kind: NotificationType, offset: i16) -> Notification {
    Notification {
        guild_id,
        kind: kind.code(),
        channel_id: Some(guild_id * 10),
        role_id: Some(guild_id * 100),
        offset,
        sendable: true,
    }
}

fn event(operation: Operation, subscription: Notification) -> ChangeEvent {
    ChangeEvent { operation, subscription }
}

fn packet(guild_id: &str, kind: i16, offset: i16) -> NotificationPacket {
    NotificationPacket {
        guild_id: String::from(guild_id),
        kind,
        channel_id: Some(String::from("10")),
        role_id: Some(String::from("20")),
        offset,
        sendable: true,
    }
}

fn guilds(list: &[Notification]) -> Vec<u64> {
    list.iter().map(|s| s.guild_id).collect()
}

#[test]
fn new_cache_is_empty() {
    let cache = SubscriptionCache::new();
    assert_eq!(cache.len(), 0);
    assert!(cache.get_eligible(NotificationType::DailyReset, 0).is_empty());
}

#[test]
fn insert_adds_a_subscription() {
    let mut cache = SubscriptionCache::new();
    cache.apply(&event(Operation::Insert, subscription(1, NotificationType::Aurora, 15)));
    assert_eq!(cache.len(), 1);
    assert_eq!(guilds(&cache.get_eligible(NotificationType::Aurora, 15)), vec![1]);
    assert!(cache.get_eligible(NotificationType::Aurora, 14).is_empty());
    assert!(cache.get_eligible(NotificationType::Aurora, 0).is_empty());
    assert!(cache.get_eligible(NotificationType::Passage, 15).is_empty());
}

#[test]
fn update_replaces_the_subscription_of_its_identity() {
    let mut cache = SubscriptionCache::new();
    cache.apply(&event(Operation::Insert, subscription(1, NotificationType::Aurora, 15)));
    cache.apply(&event(Operation::Insert, subscription(2, NotificationType::Aurora, 15)));
    cache.apply(&event(Operation::Update, subscription(1, NotificationType::Aurora, 5)));
    assert_eq!(cache.len(), 2);
    assert_eq!(guilds(&cache.get_eligible(NotificationType::Aurora, 15)), vec![2]);
    assert_eq!(guilds(&cache.get_eligible(NotificationType::Aurora, 5)), vec![1]);
}

#[test]
fn insert_of_a_known_identity_replaces_it() {
    let mut cache = SubscriptionCache::new();
    cache.apply(&event(Operation::Insert, subscription(1, NotificationType::Aurora, 15)));
    let mut changed = subscription(1, NotificationType::Aurora, 15);
    changed.channel_id = Some(777);
    cache.apply(&event(Operation::Insert, changed));
    assert_eq!(cache.len(), 1);
    let served = cache.get_eligible(NotificationType::Aurora, 15);
    assert_eq!(served.len(), 1);
    assert_eq!(served[0].channel_id, Some(777));
}

#[test]
fn delete_removes_the_destination_from_later_answers() {
    let mut cache = SubscriptionCache::new();
    cache.apply(&event(Operation::Insert, subscription(1, NotificationType::Turtle, 10)));
    cache.apply(&event(Operation::Insert, subscription(2, NotificationType::Turtle, 10)));
    let notify = NotificationNotify {
        kind: NotificationType::Turtle,
        start_time: 1709280000,
        end_time: None,
        time_until_start: 10,
        shard_eruption: None,
        travelling_spirit_name: None,
    };
    // What was planned before the delete stays as it is.
    let in_flight = fan_out(&cache.get_eligible(NotificationType::Turtle, 10), &notify);
    assert_eq!(in_flight.len(), 2);
    cache.apply(&event(Operation::Delete, subscription(1, NotificationType::Turtle, 10)));
    assert_eq!(in_flight.len(), 2);
    assert_eq!(in_flight[0].guild_id, 1);
    assert_eq!(cache.len(), 1);
    assert_eq!(guilds(&cache.get_eligible(NotificationType::Turtle, 10)), vec![2]);
    let after = fan_out(&cache.get_eligible(NotificationType::Turtle, 10), &notify);
    assert_eq!(after.len(), 1);
    assert_eq!(after[0].guild_id, 2);
}

#[test]
fn delete_goes_by_identity_not_by_the_other_fields() {
    let mut cache = SubscriptionCache::new();
    cache.apply(&event(Operation::Insert, subscription(1, NotificationType::Turtle, 10)));
    let mut snapshot = subscription(1, NotificationType::Turtle, 0);
    snapshot.channel_id = None;
    snapshot.sendable = false;
    cache.apply(&event(Operation::Delete, snapshot));
    assert_eq!(cache.len(), 0);
}

#[test]
fn delete_leaves_the_other_kinds_of_a_guild() {
    let mut cache = SubscriptionCache::new();
    cache.apply(&event(Operation::Insert, subscription(1, NotificationType::Turtle, 10)));
    cache.apply(&event(Operation::Insert, subscription(1, NotificationType::Grandma, 10)));
    cache.apply(&event(Operation::Delete, subscription(1, NotificationType::Turtle, 10)));
    assert!(cache.get_eligible(NotificationType::Turtle, 10).is_empty());
    assert_eq!(guilds(&cache.get_eligible(NotificationType::Grandma, 10)), vec![1]);
}

#[test]
fn delete_of_an_unknown_identity_changes_nothing() {
    let mut cache = SubscriptionCache::new();
    cache.apply(&event(Operation::Insert, subscription(1, NotificationType::Turtle, 10)));
    cache.apply(&event(Operation::Delete, subscription(9, NotificationType::Turtle, 10)));
    assert_eq!(cache.len(), 1);
}

#[test]
fn unconfigured_or_disabled_subscriptions_are_held_but_not_served() {
    let mut cache = SubscriptionCache::new();
    let mut no_role = subscription(1, NotificationType::Passage, 5);
    no_role.role_id = None;
    let mut disabled = subscription(2, NotificationType::Passage, 5);
    disabled.sendable = false;
    cache.apply(&event(Operation::Insert, no_role));
    cache.apply(&event(Operation::Insert, disabled));
    cache.apply(&event(Operation::Insert, subscription(3, NotificationType::Passage, 5)));
    assert_eq!(cache.len(), 3);
    assert_eq!(guilds(&cache.get_eligible(NotificationType::Passage, 5)), vec![3]);
}

#[test]
fn loading_a_table_keeps_the_last_row_of_each_identity() {
    let rows = vec![
        packet("1", 9, 15),
        packet("2", 9, 15),
        packet("not an id", 9, 15),
        packet("1", 9, 0),
        packet("1", 10, 15),
    ];
    let cache = SubscriptionCache::load(&rows);
    assert_eq!(cache.len(), 3);
    assert_eq!(guilds(&cache.get_eligible(NotificationType::Aurora, 15)), vec![2]);
    assert_eq!(guilds(&cache.get_eligible(NotificationType::Aurora, 0)), vec![1]);
    assert_eq!(guilds(&cache.get_eligible(NotificationType::Passage, 15)), vec![1]);
}

#[test]
fn change_events_decode_from_the_operation_name_and_the_row() {
    let row = packet("5", 6, 10);
    let insert = ChangeEvent::decode("insert", &row).unwrap();
    assert_eq!(insert.operation, Operation::Insert);
    assert_eq!(insert.subscription.guild_id, 5);
    assert_eq!(insert.subscription.kind, 6);
    assert_eq!(insert.subscription.channel_id, Some(10));
    assert_eq!(insert.subscription.role_id, Some(20));
    assert_eq!(insert.subscription.offset, 10);
    assert_eq!(ChangeEvent::decode("update", &row).unwrap().operation, Operation::Update);
    assert_eq!(ChangeEvent::decode("delete", &row).unwrap().operation, Operation::Delete);
}

#[test]
fn malformed_change_events_are_dropped() {
    let row = packet("5", 6, 10);
    assert!(ChangeEvent::decode("", &row).is_none());
    assert!(ChangeEvent::decode("truncate", &row).is_none());
    assert!(ChangeEvent::decode("DELETE", &row).is_none());
    assert!(ChangeEvent::decode("delete ", &row).is_none());
    assert!(ChangeEvent::decode("delete", &packet("five", 6, 10)).is_none());
    let mut cache = SubscriptionCache::new();
    if let Some(event) = ChangeEvent::decode("insert", &packet("", 6, 10)) {
        cache.apply(&event);
    }
    assert_eq!(cache.len(), 0);
}

#[test]
fn fan_out_over_the_eligible_equals_fan_out_over_all() {
    let all = vec![
        subscription(1, NotificationType::Grandma, 10),
        subscription(2, NotificationType::Grandma, 0),
        subscription(3, NotificationType::Turtle, 10),
        subscription(4, NotificationType::Grandma, 10),
    ];
    let mut cache = SubscriptionCache::new();
    for s in &all {
        cache.apply(&event(Operation::Insert, *s));
    }
    let notify = NotificationNotify {
        kind: NotificationType::Grandma,
        start_time: 1709280000,
        end_time: None,
        time_until_start: 10,
        shard_eruption: None,
        travelling_spirit_name: None,
    };
    let over_all = fan_out(&all, &notify);
    let over_eligible = fan_out(&cache.get_eligible(NotificationType::Grandma, 10), &notify);
    assert_eq!(over_all.len(), 2);
    assert_eq!(over_all.len(), over_eligible.len());
    for (a, b) in over_all.iter().zip(over_eligible.iter()) {
        assert_eq!(a.guild_id, b.guild_id);
        assert_eq!(a.content, b.content);
        assert_eq!(a.nonce, b.nonce);
    }
}
