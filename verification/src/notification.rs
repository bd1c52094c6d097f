//! Event kinds, due occurrences, subscriptions and the messages that go out.
//!
//! A due occurrence is matched against every subscription: a subscription is
//! served when it is for the occurrence's kind, is enabled, names a channel
//! and a role, and asks for exactly the occurrence's lead time. Each served
//! subscription gets one message, rendered from the template of the kind.

use vstd::prelude::*;
use vstd::string::*;
use crate::shard_eruption::{ShardEruptionResponse, ShardEruptionResponseView};
use crate::text::{decimal, decimal_digits, push_decimal_i64, push_decimal_u64, unsigned_decimal};

verus! {

/// The kinds of event the schedule knows.
#[derive(Clone, Copy, Debug, PartialEq, Eq, Hash, Structural)]
pub enum NotificationType {
    DailyReset,
    EyeOfEden,
    InternationalSpaceStation,
    Dragon,
    PollutedGeyser,
    Grandma,
    Turtle,
    ShardEruptionRegular,
    ShardEruptionStrong,
    Aurora,
    Passage,
    AviarysFireworkFestival,
    TravellingSpirit,
}

impl NotificationType {
    /// The number under which the kind is stored and subscribed to.
    pub open spec fn code_spec(self) -> int {
        match self {
            NotificationType::DailyReset => 0,
            NotificationType::EyeOfEden => 1,
            NotificationType::InternationalSpaceStation => 2,
            NotificationType::Dragon => 3,
            NotificationType::PollutedGeyser => 4,
            NotificationType::Grandma => 5,
            NotificationType::Turtle => 6,
            NotificationType::ShardEruptionRegular => 7,
            NotificationType::ShardEruptionStrong => 8,
            NotificationType::Aurora => 9,
            NotificationType::Passage => 10,
            NotificationType::AviarysFireworkFestival => 11,
            NotificationType::TravellingSpirit => 12,
        }
    }

    /// Whether occurrences of the kind carry the day's eruption and a closing time.
    pub open spec fn is_shard_eruption(self) -> bool {
        self == NotificationType::ShardEruptionRegular || self
            == NotificationType::ShardEruptionStrong
    }

    /// The announcement of an occurrence that is happening now. Kinds whose
    /// announcement names a map or a visitor have their own templates.
    pub open spec fn now_text(self) -> Seq<char> {
        match self {
            NotificationType::DailyReset => "It's a new day. Time to forge candles again!"@,
            NotificationType::EyeOfEden => "Sky kids may save statues in the Eye of Eden again!"@,
            NotificationType::InternationalSpaceStation => "The International Space Station is accessible!"@,
            NotificationType::Dragon => "The dragon is appearing now!"@,
            NotificationType::PollutedGeyser => "The Polluted Geyser is starting to erupt!"@,
            NotificationType::Grandma => "Grandma has begun sharing her light!"@,
            NotificationType::Turtle => "The turtle needs cleansing of darkness now!"@,
            NotificationType::Aurora => "The AURORA concert is starting! Take your friends!"@,
            NotificationType::Passage => "The Season of Passage quests are starting!"@,
            NotificationType::AviarysFireworkFestival => "Aviary's Firework Festival is beginning!"@,
            _ => Seq::empty(),
        }
    }

    /// What stands before the start time in the announcement of an occurrence
    /// that is still to come.
    pub open spec fn soon_head(self) -> Seq<char> {
        match self {
            NotificationType::DailyReset => "A new day will begin in <t:"@,
            NotificationType::EyeOfEden => "Statues in the Eye of Eden will reset <t:"@,
            NotificationType::InternationalSpaceStation => "The International Space Station will be accessible <t:"@,
            NotificationType::Dragon => "The dragon will appear <t:"@,
            NotificationType::PollutedGeyser => "The Polluted Geyser will erupt <t:"@,
            NotificationType::Grandma => "Grandma will share her light <t:"@,
            NotificationType::Turtle => "The turtle will need cleansing of darkness <t:"@,
            NotificationType::Aurora => "The AURORA concert will start <t:"@,
            NotificationType::Passage => "The Season of Passage quests will start <t:"@,
            NotificationType::AviarysFireworkFestival => "Aviary's Firework Festival will begin <t:"@,
            _ => Seq::empty(),
        }
    }

    /// What stands after the start time in the announcement of an occurrence
    /// that is still to come.
    pub open spec fn soon_tail(self) -> Seq<char> {
        match self {
            NotificationType::Aurora => ":R>! Take your friends!"@,
            _ => ":R>!"@,
        }
    }

    /// The number under which the kind is stored and subscribed to.
    pub fn code(&self) -> (code: i16)
        ensures
            code == self.code_spec(),
    {
        match self {
            NotificationType::DailyReset => 0,
            NotificationType::EyeOfEden => 1,
            NotificationType::InternationalSpaceStation => 2,
            NotificationType::Dragon => 3,
            NotificationType::PollutedGeyser => 4,
            NotificationType::Grandma => 5,
            NotificationType::Turtle => 6,
            NotificationType::ShardEruptionRegular => 7,
            NotificationType::ShardEruptionStrong => 8,
            NotificationType::Aurora => 9,
            NotificationType::Passage => 10,
            NotificationType::AviarysFireworkFestival => 11,
            NotificationType::TravellingSpirit => 12,
        }
    }

    /// The kind stored under a number.
    pub fn from_code(code: i16) -> (kind: Option<NotificationType>)
        ensures
            kind matches Some(k) ==> k.code_spec() == code,
            kind is None <==> !(0 <= code <= 12),
    {
        match code {
            0 => Some(NotificationType::DailyReset),
            1 => Some(NotificationType::EyeOfEden),
            2 => Some(NotificationType::InternationalSpaceStation),
            3 => Some(NotificationType::Dragon),
            4 => Some(NotificationType::PollutedGeyser),
            5 => Some(NotificationType::Grandma),
            6 => Some(NotificationType::Turtle),
            7 => Some(NotificationType::ShardEruptionRegular),
            8 => Some(NotificationType::ShardEruptionStrong),
            9 => Some(NotificationType::Aurora),
            10 => Some(NotificationType::Passage),
            11 => Some(NotificationType::AviarysFireworkFestival),
            12 => Some(NotificationType::TravellingSpirit),
            _ => None,
        }
    }

    /// The kind written as its number, the form it takes in tokens and logs.
    pub fn to_string(&self) -> (s: String)
        ensures
            s@ == decimal(self.code_spec()),
    {
        let mut s = String::new();
        push_decimal_i64(&mut s, self.code() as i64);
        assert(s@ =~= decimal(self.code_spec()));
        s
    }

    fn now_str(&self) -> (s: &'static str)
        ensures
            s@ == self.now_text(),
    {
        match self {
            NotificationType::DailyReset => "It's a new day. Time to forge candles again!",
            NotificationType::EyeOfEden => "Sky kids may save statues in the Eye of Eden again!",
            NotificationType::InternationalSpaceStation => "The International Space Station is accessible!",
            NotificationType::Dragon => "The dragon is appearing now!",
            NotificationType::PollutedGeyser => "The Polluted Geyser is starting to erupt!",
            NotificationType::Grandma => "Grandma has begun sharing her light!",
            NotificationType::Turtle => "The turtle needs cleansing of darkness now!",
            NotificationType::Aurora => "The AURORA concert is starting! Take your friends!",
            NotificationType::Passage => "The Season of Passage quests are starting!",
            NotificationType::AviarysFireworkFestival => "Aviary's Firework Festival is beginning!",
            _ => {
                proof {
                    reveal_strlit("");
                }
                assert(""@ =~= Seq::<char>::empty());
                ""
            },
        }
    }

    fn soon_head_str(&self) -> (s: &'static str)
        ensures
            s@ == self.soon_head(),
    {
        match self {
            NotificationType::DailyReset => "A new day will begin in <t:",
            NotificationType::EyeOfEden => "Statues in the Eye of Eden will reset <t:",
            NotificationType::InternationalSpaceStation => "The International Space Station will be accessible <t:",
            NotificationType::Dragon => "The dragon will appear <t:",
            NotificationType::PollutedGeyser => "The Polluted Geyser will erupt <t:",
            NotificationType::Grandma => "Grandma will share her light <t:",
            NotificationType::Turtle => "The turtle will need cleansing of darkness <t:",
            NotificationType::Aurora => "The AURORA concert will start <t:",
            NotificationType::Passage => "The Season of Passage quests will start <t:",
            NotificationType::AviarysFireworkFestival => "Aviary's Firework Festival will begin <t:",
            _ => {
                proof {
                    reveal_strlit("");
                }
                assert(""@ =~= Seq::<char>::empty());
                ""
            },
        }
    }

    fn soon_tail_str(&self) -> (s: &'static str)
        ensures
            s@ == self.soon_tail(),
    {
        match self {
            NotificationType::Aurora => ":R>! Take your friends!",
            _ => ":R>!",
        }
    }
}

/// A due occurrence: an event of some kind that is happening now or about to.
#[derive(Debug)]
pub struct NotificationNotify {
    pub kind: NotificationType,
    /// The instant the event starts, in seconds since the Unix epoch.
    pub start_time: i64,
    /// The instant the event ends, for the kinds that have one.
    pub end_time: Option<i64>,
    /// Minutes until the start; 0 means the event is starting now. Also the
    /// lead time a subscription must ask for to be served.
    pub time_until_start: u32,
    /// The day's eruption, on occurrences of the two eruption kinds.
    pub shard_eruption: Option<ShardEruptionResponse>,
    /// The visitor's name, on occurrences of the visitor kind.
    pub travelling_spirit_name: Option<String>,
}

/// The mathematical content of a `NotificationNotify`.
pub struct NotificationNotifyView {
    pub kind: NotificationType,
    pub start_time: int,
    pub end_time: Option<int>,
    pub time_until_start: int,
    pub shard_eruption: Option<ShardEruptionResponseView>,
    pub travelling_spirit_name: Option<Seq<char>>,
}

impl View for NotificationNotify {
    type V = NotificationNotifyView;

    open spec fn view(&self) -> NotificationNotifyView {
        NotificationNotifyView {
            kind: self.kind,
            start_time: self.start_time as int,
            end_time: match self.end_time {
                Some(end) => Some(end as int),
                None => None,
            },
            time_until_start: self.time_until_start as int,
            shard_eruption: match self.shard_eruption {
                Some(shard) => Some(shard@),
                None => None,
            },
            travelling_spirit_name: match self.travelling_spirit_name {
                Some(name) => Some(name@),
                None => None,
            },
        }
    }
}

impl NotificationNotifyView {
    /// The occurrence carries what the template of its kind reads: the two
    /// eruption kinds the eruption and a closing time, the visitor kind a name.
    pub open spec fn well_formed(self) -> bool {
        &&& self.kind.is_shard_eruption() ==> self.shard_eruption is Some && self.end_time is Some
        &&& self.kind == NotificationType::TravellingSpirit ==> self.travelling_spirit_name is Some
    }

    /// The announcement of an eruption.
    pub open spec fn shard_eruption_text(self) -> Seq<char> {
        let shard = self.shard_eruption->0;
        let opening = if self.kind == NotificationType::ShardEruptionStrong {
            if self.time_until_start == 0 {
                "A strong shard eruption is landing in the ["@
            } else {
                "A strong shard eruption lands in the ["@
            }
        } else {
            if self.time_until_start == 0 {
                "A regular shard eruption is landing in the ["@
            } else {
                "A regular shard eruption lands in the ["@
            }
        };
        let place = opening + shard.realm + " ("@ + shard.sky_map.name_spec() + ")]("@ + shard.url;
        if self.time_until_start == 0 {
            place + ") and clears up <t:"@ + decimal(self.end_time->0) + ":R>!"@
        } else {
            place + ") <t:"@ + decimal(self.start_time) + ":R> and clears up <t:"@ + decimal(
                self.end_time->0,
            ) + ":R>!"@
        }
    }

    /// The announcement of a visitor.
    pub open spec fn travelling_spirit_text(self) -> Seq<char> {
        let name = self.travelling_spirit_name->0;
        if self.time_until_start == 0 {
            name + " has arrived!"@
        } else {
            name + " will arrive <t:"@ + decimal(self.start_time) + ":R>!"@
        }
    }

    /// The announcement of the occurrence: one wording when it is happening
    /// now, another, with the start time, when it is still to come.
    pub open spec fn suffix(self) -> Seq<char> {
        if self.kind.is_shard_eruption() {
            self.shard_eruption_text()
        } else if self.kind == NotificationType::TravellingSpirit {
            self.travelling_spirit_text()
        } else if self.time_until_start == 0 {
            self.kind.now_text()
        } else {
            self.kind.soon_head() + decimal(self.start_time) + self.kind.soon_tail()
        }
    }
}

impl NotificationNotify {
    /// Whether the occurrence carries what the template of its kind reads.
    pub fn is_well_formed(&self) -> (r: bool)
        ensures
            r == self@.well_formed(),
    {
        match self.kind {
            NotificationType::ShardEruptionRegular | NotificationType::ShardEruptionStrong => {
                self.shard_eruption.is_some() && self.end_time.is_some()
            },
            NotificationType::TravellingSpirit => self.travelling_spirit_name.is_some(),
            _ => true,
        }
    }

    fn shard_eruption_suffix(&self, shard: &ShardEruptionResponse, end_time: i64) -> (s: String)
        requires
            self.kind.is_shard_eruption(),
            self.shard_eruption == Some(*shard),
            self.end_time == Some(end_time),
        ensures
            s@ == self@.shard_eruption_text(),
    {
        let now = self.time_until_start == 0;
        let opening = match self.kind {
            NotificationType::ShardEruptionStrong => if now {
                "A strong shard eruption is landing in the ["
            } else {
                "A strong shard eruption lands in the ["
            },
            _ => if now {
                "A regular shard eruption is landing in the ["
            } else {
                "A regular shard eruption lands in the ["
            },
        };
        let mut s = String::from_str(opening);
        s.append(shard.realm.as_str());
        s.append(" (");
        s.append(shard.sky_map.name());
        s.append(")](");
        s.append(shard.url.as_str());
        if now {
            s.append(") and clears up <t:");
            push_decimal_i64(&mut s, end_time);
            s.append(":R>!");
        } else {
            s.append(") <t:");
            push_decimal_i64(&mut s, self.start_time);
            s.append(":R> and clears up <t:");
            push_decimal_i64(&mut s, end_time);
            s.append(":R>!");
        }
        s
    }

    fn travelling_spirit_suffix(&self, name: &String) -> (s: String)
        requires
            self.travelling_spirit_name == Some(*name),
        ensures
            s@ == self@.travelling_spirit_text(),
    {
        let mut s = name.clone();
        if self.time_until_start == 0 {
            s.append(" has arrived!");
        } else {
            s.append(" will arrive <t:");
            push_decimal_i64(&mut s, self.start_time);
            s.append(":R>!");
        }
        s
    }

    /// The announcement of the occurrence, or `None` where the occurrence
    /// lacks what the template of its kind reads.
    pub fn suffix(&self) -> (r: Option<String>)
        ensures
            r is Some <==> self@.well_formed(),
            r matches Some(s) ==> s@ == self@.suffix(),
    {
        match self.kind {
            NotificationType::ShardEruptionRegular | NotificationType::ShardEruptionStrong => {
                match (&self.shard_eruption, self.end_time) {
                    (Some(shard), Some(end_time)) => Some(
                        self.shard_eruption_suffix(shard, end_time),
                    ),
                    _ => None,
                }
            },
            NotificationType::TravellingSpirit => {
                match &self.travelling_spirit_name {
                    Some(name) => Some(self.travelling_spirit_suffix(name)),
                    None => None,
                }
            },
            _ => {
                if self.time_until_start == 0 {
                    Some(String::from_str(self.kind.now_str()))
                } else {
                    let mut s = String::from_str(self.kind.soon_head_str());
                    push_decimal_i64(&mut s, self.start_time);
                    s.append(self.kind.soon_tail_str());
                    Some(s)
                }
            },
        }
    }
}

/// The id that a text writes: a decimal number from 1 to the largest 64-bit
/// number. The chat platform names guilds, channels and roles by such ids.
pub open spec fn snowflake(text: Seq<char>) -> Option<u64> {
    match unsigned_decimal(text) {
        Some(value) => if 0 < value <= u64::MAX {
            Some(value as u64)
        } else {
            None
        },
        None => None,
    }
}

/// Parses a guild id with serenity's `GuildId::from_str`.
///
/// Trusted: serenity hands the text to the standard library's parser of
/// non-zero 64-bit numbers, which reads an optional plus sign followed by
/// decimal digits only and refuses zero and numbers that do not fit; the
/// result is the id that `snowflake` describes, `None` standing for refusal.
#[verifier::external_body]
fn parse_guild_id(text: &str) -> (r: Option<u64>)
    ensures
        r == snowflake(text@),
{
    match text.parse::<serenity::model::id::GuildId>() {
        Ok(id) => Some(id.get()),
        Err(_) => None,
    }
}

/// Parses a channel id with serenity's `ChannelId::from_str`.
///
/// Trusted: as for guild ids, the result is the id that `snowflake`
/// describes, `None` standing for refusal.
#[verifier::external_body]
fn parse_channel_id(text: &str) -> (r: Option<u64>)
    ensures
        r == snowflake(text@),
{
    match text.parse::<serenity::model::id::ChannelId>() {
        Ok(id) => Some(id.get()),
        Err(_) => None,
    }
}

/// Parses a role id with serenity's `RoleId::from_str`.
///
/// Trusted: as for guild ids, the result is the id that `snowflake`
/// describes, `None` standing for refusal.
#[verifier::external_body]
fn parse_role_id(text: &str) -> (r: Option<u64>)
    ensures
        r == snowflake(text@),
{
    match text.parse::<serenity::model::id::RoleId>() {
        Ok(id) => Some(id.get()),
        Err(_) => None,
    }
}

/// A subscription as the backing store hands it out: one destination's
/// settings for one kind of event, ids still in text.
#[derive(Debug)]
pub struct NotificationPacket {
    /// The guild that subscribed.
    pub guild_id: String,
    /// The number of the kind subscribed to.
    pub kind: i16,
    /// The channel to post in, where one is set.
    pub channel_id: Option<String>,
    /// The role to mention, where one is set.
    pub role_id: Option<String>,
    /// The lead time in minutes at which the destination wants to be told.
    pub offset: i16,
    /// Whether delivery is enabled.
    pub sendable: bool,
}

/// The mathematical content of a `NotificationPacket`.
pub struct NotificationPacketView {
    pub guild_id: Seq<char>,
    pub kind: i16,
    pub channel_id: Option<Seq<char>>,
    pub role_id: Option<Seq<char>>,
    pub offset: i16,
    pub sendable: bool,
}

impl View for NotificationPacket {
    type V = NotificationPacketView;

    open spec fn view(&self) -> NotificationPacketView {
        NotificationPacketView {
            guild_id: self.guild_id@,
            kind: self.kind,
            channel_id: match self.channel_id {
                Some(text) => Some(text@),
                None => None,
            },
            role_id: match self.role_id {
                Some(text) => Some(text@),
                None => None,
            },
            offset: self.offset,
            sendable: self.sendable,
        }
    }
}

fn clone_text(text: &Option<String>) -> (r: Option<String>)
    ensures
        r == *text,
{
    match text {
        Some(text) => Some(text.clone()),
        None => None,
    }
}

impl Clone for NotificationPacket {
    fn clone(&self) -> (r: Self)
        ensures
            r@ == self@,
    {
        NotificationPacket {
            guild_id: self.guild_id.clone(),
            kind: self.kind,
            channel_id: clone_text(&self.channel_id),
            role_id: clone_text(&self.role_id),
            offset: self.offset,
            sendable: self.sendable,
        }
    }
}

/// A subscription: one destination's settings for one kind of event.
#[derive(Clone, Copy, Debug)]
pub struct Notification {
    /// The guild that subscribed.
    pub guild_id: u64,
    /// The number of the kind subscribed to.
    pub kind: i16,
    /// The channel to post in, where one is set.
    pub channel_id: Option<u64>,
    /// The role to mention, where one is set.
    pub role_id: Option<u64>,
    /// The lead time in minutes at which the destination wants to be told.
    pub offset: i16,
    /// Whether delivery is enabled.
    pub sendable: bool,
}

/// What goes to the message client for one destination.
#[derive(Debug)]
pub struct Message {
    /// The guild the message is for.
    pub guild_id: u64,
    /// The channel to post in.
    pub channel_id: u64,
    /// The one role the message may mention.
    pub role_id: u64,
    /// The text: the mention of the role, a space and the announcement.
    pub content: String,
    /// The token by which the client recognises a repeated submission: the
    /// number of the kind, a hyphen and the channel.
    pub nonce: String,
}

/// The mathematical content of a `Message`.
pub struct MessageView {
    pub guild_id: u64,
    pub channel_id: u64,
    pub role_id: u64,
    pub content: Seq<char>,
    pub nonce: Seq<char>,
}

impl View for Message {
    type V = MessageView;

    open spec fn view(&self) -> MessageView {
        MessageView {
            guild_id: self.guild_id,
            channel_id: self.channel_id,
            role_id: self.role_id,
            content: self.content@,
            nonce: self.nonce@,
        }
    }
}

/// The contents of a list of messages.
pub open spec fn messages_view(list: Seq<Message>) -> Seq<MessageView> {
    Seq::new(list.len(), |i: int| list[i]@)
}

/// The id that an optional text writes: no text is no id, a text that writes
/// an id is that id, and any other text is refused.
pub open spec fn optional_snowflake(text: Option<Seq<char>>) -> Option<Option<u64>> {
    match text {
        None => Some(None),
        Some(text) => match snowflake(text) {
            Some(id) => Some(Some(id)),
            None => None,
        },
    }
}

/// The subscription that a stored row decodes to, or `None` where one of its
/// ids is malformed.
pub open spec fn notification_of(packet: NotificationPacketView) -> Option<Notification> {
    match (
        snowflake(packet.guild_id),
        optional_snowflake(packet.channel_id),
        optional_snowflake(packet.role_id),
    ) {
        (Some(guild_id), Some(channel_id), Some(role_id)) => Some(
            Notification {
                guild_id,
                kind: packet.kind,
                channel_id,
                role_id,
                offset: packet.offset,
                sendable: packet.sendable,
            },
        ),
        _ => None,
    }
}

/// The idempotency token of a message of a kind to a channel.
pub open spec fn nonce_for(kind: NotificationType, channel_id: u64) -> Seq<char> {
    decimal(kind.code_spec()) + "-"@ + decimal_digits(channel_id as nat)
}

/// The text of a message that mentions a role and makes an announcement.
pub open spec fn content_for(role_id: u64, suffix: Seq<char>) -> Seq<char> {
    "<@&"@ + decimal_digits(role_id as nat) + "> "@ + suffix
}

impl Notification {
    /// Whether the subscription is served by an occurrence of a kind with a
    /// lead time: it is for that kind, it is enabled, it names a channel and
    /// a role, and its offset is exactly the lead time.
    pub open spec fn eligible(self, kind: NotificationType, lead: int) -> bool {
        &&& self.kind == kind.code_spec()
        &&& self.sendable
        &&& self.channel_id is Some
        &&& self.role_id is Some
        &&& self.offset == lead
    }

    /// The message that an occurrence sends to the subscription's destination.
    pub open spec fn message_for(self, notify: NotificationNotifyView) -> MessageView {
        MessageView {
            guild_id: self.guild_id,
            channel_id: self.channel_id->0,
            role_id: self.role_id->0,
            content: content_for(self.role_id->0, notify.suffix()),
            nonce: nonce_for(notify.kind, self.channel_id->0),
        }
    }

    /// Decodes a stored row. A row with a malformed id is refused.
    pub fn from_packet(packet: &NotificationPacket) -> (r: Option<Notification>)
        ensures
            r == notification_of(packet@),
    {
        let guild_id = match parse_guild_id(packet.guild_id.as_str()) {
            Some(id) => id,
            None => {
                return None;
            },
        };
        let channel_id = match &packet.channel_id {
            Some(text) => match parse_channel_id(text.as_str()) {
                Some(id) => Some(id),
                None => {
                    return None;
                },
            },
            None => None,
        };
        let role_id = match &packet.role_id {
            Some(text) => match parse_role_id(text.as_str()) {
                Some(id) => Some(id),
                None => {
                    return None;
                },
            },
            None => None,
        };
        Some(
            Notification {
                guild_id,
                kind: packet.kind,
                channel_id,
                role_id,
                offset: packet.offset,
                sendable: packet.sendable,
            },
        )
    }

    /// Whether the subscription is served by a due occurrence.
    pub fn is_eligible(&self, kind: NotificationType, lead: u32) -> (r: bool)
        ensures
            r == self.eligible(kind, lead as int),
    {
        self.kind == kind.code() && self.sendable && self.channel_id.is_some()
            && self.role_id.is_some() && self.offset >= 0 && (self.offset as u32) == lead
    }

    /// The message that a due occurrence sends to this subscription's
    /// destination, where the subscription is served by it and the occurrence
    /// carries what its template reads.
    pub fn message(&self, notify: &NotificationNotify) -> (r: Option<Message>)
        ensures
            r is Some <==> self.eligible(notify.kind, notify.time_until_start as int)
                && notify@.well_formed(),
            r matches Some(m) ==> m@ == self.message_for(notify@),
    {
        if !self.is_eligible(notify.kind, notify.time_until_start) {
            return None;
        }
        match (self.channel_id, self.role_id, notify.suffix()) {
            (Some(channel_id), Some(role_id), Some(suffix)) => {
                let mut content = String::from_str("<@&");
                push_decimal_u64(&mut content, role_id);
                content.append("> ");
                content.append(suffix.as_str());
                let mut nonce = notify.kind.to_string();
                nonce.append("-");
                push_decimal_u64(&mut nonce, channel_id);
                Some(Message { guild_id: self.guild_id, channel_id, role_id, content, nonce })
            },
            _ => None,
        }
    }
}

/// The subscriptions that a list of stored rows decodes to, in the order of
/// the rows; rows with a malformed id are dropped.
pub open spec fn subscriptions_of(packets: Seq<NotificationPacketView>) -> Seq<Notification>
    decreases packets.len(),
{
    if packets.len() == 0 {
        Seq::empty()
    } else {
        let before = subscriptions_of(packets.drop_last());
        match notification_of(packets.last()) {
            Some(subscription) => before.push(subscription),
            None => before,
        }
    }
}

/// The contents of a list of stored rows.
pub open spec fn packets_view(list: Seq<NotificationPacket>) -> Seq<NotificationPacketView> {
    Seq::new(list.len(), |i: int| list[i]@)
}

/// The messages that an occurrence sends to a list of subscriptions: one to
/// each subscription it serves, in the order of the list, and none to the
/// others. An occurrence that lacks what its template reads sends nothing.
pub open spec fn dispatch_plan(subscriptions: Seq<Notification>, notify: NotificationNotifyView)
    -> Seq<MessageView>
    decreases subscriptions.len(),
{
    if subscriptions.len() == 0 {
        Seq::empty()
    } else {
        let before = dispatch_plan(subscriptions.drop_last(), notify);
        if subscriptions.last().eligible(notify.kind, notify.time_until_start)
            && notify.well_formed() {
            before.push(subscriptions.last().message_for(notify))
        } else {
            before
        }
    }
}

/// How many subscriptions of a list an occurrence of a kind with a lead time
/// serves.
pub open spec fn eligible_count(subscriptions: Seq<Notification>, kind: NotificationType, lead: int)
    -> nat
    decreases subscriptions.len(),
{
    if subscriptions.len() == 0 {
        0
    } else {
        eligible_count(subscriptions.drop_last(), kind, lead) + if subscriptions.last().eligible(
            kind,
            lead,
        ) {
            1nat
        } else {
            0nat
        }
    }
}

/// Decodes a list of stored rows, dropping those with a malformed id.
pub fn subscriptions(packets: &Vec<NotificationPacket>) -> (r: Vec<Notification>)
    ensures
        r@ == subscriptions_of(packets_view(packets@)),
{
    let mut r: Vec<Notification> = Vec::new();
    let mut i: usize = 0;
    assert(packets_view(packets@).take(0) =~= Seq::empty());
    while i < packets.len()
        invariant
            i <= packets.len(),
            r@ == subscriptions_of(packets_view(packets@).take(i as int)),
        decreases packets.len() - i,
    {
        let ghost all = packets_view(packets@);
        assert(all.take(i + 1).drop_last() =~= all.take(i as int));
        assert(all.take(i + 1).last() == packets@[i as int]@);
        match Notification::from_packet(&packets[i]) {
            Some(subscription) => {
                r.push(subscription);
            },
            None => {},
        }
        i += 1;
    }
    assert(packets_view(packets@).take(i as int) =~= packets_view(packets@));
    r
}

/// Plans the fan-out of one due occurrence over a list of subscriptions: one
/// message for each subscription the occurrence serves.
pub fn fan_out(subscriptions: &Vec<Notification>, notify: &NotificationNotify) -> (r: Vec<Message>)
    ensures
        messages_view(r@) == dispatch_plan(subscriptions@, notify@),
{
    let mut r: Vec<Message> = Vec::new();
    let mut i: usize = 0;
    assert(subscriptions@.take(0) =~= Seq::empty());
    assert(messages_view(r@) =~= Seq::empty());
    while i < subscriptions.len()
        invariant
            i <= subscriptions.len(),
            messages_view(r@) == dispatch_plan(subscriptions@.take(i as int), notify@),
        decreases subscriptions.len() - i,
    {
        assert(subscriptions@.take(i + 1).drop_last() =~= subscriptions@.take(i as int));
        assert(subscriptions@.take(i + 1).last() == subscriptions@[i as int]);
        let ghost before = messages_view(r@);
        match subscriptions[i].message(notify) {
            Some(message) => {
                r.push(message);
                assert(messages_view(r@) =~= before.push(message@));
            },
            None => {},
        }
        i += 1;
    }
    assert(subscriptions@.take(i as int) =~= subscriptions@);
    r
}

/// Prepares what one due occurrence sends, from the subscriptions as the
/// backing store handed them out: rows that do not decode are dropped, and
/// each remaining subscription that the occurrence serves gets one message.
pub fn prepare_notification_to_send(
    packets: &Vec<NotificationPacket>,
    notification_notify: &NotificationNotify,
) -> (r: Vec<Message>)
    ensures
        messages_view(r@) == dispatch_plan(
            subscriptions_of(packets_view(packets@)),
            notification_notify@,
        ),
{
    let decoded = subscriptions(packets);
    fan_out(&decoded, notification_notify)
}

/// What the fan-out of a well-formed occurrence sends: a message to every
/// subscription that is for the occurrence's kind, enabled, fully configured
/// and set to exactly its lead time, and as many messages as there are such
/// subscriptions, so each of them is sent to once.
pub proof fn lemma_dispatch_serves_eligible(
    subscriptions: Seq<Notification>,
    notify: NotificationNotifyView,
)
    requires
        notify.well_formed(),
    ensures
        dispatch_plan(subscriptions, notify).len() == eligible_count(
            subscriptions,
            notify.kind,
            notify.time_until_start,
        ),
        forall|i: int|
            0 <= i < subscriptions.len() && (#[trigger] subscriptions[i]).eligible(
                notify.kind,
                notify.time_until_start,
            ) ==> dispatch_plan(subscriptions, notify).contains(
                subscriptions[i].message_for(notify),
            ),
    decreases subscriptions.len(),
{
    if subscriptions.len() > 0 {
        let earlier = subscriptions.drop_last();
        let last = subscriptions.last();
        let plan = dispatch_plan(subscriptions, notify);
        let before = dispatch_plan(earlier, notify);
        lemma_dispatch_serves_eligible(earlier, notify);
        assert forall|i: int|
            0 <= i < subscriptions.len() && (#[trigger] subscriptions[i]).eligible(
                notify.kind,
                notify.time_until_start,
            ) implies plan.contains(subscriptions[i].message_for(notify)) by {
            if i < earlier.len() {
                assert(earlier[i] == subscriptions[i]);
                let j = choose|j: int|
                    0 <= j < before.len() && before[j] == earlier[i].message_for(notify);
                assert(plan[j] == before[j]);
            } else {
                assert(plan[plan.len() - 1] == last.message_for(notify));
            }
        }
    }
}

/// Every message of a fan-out is the message of a subscription that the
/// occurrence serves: nothing is sent on behalf of a subscription that is for
/// another kind, disabled, without a channel or a role, or set to another
/// lead time, and nothing at all for an occurrence that lacks what its
/// template reads.
pub proof fn lemma_dispatch_only_eligible(
    subscriptions: Seq<Notification>,
    notify: NotificationNotifyView,
    message: MessageView,
)
    requires
        dispatch_plan(subscriptions, notify).contains(message),
    ensures
        notify.well_formed(),
        exists|i: int|
            0 <= i < subscriptions.len() && (#[trigger] subscriptions[i]).eligible(
                notify.kind,
                notify.time_until_start,
            ) && message == subscriptions[i].message_for(notify),
    decreases subscriptions.len(),
{
    if subscriptions.len() > 0 {
        let earlier = subscriptions.drop_last();
        let before = dispatch_plan(earlier, notify);
        let plan = dispatch_plan(subscriptions, notify);
        let j = choose|j: int| 0 <= j < plan.len() && plan[j] == message;
        if j < before.len() {
            assert(before[j] == message);
            lemma_dispatch_only_eligible(earlier, notify, message);
            let i = choose|i: int|
                0 <= i < earlier.len() && (#[trigger] earlier[i]).eligible(
                    notify.kind,
                    notify.time_until_start,
                ) && message == earlier[i].message_for(notify);
            assert(subscriptions[i] == earlier[i]);
        } else {
            assert(subscriptions[subscriptions.len() - 1] == subscriptions.last());
        }
    }
}

} // verus!
