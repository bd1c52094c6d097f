//! The subscription cache: an in-memory replica of the subscriptions that the
//! backing store holds, kept current by its change events.
//!
//! A subscription is known by its identity, the guild together with the kind
//! of event. The cache holds at most one subscription of each identity. An
//! insert or an update replaces the subscription of its identity, a delete
//! removes it. Readers and the one writer are kept apart by whoever owns the
//! cache; a change is applied as a whole or not at all.

use vstd::prelude::*;
use vstd::string::*;
use crate::notification::{
    dispatch_plan,
    notification_of,
    packets_view,
    subscriptions,
    subscriptions_of,
    Notification,
    NotificationNotifyView,
    NotificationPacket,
    NotificationPacketView,
    NotificationType,
};

verus! {

/// What a change event did to a row of the backing store.
#[derive(Clone, Copy, Debug, PartialEq, Eq, Structural)]
pub enum Operation {
    Insert,
    Update,
    Delete,
}

/// A change of one row of the backing store.
#[derive(Clone, Copy, Debug)]
pub struct ChangeEvent {
    pub operation: Operation,
    /// The row as it stands after an insert or an update, or as it stood
    /// before a delete.
    pub subscription: Notification,
}

/// Whether two subscriptions are of one identity: the same guild and kind.
pub open spec fn same_identity(a: Notification, b: Notification) -> bool {
    a.guild_id == b.guild_id && a.kind == b.kind
}

/// Whether no two subscriptions of a list are of one identity.
pub open spec fn distinct(entries: Seq<Notification>) -> bool {
    forall|i: int, j: int|
        0 <= i < j < entries.len() ==> !same_identity(#[trigger] entries[i], #[trigger] entries[j])
}

/// A list without the subscriptions of the identity of `subject`, the others
/// in their order.
pub open spec fn without(entries: Seq<Notification>, subject: Notification) -> Seq<Notification>
    decreases entries.len(),
{
    if entries.len() == 0 {
        Seq::empty()
    } else {
        let before = without(entries.drop_last(), subject);
        if same_identity(entries.last(), subject) {
            before
        } else {
            before.push(entries.last())
        }
    }
}

/// The subscriptions of a list that an occurrence of a kind with a lead time
/// serves, in their order.
pub open spec fn eligible_subscriptions(
    entries: Seq<Notification>,
    kind: NotificationType,
    lead: int,
) -> Seq<Notification>
    decreases entries.len(),
{
    if entries.len() == 0 {
        Seq::empty()
    } else {
        let before = eligible_subscriptions(entries.drop_last(), kind, lead);
        if entries.last().eligible(kind, lead) {
            before.push(entries.last())
        } else {
            before
        }
    }
}

/// The cache contents after a change event: a delete removes the subscription
/// of the event's identity; an insert or an update puts the event's
/// subscription in its place, or adds it where there was none.
pub open spec fn applied(entries: Seq<Notification>, event: ChangeEvent) -> Seq<Notification> {
    match event.operation {
        Operation::Delete => without(entries, event.subscription),
        _ => without(entries, event.subscription).push(event.subscription),
    }
}

/// The cache contents after loading a list of subscriptions one by one. Of
/// several subscriptions of one identity the last one stays.
pub open spec fn loaded(rows: Seq<Notification>) -> Seq<Notification>
    decreases rows.len(),
{
    if rows.len() == 0 {
        Seq::empty()
    } else {
        without(loaded(rows.drop_last()), rows.last()).push(rows.last())
    }
}

/// The operation that a change event names. The backing store names it
/// `insert`, `update` or `delete`; any other name is no operation.
pub open spec fn operation_of(name: Seq<char>) -> Option<Operation> {
    if name == "insert"@ {
        Some(Operation::Insert)
    } else if name == "update"@ {
        Some(Operation::Update)
    } else if name == "delete"@ {
        Some(Operation::Delete)
    } else {
        None
    }
}

/// The change event that an operation name and a row decode to.
pub open spec fn change_event_of(name: Seq<char>, packet: NotificationPacketView) -> Option<
    ChangeEvent,
> {
    match (operation_of(name), notification_of(packet)) {
        (Some(operation), Some(subscription)) => Some(ChangeEvent { operation, subscription }),
        _ => None,
    }
}

/// What `without` keeps: subscriptions of the list, none of the identity
/// removed, and no two of one identity where the list had none.
pub proof fn lemma_without(entries: Seq<Notification>, subject: Notification)
    ensures
        without(entries, subject).len() <= entries.len(),
        forall|k: int|
            0 <= k < without(entries, subject).len() ==> !same_identity(
                #[trigger] without(entries, subject)[k],
                subject,
            ) && entries.contains(without(entries, subject)[k]),
        forall|i: int|
            0 <= i < entries.len() && !same_identity(#[trigger] entries[i], subject) ==> without(
                entries,
                subject,
            ).contains(entries[i]),
        distinct(entries) ==> distinct(without(entries, subject)),
    decreases entries.len(),
{
    if entries.len() > 0 {
        let earlier = entries.drop_last();
        let last = entries.last();
        let kept = without(entries, subject);
        let before = without(earlier, subject);
        lemma_without(earlier, subject);
        assert forall|k: int| 0 <= k < kept.len() implies !same_identity(#[trigger] kept[k], subject)
            && entries.contains(kept[k]) by {
            if k < before.len() {
                assert(kept[k] == before[k]);
                let i = choose|i: int| 0 <= i < earlier.len() && earlier[i] == before[k];
                assert(entries[i] == kept[k]);
            } else {
                assert(entries[entries.len() - 1] == kept[k]);
            }
        }
        assert forall|i: int|
            0 <= i < entries.len() && !same_identity(#[trigger] entries[i], subject) implies kept.contains(
            entries[i],
        ) by {
            if i < earlier.len() {
                assert(earlier[i] == entries[i]);
                let k = choose|k: int| 0 <= k < before.len() && before[k] == earlier[i];
                assert(kept[k] == entries[i]);
            } else {
                assert(kept[kept.len() - 1] == entries[i]);
            }
        }
        if distinct(entries) {
            assert(distinct(earlier)) by {
                assert forall|i: int, j: int| 0 <= i < j < earlier.len() implies !same_identity(
                    #[trigger] earlier[i],
                    #[trigger] earlier[j],
                ) by {
                    assert(earlier[i] == entries[i]);
                    assert(earlier[j] == entries[j]);
                }
            }
            assert forall|i: int, j: int| 0 <= i < j < kept.len() implies !same_identity(
                #[trigger] kept[i],
                #[trigger] kept[j],
            ) by {
                if j < before.len() {
                    assert(kept[i] == before[i]);
                    assert(kept[j] == before[j]);
                } else {
                    assert(kept[i] == before[i]);
                    let e = choose|e: int| 0 <= e < earlier.len() && earlier[e] == before[i];
                    assert(entries[e] == kept[i]);
                    assert(entries[entries.len() - 1] == kept[j]);
                }
            }
        }
    }
}

/// What `eligible_subscriptions` keeps: exactly the subscriptions of the list
/// that the occurrence serves.
pub proof fn lemma_eligible_subscriptions(
    entries: Seq<Notification>,
    kind: NotificationType,
    lead: int,
)
    ensures
        forall|k: int|
            0 <= k < eligible_subscriptions(entries, kind, lead).len() ==> (
            #[trigger] eligible_subscriptions(entries, kind, lead)[k]).eligible(kind, lead)
                && entries.contains(eligible_subscriptions(entries, kind, lead)[k]),
        forall|i: int|
            0 <= i < entries.len() && (#[trigger] entries[i]).eligible(kind, lead)
                ==> eligible_subscriptions(entries, kind, lead).contains(entries[i]),
    decreases entries.len(),
{
    if entries.len() > 0 {
        let earlier = entries.drop_last();
        let kept = eligible_subscriptions(entries, kind, lead);
        let before = eligible_subscriptions(earlier, kind, lead);
        lemma_eligible_subscriptions(earlier, kind, lead);
        assert forall|k: int| 0 <= k < kept.len() implies (#[trigger] kept[k]).eligible(kind, lead)
            && entries.contains(kept[k]) by {
            if k < before.len() {
                assert(kept[k] == before[k]);
                let i = choose|i: int| 0 <= i < earlier.len() && earlier[i] == before[k];
                assert(entries[i] == kept[k]);
            } else {
                assert(entries[entries.len() - 1] == kept[k]);
            }
        }
        assert forall|i: int|
            0 <= i < entries.len() && (#[trigger] entries[i]).eligible(
                kind,
                lead,
            ) implies kept.contains(entries[i]) by {
            if i < earlier.len() {
                assert(earlier[i] == entries[i]);
                let k = choose|k: int| 0 <= k < before.len() && before[k] == earlier[i];
                assert(kept[k] == entries[i]);
            } else {
                assert(kept[kept.len() - 1] == entries[i]);
            }
        }
    }
}

/// After a delete, no occurrence serves the identity deleted: whatever the
/// kind and the lead time, the eligible subscriptions hold none of it. The
/// other subscriptions stay as they were.
pub proof fn lemma_delete_removes(
    entries: Seq<Notification>,
    subject: Notification,
    kind: NotificationType,
    lead: int,
)
    ensures
        ({
            let after = applied(entries, ChangeEvent { operation: Operation::Delete, subscription: subject });
            &&& forall|k: int|
                0 <= k < eligible_subscriptions(after, kind, lead).len() ==> !same_identity(
                    #[trigger] eligible_subscriptions(after, kind, lead)[k],
                    subject,
                )
            &&& forall|i: int|
                0 <= i < entries.len() && !same_identity(#[trigger] entries[i], subject)
                    ==> after.contains(entries[i])
        }),
{
    let after = applied(entries, ChangeEvent { operation: Operation::Delete, subscription: subject });
    lemma_without(entries, subject);
    lemma_eligible_subscriptions(after, kind, lead);
    let served = eligible_subscriptions(after, kind, lead);
    assert forall|k: int| 0 <= k < served.len() implies !same_identity(
        #[trigger] served[k],
        subject,
    ) by {
        let i = choose|i: int| 0 <= i < after.len() && after[i] == served[k];
        assert(!same_identity(after[i], subject));
    }
}

/// After an insert or an update, the subscription given is the one and only
/// subscription of its identity, and it is served exactly by the occurrences
/// of its kind and lead time that find it enabled and fully configured.
pub proof fn lemma_upsert_replaces(
    entries: Seq<Notification>,
    event: ChangeEvent,
    kind: NotificationType,
    lead: int,
)
    requires
        event.operation != Operation::Delete,
    ensures
        applied(entries, event).contains(event.subscription),
        forall|k: int|
            0 <= k < applied(entries, event).len() && same_identity(
                #[trigger] applied(entries, event)[k],
                event.subscription,
            ) ==> applied(entries, event)[k] == event.subscription,
        event.subscription.eligible(kind, lead) <==> eligible_subscriptions(
            applied(entries, event),
            kind,
            lead,
        ).contains(event.subscription),
{
    let subject = event.subscription;
    let after = applied(entries, event);
    lemma_without(entries, subject);
    assert(after[after.len() - 1] == subject);
    lemma_eligible_subscriptions(after, kind, lead);
    let served = eligible_subscriptions(after, kind, lead);
    if served.contains(subject) {
        let k = choose|k: int| 0 <= k < served.len() && served[k] == subject;
        assert(served[k].eligible(kind, lead));
    }
}

/// Asking the cache for the eligible subscriptions first and fanning out over
/// them sends what fanning out over the whole cache sends.
pub proof fn lemma_dispatch_over_eligible(entries: Seq<Notification>, notify: NotificationNotifyView)
    ensures
        dispatch_plan(
            eligible_subscriptions(entries, notify.kind, notify.time_until_start),
            notify,
        ) == dispatch_plan(entries, notify),
    decreases entries.len(),
{
    if entries.len() > 0 {
        let earlier = entries.drop_last();
        lemma_dispatch_over_eligible(earlier, notify);
        let before = eligible_subscriptions(earlier, notify.kind, notify.time_until_start);
        if entries.last().eligible(notify.kind, notify.time_until_start) {
            assert(before.push(entries.last()).drop_last() =~= before);
        }
    }
}

/// The in-memory replica of the subscriptions.
pub struct SubscriptionCache {
    entries: Vec<Notification>,
}

impl View for SubscriptionCache {
    type V = Seq<Notification>;

    /// The subscriptions held, in the order they came.
    closed spec fn view(&self) -> Seq<Notification> {
        self.entries@
    }
}

impl ChangeEvent {
    /// Decodes a change event from the operation's name and the row as the
    /// backing store sent them. An unknown operation or a row that does not
    /// decode gives no event.
    pub fn decode(operation: &str, packet: &NotificationPacket) -> (r: Option<ChangeEvent>)
        ensures
            r == change_event_of(operation@, packet@),
    {
        let name = String::from_str(operation);
        let operation = if name.eq(&String::from_str("insert")) {
            Operation::Insert
        } else if name.eq(&String::from_str("update")) {
            Operation::Update
        } else if name.eq(&String::from_str("delete")) {
            Operation::Delete
        } else {
            return None;
        };
        match Notification::from_packet(packet) {
            Some(subscription) => Some(ChangeEvent { operation, subscription }),
            None => None,
        }
    }
}

impl SubscriptionCache {
    #[verifier::type_invariant]
    spec fn one_per_identity(self) -> bool {
        distinct(self.entries@)
    }

    /// An empty cache.
    pub fn new() -> (cache: Self)
        ensures
            cache@ == Seq::<Notification>::empty(),
    {
        SubscriptionCache { entries: Vec::new() }
    }

    /// How many subscriptions the cache holds.
    pub fn len(&self) -> (n: usize)
        ensures
            n == self@.len(),
            distinct(self@),
    {
        proof {
            use_type_invariant(self);
        }
        self.entries.len()
    }

    /// Applies one change event: see `applied`.
    pub fn apply(&mut self, event: &ChangeEvent)
        ensures
            final(self)@ == applied(old(self)@, *event),
            distinct(final(self)@),
    {
        proof {
            use_type_invariant(&*self);
        }
        let subject = event.subscription;
        let mut next: Vec<Notification> = Vec::new();
        let mut i: usize = 0;
        assert(self.entries@.take(0) =~= Seq::empty());
        while i < self.entries.len()
            invariant
                i <= self.entries.len(),
                next@ == without(self.entries@.take(i as int), subject),
            decreases self.entries.len() - i,
        {
            assert(self.entries@.take(i + 1).drop_last() =~= self.entries@.take(i as int));
            assert(self.entries@.take(i + 1).last() == self.entries@[i as int]);
            let entry = self.entries[i];
            if !(entry.guild_id == subject.guild_id && entry.kind == subject.kind) {
                next.push(entry);
            }
            i += 1;
        }
        assert(self.entries@.take(i as int) =~= self.entries@);
        proof {
            lemma_without(self.entries@, subject);
        }
        match event.operation {
            Operation::Delete => {},
            _ => {
                next.push(subject);
            },
        }
        self.entries = next;
    }

    /// Loads a whole table: every row that decodes is inserted, in the order
    /// of the rows.
    pub fn load(packets: &Vec<NotificationPacket>) -> (cache: Self)
        ensures
            cache@ == loaded(subscriptions_of(packets_view(packets@))),
            distinct(cache@),
    {
        let rows = subscriptions(packets);
        let mut cache = Self::new();
        let mut i: usize = 0;
        assert(rows@.take(0) =~= Seq::empty());
        assert(distinct(cache@));
        while i < rows.len()
            invariant
                i <= rows.len(),
                cache@ == loaded(rows@.take(i as int)),
                distinct(cache@),
            decreases rows.len() - i,
        {
            assert(rows@.take(i + 1).drop_last() =~= rows@.take(i as int));
            assert(rows@.take(i + 1).last() == rows@[i as int]);
            cache.apply(&ChangeEvent { operation: Operation::Insert, subscription: rows[i] });
            i += 1;
        }
        assert(rows@.take(i as int) =~= rows@);
        cache
    }

    /// The subscriptions that an occurrence of a kind with a lead time serves.
    pub fn get_eligible(&self, kind: NotificationType, lead_minutes: u32) -> (r: Vec<Notification>)
        ensures
            r@ == eligible_subscriptions(self@, kind, lead_minutes as int),
    {
        let mut r: Vec<Notification> = Vec::new();
        let mut i: usize = 0;
        assert(self.entries@.take(0) =~= Seq::empty());
        while i < self.entries.len()
            invariant
                i <= self.entries.len(),
                r@ == eligible_subscriptions(
                    self.entries@.take(i as int),
                    kind,
                    lead_minutes as int,
                ),
            decreases self.entries.len() - i,
        {
            assert(self.entries@.take(i + 1).drop_last() =~= self.entries@.take(i as int));
            assert(self.entries@.take(i + 1).last() == self.entries@[i as int]);
            if self.entries[i].is_eligible(kind, lead_minutes) {
                r.push(self.entries[i]);
            }
            i += 1;
        }
        assert(self.entries@.take(i as int) =~= self.entries@);
        r
    }
}

} // verus!
