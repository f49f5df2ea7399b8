//! Event broadcaster: subscriptions with filters, and the delivery of each
//! broadcast event on the main channel and on the channel of every
//! subscription whose filter accepts it.

use vstd::prelude::*;

use std::collections::HashMap;
use tokio::sync::broadcast::{Receiver, Sender};
use vstd::std_specs::hash::spec_keys_iter;
use vstd::std_specs::iter::IteratorSpec;

use crate::error::ThingsError;
use crate::event_filter::EventFilter;
use crate::event_types::{Event, EventType};
use crate::progress::ProgressUpdate;
use crate::things_id::random_uuid_bits;
use crate::timestamp::Timestamp;

verus! {

#[verifier::external_type_specification]
#[verifier::external_body]
#[verifier::reject_recursive_types(T)]
pub struct ExBroadcastSender<T>(Sender<T>);

#[verifier::external_type_specification]
#[verifier::external_body]
#[verifier::reject_recursive_types(T)]
pub struct ExBroadcastReceiver<T>(Receiver<T>);

/// Every event handed to `send` on the channel of `s`, in order, since the
/// channel was made, whether tokio stored it or refused it for want of any
/// receiver. What a receiver can read is the part from its
/// [`receiver_start`] on; a receiver that falls more than
/// [`channel_capacity`] events behind loses the oldest of them (tokio reports
/// `Lagged`), which this log does not record.
pub uninterp spec fn channel_log(s: Sender<Event>) -> Seq<Event>;

/// How many unread events the channel of `s` keeps for each receiver before
/// the oldest is dropped for a lagging receiver.
pub uninterp spec fn channel_capacity(s: Sender<Event>) -> nat;

/// The identity of the channel that `s` sends on.
pub uninterp spec fn sender_channel(s: Sender<Event>) -> int;

/// The identity of the channel that `r` receives from.
pub uninterp spec fn receiver_channel(r: Receiver<Event>) -> int;

/// The position in [`channel_log`] of the first event sent after `r` was
/// made.
pub uninterp spec fn receiver_start(r: Receiver<Event>) -> nat;

/// `r` is on the channel of `s` and starts at the next event sent on it.
pub open spec fn listens_from_now(r: Receiver<Event>, s: Sender<Event>) -> bool {
    receiver_channel(r) == sender_channel(s) && receiver_start(r) == channel_log(s).len()
}

/// The events sent on the channel of `s` since `r` was made, when both ends
/// are on one channel; nothing otherwise. `r` receives them all unless it
/// falls more than the channel's capacity behind.
pub open spec fn sent_since(r: Receiver<Event>, s: Sender<Event>) -> Seq<Event> {
    let log = channel_log(s);
    if receiver_channel(r) == sender_channel(s) && receiver_start(r) <= log.len() {
        log.subrange(receiver_start(r) as int, log.len() as int)
    } else {
        Seq::empty()
    }
}

/// Capacity of the channel that carries every event.
pub const MAIN_CHANNEL_CAPACITY: usize = 1000;

/// Capacity of the channel of each filtered subscription.
pub const SUBSCRIPTION_CHANNEL_CAPACITY: usize = 100;

/// Event subscription: its identifier, its filter, and the channel that
/// carries the events it accepts.
#[derive(Debug)]
pub struct EventSubscription {
    pub id: u128,
    pub filter: EventFilter,
    pub sender: Sender<Event>,
}

/// Every subscription is kept under its own identifier.
pub open spec fn keyed_by_id(subs: Map<u128, EventSubscription>) -> bool {
    forall|id: u128| #[trigger] subs.contains_key(id) ==> subs[id].id == id
}

/// `sub` is a new subscription for `filter` whose channel is fresh (nothing
/// sent yet, room for at least the subscription capacity) and that `r`
/// reads from the start.
pub open spec fn fresh_subscription(sub: EventSubscription, filter: EventFilter, r: Receiver<Event>) -> bool {
    &&& sub.filter == filter
    &&& channel_log(sub.sender) == Seq::<Event>::empty()
    &&& channel_capacity(sub.sender) >= SUBSCRIPTION_CHANNEL_CAPACITY
    &&& receiver_channel(r) == sender_channel(sub.sender)
    &&& receiver_start(r) == 0
}

/// `after` is `before` with a fresh subscription for `filter`, received by
/// `r`, stored under its identifier; a subscription that held that
/// identifier before is replaced.
pub open spec fn subscription_added(
    before: Map<u128, EventSubscription>,
    after: Map<u128, EventSubscription>,
    filter: EventFilter,
    r: Receiver<Event>,
) -> bool {
    exists|id: u128|
        {
            &&& #[trigger] after.contains_key(id)
            &&& after[id].id == id
            &&& fresh_subscription(after[id], filter, r)
            &&& after == before.insert(id, after[id])
        }
}

/// `after` is `before` with a fresh subscription for `filter`, received by
/// `r`, under an identifier that no subscription held before: nothing is
/// replaced.
pub open spec fn subscription_added_anew(
    before: Map<u128, EventSubscription>,
    after: Map<u128, EventSubscription>,
    filter: EventFilter,
    r: Receiver<Event>,
) -> bool {
    exists|id: u128|
        {
            &&& #[trigger] after.contains_key(id)
            &&& !before.contains_key(id)
            &&& after[id].id == id
            &&& fresh_subscription(after[id], filter, r)
            &&& after == before.insert(id, after[id])
        }
}

/// What the channel of `sub` gains when `e` is broadcast: `e` when the
/// subscription's filter accepts it, nothing otherwise.
pub open spec fn delivery(sub: EventSubscription, e: Event) -> Seq<Event> {
    if sub.filter.spec_matches(&e) {
        seq![e]
    } else {
        Seq::empty()
    }
}

/// `after` is `before` once `e` was delivered: the same subscriptions on the
/// same channels, each channel grown by [`delivery`].
pub open spec fn delivered(
    before: Map<u128, EventSubscription>,
    after: Map<u128, EventSubscription>,
    e: Event,
) -> bool {
    &&& after.dom() == before.dom()
    &&& forall|id: u128|
        #[trigger] before.contains_key(id) ==> {
            &&& after[id].id == before[id].id
            &&& after[id].filter == before[id].filter
            &&& sender_channel(after[id].sender) == sender_channel(before[id].sender)
            &&& channel_capacity(after[id].sender) == channel_capacity(before[id].sender)
            &&& channel_log(after[id].sender) == channel_log(before[id].sender) + delivery(before[id], e)
        }
}

/// The events of `es` that `f` accepts, in order.
pub open spec fn accepted(f: EventFilter, es: Seq<Event>) -> Seq<Event>
    decreases es.len(),
{
    if es.len() == 0 {
        Seq::empty()
    } else if f.spec_matches(&es.last()) {
        accepted(f, es.drop_last()).push(es.last())
    } else {
        accepted(f, es.drop_last())
    }
}

/// `after` is `before` with one more broadcast: an event of type
/// `event_type`, with payload `data`, from `source`, stamped with a clock
/// reading, sent on the main channel and delivered to the subscriptions. Its
/// identifier is random and not constrained.
pub open spec fn announced(
    before: EventBroadcaster,
    after: EventBroadcaster,
    event_type: EventType,
    data: Option<serde_json::Value>,
    source: Seq<char>,
) -> bool {
    let log = channel_log(after.spec_sender());
    let e = log.last();
    &&& log.len() == channel_log(before.spec_sender()).len() + 1
    &&& log == channel_log(before.spec_sender()).push(e)
    &&& sender_channel(after.spec_sender()) == sender_channel(before.spec_sender())
    &&& channel_capacity(after.spec_sender()) == channel_capacity(before.spec_sender())
    &&& e.event_type == event_type
    &&& e.data == data
    &&& e.source@ == source
    &&& e.timestamp.nanos < 1_000_000_000
    &&& delivered(before.spec_subscriptions(), after.spec_subscriptions(), e)
    &&& keyed_by_id(after.spec_subscriptions())
    &&& after.spec_subscriptions().dom().finite()
}

/// The identifiers of the subscriptions in `m`, each once.
fn ids_of(m: &HashMap<u128, EventSubscription>) -> (ids: Vec<u128>)
    ensures
        ids@.to_set() == m@.dom(),
        ids@.no_duplicates(),
{
    broadcast use vstd::std_specs::hash::group_hash_axioms;

    let ghost all = spec_keys_iter(m).remaining().unref();
    let mut ids: Vec<u128> = Vec::new();
    for id in it: m.keys()
        invariant
            it.seq().unref() == all,
            ids@.len() == it.index(),
            ids@ == all.take(ids@.len() as int),
    {
        ids.push(*id);
        proof {
            assert(ids@ =~= all.take(ids@.len() as int));
        }
    }
    proof {
        assert(ids@ =~= all);
    }
    ids
}

/// Sends `event` on the channel of every subscription in `subs` whose filter
/// accepts it.
fn deliver(subs: &mut HashMap<u128, EventSubscription>, event: &Event)
    ensures
        delivered(old(subs)@, final(subs)@, *event),
{
    broadcast use vstd::std_specs::hash::group_hash_axioms;

    let ghost before = subs@;
    let ids = ids_of(subs);
    let mut i: usize = 0;
    while i < ids.len()
        invariant
            i <= ids@.len(),
            ids@.to_set() == before.dom(),
            ids@.no_duplicates(),
            subs@.dom() == before.dom(),
            forall|id: u128|
                #[trigger] before.contains_key(id) ==> {
                    &&& subs@[id].id == before[id].id
                    &&& subs@[id].filter == before[id].filter
                    &&& sender_channel(subs@[id].sender) == sender_channel(before[id].sender)
                    &&& channel_capacity(subs@[id].sender) == channel_capacity(before[id].sender)
                    &&& channel_log(subs@[id].sender) == channel_log(before[id].sender) + if ids@.take(
                        i as int,
                    ).contains(id) {
                        delivery(before[id], *event)
                    } else {
                        Seq::empty()
                    }
                },
        decreases ids@.len() - i,
    {
        let id = ids[i];
        let ghost prev = subs@;
        proof {
            assert(ids@.to_set().contains(id));
            assert(before.contains_key(id));
            assert(!ids@.take(i as int).contains(id)) by {
                if ids@.take(i as int).contains(id) {
                    let j = choose|j: int| 0 <= j < i && ids@.take(i as int)[j] == id;
                    assert(ids@[j] == ids@[i as int]);
                }
            }
            assert(ids@.take(i + 1) =~= ids@.take(i as int).push(id));
            assert(channel_log(prev[id].sender) == channel_log(before[id].sender) + Seq::<
                Event,
            >::empty());
            assert(channel_log(before[id].sender) + Seq::<Event>::empty() =~= channel_log(
                before[id].sender,
            ));
        }
        match subs.remove(&id) {
            Some(mut sub) => {
                proof {
                    assert(sub == prev[id]);
                }
                if sub.filter.matches(event) {
                    let _reached = send_event(&mut sub.sender, event.clone());
                    proof {
                        assert(channel_log(sub.sender) == channel_log(before[id].sender).push(
                            *event,
                        ));
                        assert(channel_log(before[id].sender).push(*event) =~= channel_log(
                            before[id].sender,
                        ) + delivery(before[id], *event));
                    }
                } else {
                    proof {
                        assert(channel_log(before[id].sender) =~= channel_log(before[id].sender)
                            + delivery(before[id], *event));
                    }
                }
                subs.insert(id, sub);
                proof {
                    assert(subs@ == prev.remove(id).insert(id, sub));
                    assert(channel_log(subs@[id].sender) == channel_log(before[id].sender)
                        + delivery(before[id], *event));
                }
            },
            None => {
                proof {
                    assert(false);
                }
            },
        }
        proof {
            assert(subs@.dom() =~= before.dom());
            assert forall|other: u128| #[trigger] before.contains_key(other) implies {
                &&& subs@[other].id == before[other].id
                &&& subs@[other].filter == before[other].filter
                &&& sender_channel(subs@[other].sender) == sender_channel(before[other].sender)
                &&& channel_capacity(subs@[other].sender) == channel_capacity(before[other].sender)
                &&& channel_log(subs@[other].sender) == channel_log(before[other].sender) + if ids@.take(
                    i + 1,
                ).contains(other) {
                    delivery(before[other], *event)
                } else {
                    Seq::empty()
                }
            } by {
                if other != id {
                    assert(subs@[other] == prev[other]);
                    assert(ids@.take(i + 1).contains(other) == ids@.take(i as int).contains(other));
                } else {
                    assert(ids@.take(i + 1).contains(id)) by {
                        assert(ids@.take(i + 1)[i as int] == id);
                    }
                }
            }
        }
        i = i + 1;
    }
    proof {
        assert forall|id: u128| #[trigger] before.contains_key(id) implies ids@.take(
            i as int,
        ).contains(id) by {
            assert(ids@.take(i as int) =~= ids@);
            assert(ids@.to_set().contains(id));
        }
    }
}

/// Event broadcaster for managing and broadcasting events. Every event goes
/// to the main channel and to each subscription whose filter accepts it.
pub struct EventBroadcaster {
    sender: Sender<Event>,
    subscriptions: Subscriptions,
}

/// The subscriptions, each kept under its own identifier.
struct Subscriptions {
    map: HashMap<u128, EventSubscription>,
}

impl Subscriptions {
    #[verifier::type_invariant]
    closed spec fn inv(&self) -> bool {
        keyed_by_id(self.map@)
    }

    /// Stores `sub` under its identifier, replacing any subscription there.
    fn insert(&mut self, sub: EventSubscription)
        ensures
            keyed_by_id(final(self).map@),
            final(self).map@ == old(self).map@.insert(sub.id, sub),
    {
        broadcast use vstd::std_specs::hash::group_hash_axioms;

        proof {
            use_type_invariant(&*self);
        }
        let mut map = HashMap::new();
        std::mem::swap(&mut map, &mut self.map);
        map.insert(sub.id, sub);
        self.map = map;
        proof {
            use_type_invariant(&*self);
        }
    }

    /// An identifier that no subscription holds: `candidate` when it is free,
    /// otherwise the smallest free one.
    fn free_id(&self, candidate: u128) -> (id: u128)
        ensures
            !self.map@.contains_key(id),
            !self.map@.contains_key(candidate) ==> id == candidate,
    {
        broadcast use vstd::std_specs::hash::group_hash_axioms;

        if !self.map.contains_key(&candidate) {
            return candidate;
        }
        let count: usize = self.map.len();
        let mut c: u128 = 0;
        while self.map.contains_key(&c)
            invariant
                self.map@.dom().finite(),
                self.map@.len() == count,
                forall|j: u128| j < c ==> #[trigger] self.map@.contains_key(j),
            decreases self.map@.len() - c,
        {
            proof {
                all_below_are_few(self.map@.dom(), (c + 1) as nat);
            }
            c = c + 1;
        }
        c
    }

    /// Removes the subscription called `id`, if any.
    fn remove(&mut self, id: u128)
        ensures
            keyed_by_id(final(self).map@),
            final(self).map@ == old(self).map@.remove(id),
    {
        broadcast use vstd::std_specs::hash::group_hash_axioms;

        proof {
            use_type_invariant(&*self);
        }
        let mut map = HashMap::new();
        std::mem::swap(&mut map, &mut self.map);
        let _removed = map.remove(&id);
        self.map = map;
        proof {
            use_type_invariant(&*self);
        }
    }

    /// Sends `event` on the channel of every subscription whose filter
    /// accepts it.
    fn deliver(&mut self, event: &Event)
        ensures
            keyed_by_id(final(self).map@),
            delivered(old(self).map@, final(self).map@, *event),
    {
        proof {
            use_type_invariant(&*self);
        }
        let mut map = HashMap::new();
        std::mem::swap(&mut map, &mut self.map);
        let ghost before = map@;
        deliver(&mut map, event);
        proof {
            assert forall|id: u128| #[trigger] map@.contains_key(id) implies map@[id].id == id by {
                assert(before.contains_key(id));
            }
        }
        self.map = map;
        proof {
            use_type_invariant(&*self);
        }
    }
}

impl EventBroadcaster {
    /// The subscriptions, by identifier.
    pub closed spec fn spec_subscriptions(&self) -> Map<u128, EventSubscription> {
        self.subscriptions.map@
    }

    /// The sender of the main channel, which carries every event.
    pub closed spec fn spec_sender(&self) -> Sender<Event> {
        self.sender
    }

    /// Create a new event broadcaster.
    pub fn new() -> (b: Self)
        ensures
            b.spec_subscriptions() == Map::<u128, EventSubscription>::empty(),
            b.spec_subscriptions().dom().finite(),
            channel_log(b.spec_sender()) == Seq::<Event>::empty(),
            channel_capacity(b.spec_sender()) >= MAIN_CHANNEL_CAPACITY,
    {
        broadcast use vstd::std_specs::hash::group_hash_axioms;

        let (sender, _receiver) = event_channel(MAIN_CHANNEL_CAPACITY);
        EventBroadcaster { sender, subscriptions: Subscriptions { map: HashMap::new() } }
    }

    /// Subscribe to events with a filter. Returns the receiving end of the
    /// new subscription's channel, on which exactly the events broadcast from
    /// now on that the filter accepts are sent.
    pub fn subscribe(&mut self, filter: EventFilter) -> (r: Receiver<Event>)
        ensures
            keyed_by_id(final(self).spec_subscriptions()),
            final(self).spec_subscriptions().dom().finite(),
            final(self).spec_sender() == old(self).spec_sender(),
            subscription_added(
                old(self).spec_subscriptions(),
                final(self).spec_subscriptions(),
                filter,
                r,
            ),
            subscription_added_anew(
                old(self).spec_subscriptions(),
                final(self).spec_subscriptions(),
                filter,
                r,
            ),
    {
        broadcast use vstd::std_specs::hash::group_hash_axioms;

        let id: u128 = self.subscriptions.free_id(random_uuid_bits());
        let (sub_sender, receiver) = event_channel(SUBSCRIPTION_CHANNEL_CAPACITY);
        let subscription = EventSubscription { id, filter, sender: sub_sender };
        let ghost before = self.subscriptions.map@;
        let ghost sub = subscription;
        self.subscriptions.insert(subscription);
        proof {
            let after = self.subscriptions.map@;
            assert(after.contains_key(id) && after[id] == sub);
            assert(fresh_subscription(after[id], filter, receiver));
            assert(after == before.insert(id, after[id]));
            assert(!before.contains_key(id));
        }
        receiver
    }

    /// Unsubscribe from events: removes the subscription called
    /// `subscription_id`, if there is one; its channel closes.
    pub fn unsubscribe(&mut self, subscription_id: u128)
        ensures
            keyed_by_id(final(self).spec_subscriptions()),
            final(self).spec_subscriptions().dom().finite(),
            final(self).spec_sender() == old(self).spec_sender(),
            final(self).spec_subscriptions() == old(self).spec_subscriptions().remove(subscription_id),
    {
        broadcast use vstd::std_specs::hash::group_hash_axioms;

        self.subscriptions.remove(subscription_id);
    }

    /// Broadcast an event: on the main channel, and on the channel of each
    /// subscription whose filter accepts it. It never fails.
    pub fn broadcast(&mut self, event: Event) -> (r: Result<(), ThingsError>)
        ensures
            r is Ok,
            keyed_by_id(final(self).spec_subscriptions()),
            final(self).spec_subscriptions().dom().finite(),
            sender_channel(final(self).spec_sender()) == sender_channel(old(self).spec_sender()),
            channel_capacity(final(self).spec_sender()) == channel_capacity(old(self).spec_sender()),
            channel_log(final(self).spec_sender()) == channel_log(old(self).spec_sender()).push(event),
            delivered(old(self).spec_subscriptions(), final(self).spec_subscriptions(), event),
    {
        broadcast use vstd::std_specs::hash::group_hash_axioms;

        let _reached = send_event(&mut self.sender, event.clone());
        self.subscriptions.deliver(&event);
        Ok(())
    }

    /// Creates an event of the given type, payload and source, stamped with a
    /// fresh identifier and the current time, and broadcasts it.
    fn broadcast_new_event(
        &mut self,
        event_type: EventType,
        data: Option<serde_json::Value>,
        source: &str,
    ) -> (r: Result<(), ThingsError>)
        ensures
            r is Ok,
            announced(*old(self), *final(self), event_type, data, source@),
    {
        let event = Event {
            id: random_uuid_bits(),
            event_type,
            timestamp: Timestamp::now(),
            data,
            source: String::from_str(source),
        };
        let ghost e = event;
        let r = self.broadcast(event);
        proof {
            assert(channel_log(self.sender).last() == e);
        }
        r
    }

    /// Create and broadcast a task event.
    pub fn broadcast_task_event(
        &mut self,
        event_type: EventType,
        data: Option<serde_json::Value>,
        source: &str,
    ) -> (r: Result<(), ThingsError>)
        ensures
            r is Ok,
            announced(*old(self), *final(self), event_type, data, source@),
    {
        self.broadcast_new_event(event_type, data, source)
    }

    /// Create and broadcast a project event.
    pub fn broadcast_project_event(
        &mut self,
        event_type: EventType,
        data: Option<serde_json::Value>,
        source: &str,
    ) -> (r: Result<(), ThingsError>)
        ensures
            r is Ok,
            announced(*old(self), *final(self), event_type, data, source@),
    {
        self.broadcast_new_event(event_type, data, source)
    }

    /// Create and broadcast an area event.
    pub fn broadcast_area_event(
        &mut self,
        event_type: EventType,
        data: Option<serde_json::Value>,
        source: &str,
    ) -> (r: Result<(), ThingsError>)
        ensures
            r is Ok,
            announced(*old(self), *final(self), event_type, data, source@),
    {
        self.broadcast_new_event(event_type, data, source)
    }

    /// Create and broadcast a progress event.
    pub fn broadcast_progress_event(
        &mut self,
        event_type: EventType,
        data: Option<serde_json::Value>,
        source: &str,
    ) -> (r: Result<(), ThingsError>)
        ensures
            r is Ok,
            announced(*old(self), *final(self), event_type, data, source@),
    {
        self.broadcast_new_event(event_type, data, source)
    }

    /// Broadcast a progress update as a progress event whose payload is
    /// `data`, the update's JSON form. The event's type follows the update's
    /// status and carries its operation identifier.
    pub fn broadcast_progress_update(
        &mut self,
        update: &ProgressUpdate,
        data: serde_json::Value,
        source: &str,
    ) -> (r: Result<(), ThingsError>)
        ensures
            r is Ok,
            announced(
                *old(self),
                *final(self),
                EventType::spec_for_progress(update.status, update.operation_id),
                Some(data),
                source@,
            ),
    {
        let event_type = EventType::for_progress(update.status, update.operation_id);
        self.broadcast_progress_event(event_type, Some(data), source)
    }

    /// The number of subscriptions.
    pub fn subscription_count(&self) -> (n: usize)
        ensures
            n == self.spec_subscriptions().len(),
    {
        broadcast use vstd::std_specs::hash::group_hash_axioms;

        self.subscriptions.map.len()
    }

    /// A receiver for all events (unfiltered), on the main channel: every
    /// event broadcast after the call is sent to it.
    pub fn subscribe_all(&self) -> (r: Receiver<Event>)
        ensures
            listens_from_now(r, self.spec_sender()),
    {
        subscribe_receiver(&self.sender)
    }
}

impl Default for EventBroadcaster {
    fn default() -> (b: Self)
        ensures
            b.spec_subscriptions() == Map::<u128, EventSubscription>::empty(),
            b.spec_subscriptions().dom().finite(),
            channel_log(b.spec_sender()) == Seq::<Event>::empty(),
            channel_capacity(b.spec_sender()) >= MAIN_CHANNEL_CAPACITY,
    {
        Self::new()
    }
}

/// There are `c` identifiers below `c`.
proof fn identifiers_below_count(c: nat)
    requires
        c <= u128::MAX + 1,
    ensures
        Set::new(|j: u128| j < c).finite(),
        Set::new(|j: u128| j < c).len() == c,
    decreases c,
{
    if c == 0 {
        assert(Set::new(|j: u128| j < c) =~= Set::<u128>::empty());
    } else {
        identifiers_below_count((c - 1) as nat);
        let k = (c - 1) as u128;
        assert(Set::new(|j: u128| j < c) =~= Set::new(|j: u128| j < (c - 1) as nat).insert(k));
    }
}

/// A finite set of identifiers that holds every identifier below `c` has at
/// least `c` members.
proof fn all_below_are_few(ids: Set<u128>, c: nat)
    requires
        ids.finite(),
        c <= u128::MAX + 1,
        forall|j: u128| j < c ==> #[trigger] ids.contains(j),
    ensures
        c <= ids.len(),
{
    identifiers_below_count(c);
    vstd::set_lib::lemma_len_subset(Set::new(|j: u128| j < c), ids);
}

/// A broadcaster holds finitely many subscriptions, whatever its state.
pub proof fn subscriptions_are_finite(b: &EventBroadcaster)
    ensures
        b.spec_subscriptions().dom().finite(),
{
    broadcast use vstd::std_specs::hash::group_hash_axioms;

}

/// Over a run of broadcasts, each subscription's channel gains exactly the
/// broadcast events that its filter accepts, in the order of broadcasting.
pub proof fn each_subscription_channel_gains_exactly_what_it_accepts(
    states: Seq<Map<u128, EventSubscription>>,
    events: Seq<Event>,
    id: u128,
)
    requires
        states.len() == events.len() + 1,
        forall|i: int| 0 <= i < events.len() ==> delivered(#[trigger] states[i], states[i + 1], events[i]),
        states[0].contains_key(id),
    ensures
        states.last().contains_key(id),
        states.last()[id].id == states[0][id].id,
        states.last()[id].filter == states[0][id].filter,
        sender_channel(states.last()[id].sender) == sender_channel(states[0][id].sender),
        channel_log(states.last()[id].sender) == channel_log(states[0][id].sender) + accepted(
            states[0][id].filter,
            events,
        ),
    decreases events.len(),
{
    if events.len() == 0 {
        assert(channel_log(states[0][id].sender) + Seq::<Event>::empty() =~= channel_log(
            states[0][id].sender,
        ));
    } else {
        let n = events.len() - 1;
        let init_states = states.drop_last();
        let init_events = events.drop_last();
        assert forall|i: int| 0 <= i < init_events.len() implies delivered(
            #[trigger] init_states[i],
            init_states[i + 1],
            init_events[i],
        ) by {
            assert(delivered(states[i], states[i + 1], events[i]));
        }
        each_subscription_channel_gains_exactly_what_it_accepts(init_states, init_events, id);
        assert(delivered(states[n], states[n + 1], events[n]));
        let mid = states[n];
        let f = states[0][id].filter;
        let before_log = channel_log(states[0][id].sender);
        assert(mid.contains_key(id));
        assert(states.last().dom() == mid.dom());
        assert(channel_log(states.last()[id].sender) == channel_log(mid[id].sender) + delivery(
            mid[id],
            events[n],
        ));
        assert(events.last() == events[n]);
        if f.spec_matches(&events[n]) {
            assert(before_log + accepted(f, init_events) + seq![events[n]] =~= before_log + accepted(
                f,
                init_events,
            ).push(events[n]));
        } else {
            assert(before_log + accepted(f, init_events) + Seq::<Event>::empty() =~= before_log
                + accepted(f, init_events));
        }
    }
}

/// The channel of a subscription whose filter has no criteria gains every
/// broadcast event.
pub proof fn unfiltered_subscription_channel_gains_everything(
    before: Map<u128, EventSubscription>,
    after: Map<u128, EventSubscription>,
    e: Event,
    id: u128,
)
    requires
        delivered(before, after, e),
        before.contains_key(id),
        before[id].filter.event_types is None,
        before[id].filter.entity_ids is None,
        before[id].filter.sources is None,
        before[id].filter.since is None,
    ensures
        channel_log(after[id].sender) == channel_log(before[id].sender).push(e),
{
    assert(channel_log(before[id].sender) + seq![e] =~= channel_log(before[id].sender).push(e));
}

/// What was sent on the main channel since a receiver was taken from it is
/// exactly the events broadcast after that.
pub proof fn sent_since_main_receiver_was_taken_is_every_later_event(
    r: Receiver<Event>,
    taken_at: Sender<Event>,
    now: Sender<Event>,
    later: Seq<Event>,
)
    requires
        listens_from_now(r, taken_at),
        sender_channel(now) == sender_channel(taken_at),
        channel_log(now) == channel_log(taken_at) + later,
    ensures
        sent_since(r, now) == later,
{
    assert(channel_log(now).subrange(receiver_start(r) as int, channel_log(now).len() as int)
        =~= later);
}

/// What is sent, over a run of broadcasts, to the receiver that `subscribe`
/// returned is exactly the broadcast events that the subscription's filter
/// accepts, in the order of broadcasting.
pub proof fn sent_to_subscriber_is_exactly_what_its_filter_accepts(
    before: Map<u128, EventSubscription>,
    states: Seq<Map<u128, EventSubscription>>,
    events: Seq<Event>,
    filter: EventFilter,
    r: Receiver<Event>,
)
    requires
        subscription_added(before, states[0], filter, r),
        states.len() == events.len() + 1,
        forall|i: int| 0 <= i < events.len() ==> delivered(#[trigger] states[i], states[i + 1], events[i]),
    ensures
        exists|id: u128|
            #[trigger] states.last().contains_key(id) && sent_since(r, states.last()[id].sender)
                == accepted(filter, events),
{
    let id = choose|id: u128|
        {
            &&& #[trigger] states[0].contains_key(id)
            &&& states[0][id].id == id
            &&& fresh_subscription(states[0][id], filter, r)
            &&& states[0] == before.insert(id, states[0][id])
        };
    each_subscription_channel_gains_exactly_what_it_accepts(states, events, id);
    let log = channel_log(states.last()[id].sender);
    assert(log =~= accepted(filter, events));
    assert(log.subrange(0, log.len() as int) =~= log);
    assert(sent_since(r, states.last()[id].sender) == accepted(filter, events));
}

/// A subscription under a new identifier adds one to the count; one under an
/// identifier already held replaces that subscription.
pub proof fn subscribing_adds_one_for_a_new_identifier(
    before: Map<u128, EventSubscription>,
    after: Map<u128, EventSubscription>,
    filter: EventFilter,
    r: Receiver<Event>,
)
    requires
        before.dom().finite(),
        subscription_added(before, after, filter, r),
    ensures
        after.len() == before.len() + 1 || after.len() == before.len(),
        exists|id: u128|
            #[trigger] after.contains_key(id) && (after.len() == before.len() + 1 <==> !before.contains_key(id)),
{
    let id = choose|id: u128|
        {
            &&& #[trigger] after.contains_key(id)
            &&& after[id].id == id
            &&& fresh_subscription(after[id], filter, r)
            &&& after == before.insert(id, after[id])
        };
    if before.contains_key(id) {
        assert(after.dom() =~= before.dom());
    } else {
        assert(after.dom() =~= before.dom().insert(id));
    }
}

/// Subscribing never replaces: the count grows by exactly one, every earlier
/// subscription stays as it was, and the new one is on a fresh channel with
/// the given filter.
pub proof fn subscribing_adds_exactly_one_and_keeps_the_rest(
    before: Map<u128, EventSubscription>,
    after: Map<u128, EventSubscription>,
    filter: EventFilter,
    r: Receiver<Event>,
)
    requires
        before.dom().finite(),
        subscription_added_anew(before, after, filter, r),
    ensures
        after.dom().finite(),
        after.len() == before.len() + 1,
        forall|k: u128| #[trigger] before.contains_key(k) ==> after.contains_key(k) && after[k] == before[k],
        exists|id: u128|
            #[trigger] after.contains_key(id) && !before.contains_key(id) && after[id].filter == filter
                && channel_log(after[id].sender) == Seq::<Event>::empty(),
{
    let id = choose|id: u128|
        {
            &&& #[trigger] after.contains_key(id)
            &&& !before.contains_key(id)
            &&& after[id].id == id
            &&& fresh_subscription(after[id], filter, r)
            &&& after == before.insert(id, after[id])
        };
    assert(after.dom() =~= before.dom().insert(id));
}

/// After unsubscribing, no subscription carries the identifier, and the count
/// fell by one exactly when one did before.
pub proof fn unsubscribed_identifier_is_gone(
    before: Map<u128, EventSubscription>,
    after: Map<u128, EventSubscription>,
    id: u128,
)
    requires
        before.dom().finite(),
        after == before.remove(id),
    ensures
        !after.contains_key(id),
        after.len() == if before.contains_key(id) {
            before.len() - 1
        } else {
            before.len() as int
        },
{
    if !before.contains_key(id) {
        assert(after.dom() =~= before.dom());
    }
}

/// Calls `tokio::sync::broadcast::channel(capacity)`. Tokio panics when the
/// capacity is zero or above `usize::MAX / 2`, so those are excluded. The
/// source shows a new channel with nothing sent, a buffer rounded up to a
/// power of two not below `capacity`, and one receiver on it whose next
/// position is the start.
#[verifier::external_body]
fn event_channel(capacity: usize) -> (r: (Sender<Event>, Receiver<Event>))
    requires
        0 < capacity <= usize::MAX / 2,
    ensures
        channel_log(r.0) == Seq::<Event>::empty(),
        channel_capacity(r.0) >= capacity,
        receiver_channel(r.1) == sender_channel(r.0),
        receiver_start(r.1) == 0,
{
    tokio::sync::broadcast::channel(capacity)
}

/// Calls `Sender::send` and keeps the number of receivers it reached. The
/// event joins the channel's log: tokio stores it at the tail for every
/// receiver alive, and refuses it only when no receiver is left. The channel and its capacity stay. Tokio returns an error
/// exactly when no receiver is left, and the count otherwise; which happens
/// depends on receivers held elsewhere, so only a positive count is claimed.
/// The `&mut` marks the one handle that sends; the library never clones one.
#[verifier::external_body]
fn send_event(sender: &mut Sender<Event>, event: Event) -> (r: Option<usize>)
    ensures
        channel_log(*final(sender)) == channel_log(*old(sender)).push(event),
        sender_channel(*final(sender)) == sender_channel(*old(sender)),
        channel_capacity(*final(sender)) == channel_capacity(*old(sender)),
        r matches Some(n) ==> n > 0,
{
    sender.send(event).ok()
}

/// Calls `Sender::subscribe`. The source shows a receiver on the sender's
/// channel whose next position is the channel's tail: its start is the next
/// event sent. Tokio panics when `usize::MAX >> 2` receivers of one channel
/// are alive at once, which no argument can rule out and no memory can hold.
#[verifier::external_body]
fn subscribe_receiver(sender: &Sender<Event>) -> (r: Receiver<Event>)
    ensures
        listens_from_now(r, *sender),
{
    sender.subscribe()
}

} // verus!
