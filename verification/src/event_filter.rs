//! Filters that decide which events a subscriber wants.

use vstd::prelude::*;

use crate::event_types::{Event, EventKind, EventType};
use crate::things_id::ThingsId;
use crate::timestamp::Timestamp;

verus! {

/// Event filter for subscriptions. Every criterion that is present must hold;
/// an absent criterion accepts every event.
#[derive(Clone, Debug)]
pub struct EventFilter {
    /// Accept only events of one of these variants (payloads are ignored).
    pub event_types: Option<Vec<EventType>>,
    /// Accept only entity events about one of these entities; progress events
    /// have no entity and are not restricted by this criterion.
    pub entity_ids: Option<Vec<ThingsId>>,
    /// Accept only events from one of these sources.
    pub sources: Option<Vec<String>>,
    /// Accept only events at or after this instant.
    pub since: Option<Timestamp>,
}

/// Some listed event type has the same variant as `kind`.
pub open spec fn kind_listed(types: Seq<EventType>, kind: EventKind) -> bool {
    exists|i: int| 0 <= i < types.len() && (#[trigger] types[i]).spec_kind() == kind
}

/// Some listed identifier has the text of `id`.
pub open spec fn id_listed(ids: Seq<ThingsId>, id: ThingsId) -> bool {
    exists|i: int| 0 <= i < ids.len() && (#[trigger] ids[i])@ == id@
}

/// Some listed source has the text `source`.
pub open spec fn source_listed(sources: Seq<String>, source: Seq<char>) -> bool {
    exists|i: int| 0 <= i < sources.len() && (#[trigger] sources[i])@ == source
}

impl Default for EventFilter {
    /// The filter without criteria, which accepts every event.
    fn default() -> (f: Self)
        ensures
            f.event_types is None,
            f.entity_ids is None,
            f.sources is None,
            f.since is None,
    {
        EventFilter { event_types: None, entity_ids: None, sources: None, since: None }
    }
}

impl EventFilter {
    /// The event-type criterion.
    pub open spec fn spec_type_ok(&self, e: &Event) -> bool {
        match self.event_types {
            Some(types) => kind_listed(types@, e.event_type.spec_kind()),
            None => true,
        }
    }

    /// The entity criterion: events without an entity always pass it.
    pub open spec fn spec_entity_ok(&self, e: &Event) -> bool {
        match self.entity_ids {
            Some(ids) => match e.event_type.spec_entity_id() {
                Some(id) => id_listed(ids@, id),
                None => true,
            },
            None => true,
        }
    }

    /// The source criterion.
    pub open spec fn spec_source_ok(&self, e: &Event) -> bool {
        match self.sources {
            Some(sources) => source_listed(sources@, e.source@),
            None => true,
        }
    }

    /// The time criterion: the event is not earlier than `since`.
    pub open spec fn spec_time_ok(&self, e: &Event) -> bool {
        match self.since {
            Some(since) => !e.timestamp.spec_before(since),
            None => true,
        }
    }

    /// Whether the filter accepts the event: all four criteria hold.
    pub open spec fn spec_matches(&self, e: &Event) -> bool {
        &&& self.spec_type_ok(e)
        &&& self.spec_entity_ok(e)
        &&& self.spec_source_ok(e)
        &&& self.spec_time_ok(e)
    }

    /// A filter on event types only (what a listener subscribing to event
    /// types uses).
    pub fn for_event_types(event_types: Vec<EventType>) -> (f: Self)
        ensures
            f.event_types == Some(event_types),
            f.entity_ids is None,
            f.sources is None,
            f.since is None,
    {
        EventFilter { event_types: Some(event_types), entity_ids: None, sources: None, since: None }
    }

    /// A filter on one entity only (what a listener subscribing to an entity
    /// uses).
    pub fn for_entity(entity_id: ThingsId) -> (f: Self)
        ensures
            f.event_types is None,
            f.entity_ids matches Some(ids) && ids@ == seq![entity_id],
            f.sources is None,
            f.since is None,
    {
        let mut ids = Vec::new();
        ids.push(entity_id);
        EventFilter { event_types: None, entity_ids: Some(ids), sources: None, since: None }
    }

    /// Check if an event matches this filter.
    pub fn matches(&self, event: &Event) -> (b: bool)
        ensures
            b == self.spec_matches(event),
    {
        if let Some(types) = &self.event_types {
            let kind = event.event_type.kind();
            let mut found = false;
            let mut i: usize = 0;
            while i < types.len()
                invariant
                    i <= types@.len(),
                    kind == event.event_type.spec_kind(),
                    found <==> exists|j: int| 0 <= j < i && (#[trigger] types@[j]).spec_kind() == kind,
                decreases types@.len() - i,
            {
                if types[i].kind() == kind {
                    found = true;
                }
                i = i + 1;
            }
            if !found {
                return false;
            }
        }
        if let Some(ids) = &self.entity_ids {
            if let Some(entity_id) = event.event_type.entity_id() {
                let mut found = false;
                let mut i: usize = 0;
                while i < ids.len()
                    invariant
                        i <= ids@.len(),
                        found <==> exists|j: int| 0 <= j < i && (#[trigger] ids@[j])@ == entity_id@,
                    decreases ids@.len() - i,
                {
                    if ids[i].same_as(entity_id) {
                        found = true;
                    }
                    i = i + 1;
                }
                if !found {
                    return false;
                }
            }
        }
        if let Some(sources) = &self.sources {
            let mut found = false;
            let mut i: usize = 0;
            while i < sources.len()
                invariant
                    i <= sources@.len(),
                    found <==> exists|j: int| 0 <= j < i && (#[trigger] sources@[j])@ == event.source@,
                decreases sources@.len() - i,
            {
                if sources[i] == event.source {
                    found = true;
                }
                i = i + 1;
            }
            if !found {
                return false;
            }
        }
        if let Some(since) = &self.since {
            if event.timestamp.is_before(since) {
                return false;
            }
        }
        true
    }
}

/// A filter without criteria accepts every event.
pub proof fn empty_filter_matches_every_event(f: EventFilter, e: Event)
    requires
        f.event_types is None,
        f.entity_ids is None,
        f.sources is None,
        f.since is None,
    ensures
        f.spec_matches(&e),
{
}

/// A filter accepts an event exactly when each of its criteria, taken alone
/// as a filter, accepts it.
pub proof fn filter_is_conjunction_of_its_criteria(f: EventFilter, e: Event)
    ensures
        f.spec_matches(&e) == {
            &&& (EventFilter {
                event_types: f.event_types,
                entity_ids: None,
                sources: None,
                since: None,
            }).spec_matches(&e)
            &&& (EventFilter {
                event_types: None,
                entity_ids: f.entity_ids,
                sources: None,
                since: None,
            }).spec_matches(&e)
            &&& (EventFilter {
                event_types: None,
                entity_ids: None,
                sources: f.sources,
                since: None,
            }).spec_matches(&e)
            &&& (EventFilter {
                event_types: None,
                entity_ids: None,
                sources: None,
                since: f.since,
            }).spec_matches(&e)
        },
{
}

/// Task, project and area events name an entity; progress events do not.
pub proof fn entity_events_carry_an_id(t: EventType)
    ensures
        t.spec_entity_id() is Some <==> !t.spec_kind().spec_is_progress(),
{
}

/// Progress events are never rejected by an entity restriction.
pub proof fn progress_events_pass_entity_criterion(f: EventFilter, e: Event)
    requires
        e.event_type.spec_kind().spec_is_progress(),
    ensures
        f.spec_entity_ok(&e),
{
    entity_events_carry_an_id(e.event_type);
}

/// The event-type criterion looks at variants only: events of the same
/// variant, whatever their identifiers, are treated alike.
pub proof fn type_criterion_sees_only_the_variant(f: EventFilter, e1: Event, e2: Event)
    requires
        e1.event_type.spec_kind() == e2.event_type.spec_kind(),
    ensures
        f.spec_type_ok(&e1) == f.spec_type_ok(&e2),
{
}

/// Two event types have the same kind exactly when they are the same variant,
/// whatever their payloads.
pub proof fn kind_is_the_variant(t1: EventType, t2: EventType)
    ensures
        t1.spec_kind() == t2.spec_kind() <==> {
            ||| t1 is TaskCreated && t2 is TaskCreated
            ||| t1 is TaskUpdated && t2 is TaskUpdated
            ||| t1 is TaskDeleted && t2 is TaskDeleted
            ||| t1 is TaskCompleted && t2 is TaskCompleted
            ||| t1 is TaskCancelled && t2 is TaskCancelled
            ||| t1 is ProjectCreated && t2 is ProjectCreated
            ||| t1 is ProjectUpdated && t2 is ProjectUpdated
            ||| t1 is ProjectDeleted && t2 is ProjectDeleted
            ||| t1 is ProjectCompleted && t2 is ProjectCompleted
            ||| t1 is AreaCreated && t2 is AreaCreated
            ||| t1 is AreaUpdated && t2 is AreaUpdated
            ||| t1 is AreaDeleted && t2 is AreaDeleted
            ||| t1 is ProgressStarted && t2 is ProgressStarted
            ||| t1 is ProgressUpdated && t2 is ProgressUpdated
            ||| t1 is ProgressCompleted && t2 is ProgressCompleted
            ||| t1 is ProgressFailed && t2 is ProgressFailed
        },
{
}

/// A filter accepts an event exactly when every criterion it has holds: some
/// listed event type, at any position of the list, is the event's variant;
/// when the event names an entity, some listed identifier has its text; some
/// listed source is the event's source; and the event is not earlier than
/// `since`.
pub proof fn filter_accepts_exactly_when_each_present_criterion_holds(f: EventFilter, e: Event)
    ensures
        f.spec_matches(&e) <==> {
            &&& (f.event_types matches Some(ts) ==> exists|i: int|
                0 <= i < ts@.len() && (#[trigger] ts@[i]).spec_kind() == e.event_type.spec_kind())
            &&& (f.entity_ids matches Some(ids) ==> (e.event_type.spec_entity_id() matches Some(id)
                ==> exists|i: int| 0 <= i < ids@.len() && (#[trigger] ids@[i])@ == id@))
            &&& (f.sources matches Some(ss) ==> exists|i: int|
                0 <= i < ss@.len() && (#[trigger] ss@[i])@ == e.source@)
            &&& (f.since matches Some(since) ==> {
                ||| e.timestamp.secs > since.secs
                ||| e.timestamp.secs == since.secs && e.timestamp.nanos >= since.nanos
            })
        },
{
}

/// An event whose variant is listed at any position `i` of the filter's
/// event types, and which meets the filter's other criteria, is accepted.
pub proof fn any_listed_variant_is_accepted(f: EventFilter, e: Event, i: int)
    requires
        f.event_types matches Some(ts) && 0 <= i < ts@.len() && ts@[i].spec_kind()
            == e.event_type.spec_kind(),
        (EventFilter {
            event_types: None,
            entity_ids: f.entity_ids,
            sources: f.sources,
            since: f.since,
        }).spec_matches(&e),
    ensures
        f.spec_matches(&e),
{
    filter_accepts_exactly_when_each_present_criterion_holds(f, e);
}

} // verus!
