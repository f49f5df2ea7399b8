//! What happened to which entity: event types, their kinds, and events.

use vstd::prelude::*;

use crate::things_id::ThingsId;
use crate::timestamp::Timestamp;

verus! {

#[verifier::external_type_specification]
#[verifier::external_body]
pub struct ExJsonValue(serde_json::Value);

/// Event types for Things 3 entities. Task, project and area events carry the
/// entity's identifier; progress events carry the operation's identifier.
#[derive(Debug, PartialEq)]
pub enum EventType {
    TaskCreated { task_id: ThingsId },
    TaskUpdated { task_id: ThingsId },
    TaskDeleted { task_id: ThingsId },
    TaskCompleted { task_id: ThingsId },
    TaskCancelled { task_id: ThingsId },
    ProjectCreated { project_id: ThingsId },
    ProjectUpdated { project_id: ThingsId },
    ProjectDeleted { project_id: ThingsId },
    ProjectCompleted { project_id: ThingsId },
    AreaCreated { area_id: ThingsId },
    AreaUpdated { area_id: ThingsId },
    AreaDeleted { area_id: ThingsId },
    ProgressStarted { operation_id: u128 },
    ProgressUpdated { operation_id: u128 },
    ProgressCompleted { operation_id: u128 },
    ProgressFailed { operation_id: u128 },
}

/// The variant of an [`EventType`] without its payload.
#[derive(Clone, Copy, Debug, PartialEq, Eq, Structural)]
pub enum EventKind {
    TaskCreated,
    TaskUpdated,
    TaskDeleted,
    TaskCompleted,
    TaskCancelled,
    ProjectCreated,
    ProjectUpdated,
    ProjectDeleted,
    ProjectCompleted,
    AreaCreated,
    AreaUpdated,
    AreaDeleted,
    ProgressStarted,
    ProgressUpdated,
    ProgressCompleted,
    ProgressFailed,
}

impl EventKind {
    /// Whether this kind belongs to a progress event.
    pub open spec fn spec_is_progress(self) -> bool {
        ||| self == EventKind::ProgressStarted
        ||| self == EventKind::ProgressUpdated
        ||| self == EventKind::ProgressCompleted
        ||| self == EventKind::ProgressFailed
    }
}

impl EventType {
    /// The variant of this event type.
    pub open spec fn spec_kind(&self) -> EventKind {
        match self {
            EventType::TaskCreated { .. } => EventKind::TaskCreated,
            EventType::TaskUpdated { .. } => EventKind::TaskUpdated,
            EventType::TaskDeleted { .. } => EventKind::TaskDeleted,
            EventType::TaskCompleted { .. } => EventKind::TaskCompleted,
            EventType::TaskCancelled { .. } => EventKind::TaskCancelled,
            EventType::ProjectCreated { .. } => EventKind::ProjectCreated,
            EventType::ProjectUpdated { .. } => EventKind::ProjectUpdated,
            EventType::ProjectDeleted { .. } => EventKind::ProjectDeleted,
            EventType::ProjectCompleted { .. } => EventKind::ProjectCompleted,
            EventType::AreaCreated { .. } => EventKind::AreaCreated,
            EventType::AreaUpdated { .. } => EventKind::AreaUpdated,
            EventType::AreaDeleted { .. } => EventKind::AreaDeleted,
            EventType::ProgressStarted { .. } => EventKind::ProgressStarted,
            EventType::ProgressUpdated { .. } => EventKind::ProgressUpdated,
            EventType::ProgressCompleted { .. } => EventKind::ProgressCompleted,
            EventType::ProgressFailed { .. } => EventKind::ProgressFailed,
        }
    }

    /// The entity an event is about: the task, project or area identifier, and
    /// none for progress events.
    pub open spec fn spec_entity_id(&self) -> Option<ThingsId> {
        match self {
            EventType::TaskCreated { task_id } => Some(*task_id),
            EventType::TaskUpdated { task_id } => Some(*task_id),
            EventType::TaskDeleted { task_id } => Some(*task_id),
            EventType::TaskCompleted { task_id } => Some(*task_id),
            EventType::TaskCancelled { task_id } => Some(*task_id),
            EventType::ProjectCreated { project_id } => Some(*project_id),
            EventType::ProjectUpdated { project_id } => Some(*project_id),
            EventType::ProjectDeleted { project_id } => Some(*project_id),
            EventType::ProjectCompleted { project_id } => Some(*project_id),
            EventType::AreaCreated { area_id } => Some(*area_id),
            EventType::AreaUpdated { area_id } => Some(*area_id),
            EventType::AreaDeleted { area_id } => Some(*area_id),
            EventType::ProgressStarted { .. } => None,
            EventType::ProgressUpdated { .. } => None,
            EventType::ProgressCompleted { .. } => None,
            EventType::ProgressFailed { .. } => None,
        }
    }

    /// The variant of this event type.
    pub fn kind(&self) -> (k: EventKind)
        ensures
            k == self.spec_kind(),
    {
        match self {
            EventType::TaskCreated { .. } => EventKind::TaskCreated,
            EventType::TaskUpdated { .. } => EventKind::TaskUpdated,
            EventType::TaskDeleted { .. } => EventKind::TaskDeleted,
            EventType::TaskCompleted { .. } => EventKind::TaskCompleted,
            EventType::TaskCancelled { .. } => EventKind::TaskCancelled,
            EventType::ProjectCreated { .. } => EventKind::ProjectCreated,
            EventType::ProjectUpdated { .. } => EventKind::ProjectUpdated,
            EventType::ProjectDeleted { .. } => EventKind::ProjectDeleted,
            EventType::ProjectCompleted { .. } => EventKind::ProjectCompleted,
            EventType::AreaCreated { .. } => EventKind::AreaCreated,
            EventType::AreaUpdated { .. } => EventKind::AreaUpdated,
            EventType::AreaDeleted { .. } => EventKind::AreaDeleted,
            EventType::ProgressStarted { .. } => EventKind::ProgressStarted,
            EventType::ProgressUpdated { .. } => EventKind::ProgressUpdated,
            EventType::ProgressCompleted { .. } => EventKind::ProgressCompleted,
            EventType::ProgressFailed { .. } => EventKind::ProgressFailed,
        }
    }

    /// The entity this event is about; progress events have none.
    pub fn entity_id(&self) -> (r: Option<&ThingsId>)
        ensures
            r matches Some(id) ==> self.spec_entity_id() == Some(*id),
            r is None ==> self.spec_entity_id() is None,
    {
        match self {
            EventType::TaskCreated { task_id }
            | EventType::TaskUpdated { task_id }
            | EventType::TaskDeleted { task_id }
            | EventType::TaskCompleted { task_id }
            | EventType::TaskCancelled { task_id } => Some(task_id),
            EventType::ProjectCreated { project_id }
            | EventType::ProjectUpdated { project_id }
            | EventType::ProjectDeleted { project_id }
            | EventType::ProjectCompleted { project_id } => Some(project_id),
            EventType::AreaCreated { area_id }
            | EventType::AreaUpdated { area_id }
            | EventType::AreaDeleted { area_id } => Some(area_id),
            EventType::ProgressStarted { .. }
            | EventType::ProgressUpdated { .. }
            | EventType::ProgressCompleted { .. }
            | EventType::ProgressFailed { .. } => None,
        }
    }
}

impl Clone for EventType {
    fn clone(&self) -> (r: Self)
        ensures
            r == *self,
    {
        match self {
            EventType::TaskCreated { task_id } => EventType::TaskCreated { task_id: task_id.clone() },
            EventType::TaskUpdated { task_id } => EventType::TaskUpdated { task_id: task_id.clone() },
            EventType::TaskDeleted { task_id } => EventType::TaskDeleted { task_id: task_id.clone() },
            EventType::TaskCompleted { task_id } => EventType::TaskCompleted {
                task_id: task_id.clone(),
            },
            EventType::TaskCancelled { task_id } => EventType::TaskCancelled {
                task_id: task_id.clone(),
            },
            EventType::ProjectCreated { project_id } => EventType::ProjectCreated {
                project_id: project_id.clone(),
            },
            EventType::ProjectUpdated { project_id } => EventType::ProjectUpdated {
                project_id: project_id.clone(),
            },
            EventType::ProjectDeleted { project_id } => EventType::ProjectDeleted {
                project_id: project_id.clone(),
            },
            EventType::ProjectCompleted { project_id } => EventType::ProjectCompleted {
                project_id: project_id.clone(),
            },
            EventType::AreaCreated { area_id } => EventType::AreaCreated { area_id: area_id.clone() },
            EventType::AreaUpdated { area_id } => EventType::AreaUpdated { area_id: area_id.clone() },
            EventType::AreaDeleted { area_id } => EventType::AreaDeleted { area_id: area_id.clone() },
            EventType::ProgressStarted { operation_id } => EventType::ProgressStarted {
                operation_id: *operation_id,
            },
            EventType::ProgressUpdated { operation_id } => EventType::ProgressUpdated {
                operation_id: *operation_id,
            },
            EventType::ProgressCompleted { operation_id } => EventType::ProgressCompleted {
                operation_id: *operation_id,
            },
            EventType::ProgressFailed { operation_id } => EventType::ProgressFailed {
                operation_id: *operation_id,
            },
        }
    }
}

/// An event: what happened, when, where it came from, and optional payload.
#[derive(Debug, PartialEq)]
pub struct Event {
    pub id: u128,
    pub event_type: EventType,
    pub timestamp: Timestamp,
    pub data: Option<serde_json::Value>,
    pub source: String,
}

impl Clone for Event {
    fn clone(&self) -> (r: Self)
        ensures
            r == *self,
    {
        let data = match &self.data {
            Some(v) => Some(clone_json(v)),
            None => None,
        };
        Event {
            id: self.id,
            event_type: self.event_type.clone(),
            timestamp: self.timestamp,
            data,
            source: self.source.clone(),
        }
    }
}

/// Calls `serde_json::Value::clone`. `Value` derives `Clone`, and the `Map`
/// inside an object clones its inner map, so the copy is the same value.
#[verifier::external_body]
fn clone_json(v: &serde_json::Value) -> (r: serde_json::Value)
    ensures
        r == *v,
{
    v.clone()
}

} // verus!
