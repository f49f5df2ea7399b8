//! Progress reports of long-running operations, and the events they become.

use vstd::prelude::*;

use crate::event_types::EventType;
use crate::timestamp::Timestamp;

verus! {

/// The state of an operation that reports progress.
#[derive(Clone, Copy, Debug, PartialEq, Eq, Structural)]
pub enum ProgressStatus {
    Started,
    InProgress,
    Completed,
    Failed,
    Cancelled,
}

/// One progress report of an operation.
#[derive(Clone, Debug)]
pub struct ProgressUpdate {
    pub operation_id: u128,
    pub operation_name: String,
    pub current: u64,
    pub total: Option<u64>,
    pub message: Option<String>,
    pub timestamp: Timestamp,
    pub status: ProgressStatus,
}

impl EventType {
    /// The progress event that announces an operation in the given state.
    pub open spec fn spec_for_progress(status: ProgressStatus, operation_id: u128) -> EventType {
        match status {
            ProgressStatus::Started => EventType::ProgressStarted { operation_id },
            ProgressStatus::InProgress => EventType::ProgressUpdated { operation_id },
            ProgressStatus::Completed => EventType::ProgressCompleted { operation_id },
            ProgressStatus::Failed => EventType::ProgressFailed { operation_id },
            ProgressStatus::Cancelled => EventType::ProgressFailed { operation_id },
        }
    }

    /// The progress event that announces an operation in the given state: a
    /// failed or cancelled operation is announced as failed.
    pub fn for_progress(status: ProgressStatus, operation_id: u128) -> (t: EventType)
        ensures
            t == Self::spec_for_progress(status, operation_id),
    {
        match status {
            ProgressStatus::Started => EventType::ProgressStarted { operation_id },
            ProgressStatus::InProgress => EventType::ProgressUpdated { operation_id },
            ProgressStatus::Completed => EventType::ProgressCompleted { operation_id },
            ProgressStatus::Failed | ProgressStatus::Cancelled => EventType::ProgressFailed {
                operation_id,
            },
        }
    }
}

} // verus!
