//! Verified core of a Things 3 integration: database configuration, the error
//! vocabulary, and the event model with its filters and broadcaster.

pub mod broadcaster;
pub mod config;
pub mod database;
pub mod error;
pub mod event_filter;
pub mod event_types;
pub mod progress;
pub mod things_id;
pub mod timestamp;

pub use broadcaster::{EventBroadcaster, EventSubscription};
pub use config::{HostPaths, ThingsConfig, ThingsConfigBuilder};
pub use error::{Result, ThingsDatabaseError, ThingsError, ThingsExportError, ThingsQueryError};
pub use event_filter::EventFilter;
pub use event_types::{Event, EventKind, EventType};
pub use progress::{ProgressStatus, ProgressUpdate};
pub use things_id::ThingsId;
pub use timestamp::Timestamp;
