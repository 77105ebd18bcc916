//! Tracks the lifecycle of ingest workflows (Submission Information
//! Packages) by consuming lifecycle events and maintaining one status
//! record per workflow instance.
//!
//! The core of the library is the event-to-state-transition engine: it
//! maps an incoming event's type and payload to a persistence operation
//! (create or update) and classifies the anomalies this mapping can
//! surface (missing predecessor, ambiguous correlation, unknown event
//! type). Broker and database plumbing live outside the library and hand
//! it plain, decoded values.

pub mod anomaly;
pub mod config;
pub mod event;
pub mod extract;
pub mod payload;
pub mod process;
pub mod record;
pub mod store;
pub mod transition;

pub use config::Config;
pub use config::format_postgres_connection_string;
pub use config::format_pulsar_connection_string;
pub use event::CloudEvent;
pub use event::Data;
