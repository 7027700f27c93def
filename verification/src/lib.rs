//! Verified core of a personal work-journal synchronizer.
//!
//! The library holds the synchronization logic: splitting a raw entry into
//! items, classifying each with an emoji, deciding which page an entry
//! belongs to and whether a day header must be inserted, building the JSON
//! request bodies for the remote workspace, and merging tag sets. All
//! network I/O lives outside the library; the orchestrator is a verified
//! state machine that a thin driver runs.

pub mod config;
pub mod emoji;
pub mod entries;
pub mod period;
pub mod store;
pub mod sync;
pub mod tags;
pub mod text;
pub mod wire;
