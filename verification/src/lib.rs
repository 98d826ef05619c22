//! Verified core of a guild-moderation bot that gates membership through a
//! verification workflow: configuration resolution against a directory
//! snapshot, a write-once shared state container, a record store with atomic
//! enrollment, and the event-driven enrollment/restoration engine.

pub mod cli;
pub mod commands;
pub mod config;
pub mod database;
pub mod eligibility;
pub mod engine;
pub mod context;
pub mod numeral;
pub mod snapshot;
pub mod state;
pub mod store;
