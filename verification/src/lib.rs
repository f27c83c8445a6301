//! Durable event store and outbox-style sync engine for an edge agent.
//!
//! Events are recorded in a local SQLite file before they are acknowledged,
//! and a background engine forwards them to a hub in bounded batches,
//! retrying with capped exponential backoff.

pub mod config;
pub mod db;
pub mod error;
pub mod event;
pub mod server;
pub mod sync;
