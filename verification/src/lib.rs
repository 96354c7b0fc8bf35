//! Background automation core for a package-manager control application.
//!
//! The crate covers the logic of four cooperating components: an interval
//! scheduler that decides when a maintenance run is due, an update
//! orchestrator that summarizes per-target outcomes into log entries and UI
//! events, a resource reclamation engine that classifies paths as locked or
//! reclaimable and bounds its delete retries, and a factory-reset coordinator
//! built on top of the reclamation engine.  Filesystem, registry, clock and
//! settings access stay outside; the functions here take plain values and
//! return decisions with proved contracts.

pub mod text;
pub mod interval;
pub mod schedule;
pub mod classify;
pub mod reclaim;
pub mod update;
pub mod events;
pub mod paths;
pub mod registry;
pub mod cache;
pub mod external;
pub mod ops;
pub mod cleanup;
pub mod factory;
pub mod diagnostics;
