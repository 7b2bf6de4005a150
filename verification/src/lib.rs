//! Verified messaging core of an agent swarm: the message envelope, the router
//! that plans deliveries to registered clients, the request/response
//! correlator, and the orchestrator that owns the agent registry.
//!
//! Everything that waits (channels, timers, tasks) lives outside this crate.
//! The types here decide; their callers perform what was decided and report
//! back what happened.

pub mod agents;
pub mod clock;
pub mod fieldmap;
pub mod importer;
pub mod mcp;
pub mod swarm;
pub mod template;
pub mod text_map;
