//! The orchestrator of the swarm.

pub mod orchestrator;
