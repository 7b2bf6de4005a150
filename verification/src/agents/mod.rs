//! What every agent of the swarm has in common, and the parts of the
//! individual agents that are plain rules on plain data.

pub mod base;
pub mod compliance;
pub mod data_processing;
pub mod env_adapter;
pub mod sketch;
pub mod uad_adapter;
