//! Channel teleport: moving a payment channel to another funding output while the channel
//! is quiescent.

pub mod batch;
pub mod chain_source;
pub mod channel;
pub mod exchange;
pub mod laws;
pub mod model;
pub mod monitor;
pub mod msgs;
pub mod node;
pub mod node_laws;
pub mod node_model;
pub mod outside;
pub mod step_laws;
pub mod types;
