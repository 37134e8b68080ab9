//! The peer pool, its owner and what it tells the rest of the node.

pub mod actor;
pub mod error;
pub mod laws;
pub mod preservation;
pub mod model;
pub mod peer;
pub mod pool;
pub mod status;
