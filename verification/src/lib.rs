//! Peer-to-peer connectivity and topic-based message fan-out.

pub mod classifier;
pub mod connectivity;
pub mod ffi_error;
pub mod pubsub;
