//! Outbound-message dispatch path of a multicast transport endpoint.
//!
//! Given an application-level message destined for a multicast group, the
//! scheduler locates the currently active link, optionally rewrites the
//! payload for zero-copy shared-memory delivery, hands the message to the
//! link's outbound pipeline, and records delivery/drop statistics.

pub mod gateway;
pub mod msg;
pub mod pipeline;
pub mod shm;
pub mod stats;
pub mod tx;
