//! A peer-to-peer broadcast messaging engine core.
//!
//! Nodes join a single named topic and exchange payloads by flooding:
//! every received message is re-sent to all interested peers except the
//! one it arrived from.  A time-windowed deduplication cache keeps a
//! message from being delivered or re-flooded more than once, and a
//! bounded outbound queue gives the surrounding shell backpressure.
//!
//! The crate holds only the decision logic: what to flood, what to
//! deliver, what to drop.  The surrounding shell owns the sockets and
//! timers, feeds events in, and carries the returned actions out.

pub mod addr;
pub mod bridge;
pub mod dedup;
pub mod engine;
pub mod errors;
pub mod msg;
pub mod node;
