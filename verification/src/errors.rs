//! The failure taxonomy of the engine.
//!
//! Every failure is local to the request that raised it: none of these
//! terminates the event loop.

use vstd::prelude::*;

verus! {

/// Why an inbound frame was dropped by strict validation.
#[derive(PartialEq, Eq, Structural, Clone, Copy, Debug)]
pub enum ProtocolValidationError {
    /// The frame carries no valid signature.
    Unsigned,
    /// The frame names no originating peer.
    MissingSender,
    /// The frame carries no message id.
    MissingId,
    /// The payload exceeds the transmission limit.
    Oversized,
}

/// Why a publish request was refused.
#[derive(PartialEq, Eq, Structural, Clone, Copy, Debug)]
pub enum PublishError {
    /// The local node has not subscribed to the topic.
    NotSubscribed,
    /// No connected peer is interested in the topic.
    NoPeers,
}

/// The bounded outbound queue is full; the caller must retry or drop.
#[derive(PartialEq, Eq, Structural, Clone, Copy, Debug)]
pub struct BackpressureRejection;

/// The dial address string is not a well-formed multiaddress.
#[derive(PartialEq, Eq, Structural, Clone, Copy, Debug)]
pub struct AddressParseError;

} // verus!
