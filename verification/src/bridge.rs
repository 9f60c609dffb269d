//! The application bridge: the bounded outbound queue and the
//! write-once local-address cell.
//!
//! The shell submits broadcast payloads through the queue — capacity
//! one, a deliberate backpressure valve — and reads the node's
//! listening address from the cell, which the event loop writes at
//! most once.

use vstd::prelude::*;

use crate::errors::BackpressureRejection;

verus! {

/// Bounded FIFO of pending broadcast payloads, capacity one.
pub struct OutboundQueue {
    /// The one waiting payload, if any.
    pub slot: Option<Vec<u8>>,
}

impl OutboundQueue {
    /// An empty queue.
    pub fn new() -> (r: OutboundQueue)
        ensures
            r.slot is None,
    {
        OutboundQueue { slot: None }
    }

    /// Submit a payload.  Accepted exactly when the queue is empty; a
    /// second submission before the first is drained is rejected and
    /// leaves the waiting payload in place.
    pub fn try_push(&mut self, payload: Vec<u8>) -> (r: Result<(), BackpressureRejection>)
        ensures
            r is Ok <==> old(self).slot is None,
            old(self).slot is None ==> (final(self).slot matches Some(p) && p@ == payload@),
            old(self).slot is Some ==> *final(self) == *old(self),
    {
        if self.slot.is_none() {
            self.slot = Some(payload);
            Ok(())
        } else {
            Err(BackpressureRejection)
        }
    }

    /// Take the waiting payload, leaving the queue empty.
    pub fn pop(&mut self) -> (r: Option<Vec<u8>>)
        ensures
            r == old(self).slot,
            final(self).slot is None,
    {
        self.slot.take()
    }
}

/// Law: with the queue at capacity one, a second submission before the
/// first is drained observes a backpressure rejection: at most one
/// payload is ever waiting.
pub proof fn lemma_second_push_rejected(q0: OutboundQueue, p: Vec<u8>)
    requires
        q0.slot is Some,
    ensures
        forall|q1: OutboundQueue, r: Result<(), BackpressureRejection>|
            push_step(q0, q1, p, r) ==> r is Err && q1 == q0,
{
}

/// The relation `try_push` establishes between the queue before and
/// after one call submitting `p` with outcome `r`.
pub open spec fn push_step(
    pre: OutboundQueue,
    post: OutboundQueue,
    p: Vec<u8>,
    r: Result<(), BackpressureRejection>,
) -> bool {
    &&& (r is Ok <==> pre.slot is None)
    &&& (pre.slot is None ==> (post.slot matches Some(w) && w@ == p@))
    &&& (pre.slot is Some ==> post == pre)
}

/// The cell that holds the node's first successfully bound listening
/// address.  Written at most once; later listen events do not
/// overwrite it.
pub struct AddrCell {
    /// The address, textual form, once known.
    pub addr: Option<String>,
}

/// The relation `record` establishes: an empty cell takes the address,
/// a full cell is left exactly as it was.
pub open spec fn recorded(pre: AddrCell, post: AddrCell, addr: Seq<char>) -> bool {
    if pre.addr is None {
        post.addr matches Some(a) && a@ == addr
    } else {
        post == pre
    }
}

impl AddrCell {
    /// An empty cell: the address is still unavailable.
    pub fn new() -> (r: AddrCell)
        ensures
            r.addr is None,
    {
        AddrCell { addr: None }
    }

    /// Record a newly bound address.  Only the first call writes;
    /// returns whether this was the first.
    pub fn record(&mut self, addr: String) -> (first: bool)
        ensures
            recorded(*old(self), *final(self), addr@),
            first <==> old(self).addr is None,
            final(self).addr is Some,
    {
        if self.addr.is_none() {
            self.addr = Some(addr);
            true
        } else {
            false
        }
    }

    /// The recorded address, or nothing while none is known.
    pub fn get(&self) -> (r: Option<String>)
        ensures
            r is Some <==> self.addr is Some,
            r matches Some(a) ==> (self.addr matches Some(b) && a@ == b@),
    {
        match &self.addr {
            Some(a) => Some(a.clone()),
            None => None,
        }
    }
}

/// Law: the local address is a write-once cell.  Before any successful
/// listen it is unavailable; the first record fixes it, and any later
/// record — whatever address it carries — leaves the first address in
/// place.
pub proof fn lemma_local_address_write_once(
    c0: AddrCell,
    c1: AddrCell,
    c2: AddrCell,
    a1: Seq<char>,
    a2: Seq<char>,
)
    requires
        c0.addr is None,
        recorded(c0, c1, a1),
        recorded(c1, c2, a2),
    ensures
        c1.addr matches Some(x) && x@ == a1,
        c2.addr matches Some(y) && y@ == a1,
{
}

} // verus!
