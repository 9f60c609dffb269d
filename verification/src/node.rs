//! One node of the overlay: the gossip engine plus its application
//! bridge, under the handlers the event loop calls.
//!
//! The shell owns the sockets, the timers and the clock.  It feeds
//! each event into the matching handler here — a newly bound listen
//! address, an inbound frame, a drained broadcast request — and
//! carries out the returned [`Action`]s.

use vstd::prelude::*;

use crate::bridge::{recorded, AddrCell, OutboundQueue};
use crate::engine::{accept_output, Action, GossipEngine, PeerId, RawFrame};
use crate::errors::{BackpressureRejection, PublishError};
use crate::msg::{id_of, MessageId};

verus! {

/// A received message as it is handed to the application shell.
#[derive(Clone, Debug)]
pub struct RecPayload {
    pub message: String,
    pub sender: String,
}

/// The arguments and working directory a second process instance
/// forwarded to the running one.
#[derive(Clone, Debug)]
pub struct InstancePayload {
    pub args: Vec<String>,
    pub cwd: String,
}

/// One engine instance: gossip state, the bounded outbound queue, and
/// the write-once local-address cell.  Instances share nothing.
pub struct Node {
    /// Topic subscription, interested peers, deduplication.
    pub gossip: GossipEngine,
    /// Pending broadcast payloads from the shell, capacity one.
    pub queue: OutboundQueue,
    /// The first successfully bound listening address.
    pub addr_cell: AddrCell,
}

impl Node {
    /// The engine state is sound and the bridge is as constructed.
    pub open spec fn wf(self) -> bool {
        self.gossip.wf()
    }

    /// A fresh node: unsubscribed, no peers, nothing seen, nothing
    /// queued, address unknown.
    pub fn new(local_peer: PeerId, window_nanos: u64) -> (r: Node)
        requires
            window_nanos > 0,
        ensures
            r.wf(),
            r.gossip.local_peer == local_peer,
            !r.gossip.subscribed,
            r.gossip.peers@.len() == 0,
            r.gossip.cache.window_nanos == window_nanos,
            forall|id: MessageId, t: int| !r.gossip.cache.live_at(id, t),
            r.queue.slot is None,
            r.addr_cell.addr is None,
    {
        Node {
            gossip: GossipEngine::new(local_peer, window_nanos),
            queue: OutboundQueue::new(),
            addr_cell: AddrCell::new(),
        }
    }

    /// Submit a broadcast payload from the shell.  Accepted exactly
    /// when the capacity-one queue is empty; otherwise the caller
    /// observes backpressure and the waiting payload stays.
    pub fn request_broadcast(&mut self, payload: Vec<u8>) -> (r: Result<(), BackpressureRejection>)
        ensures
            final(self).gossip == old(self).gossip,
            final(self).addr_cell == old(self).addr_cell,
            r is Ok <==> old(self).queue.slot is None,
            old(self).queue.slot is None ==> (final(self).queue.slot matches Some(p) && p@
                == payload@),
            old(self).queue.slot is Some ==> final(self).queue == old(self).queue,
    {
        self.queue.try_push(payload)
    }

    /// The recorded local address, or nothing before the first
    /// successful listen.
    pub fn get_local_address(&self) -> (r: Option<String>)
        ensures
            r is Some <==> self.addr_cell.addr is Some,
            r matches Some(a) ==> (self.addr_cell.addr matches Some(b) && a@ == b@),
    {
        self.addr_cell.get()
    }

    /// A listener reported a newly bound address.  Only the first
    /// report is captured and announced to the shell; later ones
    /// change nothing and announce nothing.
    pub fn on_listen_addr(&mut self, addr: String) -> (r: Option<Action>)
        ensures
            final(self).gossip == old(self).gossip,
            final(self).queue == old(self).queue,
            recorded(old(self).addr_cell, final(self).addr_cell, addr@),
            old(self).addr_cell.addr is None ==> (r matches Some(a) && (a matches
                Action::AddressReady { addr: announced } && announced@ == addr@)),
            old(self).addr_cell.addr is Some ==> r is None,
    {
        let announced = addr.clone();
        let first = self.addr_cell.record(addr);
        if first {
            Some(Action::AddressReady { addr: announced })
        } else {
            None
        }
    }

    /// Handle one inbound frame from the swarm: validate, deduplicate,
    /// and on acceptance deliver to the application and re-flood to
    /// every interested peer except the one it arrived from.
    pub fn on_frame(&mut self, frame: RawFrame, from: PeerId, now_nanos: u64) -> (r: Vec<Action>)
        requires
            old(self).wf(),
        ensures
            final(self).wf(),
            final(self).queue == old(self).queue,
            final(self).addr_cell == old(self).addr_cell,
            final(self).gossip.local_peer == old(self).gossip.local_peer,
            final(self).gossip.subscribed == old(self).gossip.subscribed,
            final(self).gossip.peers == old(self).gossip.peers,
            GossipEngine::receive_records(
                old(self).gossip,
                final(self).gossip,
                frame,
                now_nanos as int,
            ),
            !old(self).gossip.accepts(frame, now_nanos as int) ==> r@.len() == 0,
            old(self).gossip.accepts(frame, now_nanos as int) ==> accept_output(
                old(self).gossip,
                frame,
                from,
                r@,
            ),
    {
        self.gossip.on_receive(frame, from, now_nanos)
    }

    /// Drain the outbound queue: publish the waiting payload, if any,
    /// stamped at `now_nanos`.  Publishing succeeds exactly when the
    /// node is subscribed and at least one peer is interested; a
    /// failure is reported to be logged, never retried, and either way
    /// the queue is empty afterwards.
    pub fn drain_outbound(&mut self, now_nanos: u64) -> (r: Result<
        Option<(MessageId, Action)>,
        PublishError,
    >)
        requires
            old(self).wf(),
        ensures
            final(self).wf(),
            final(self).queue.slot is None,
            final(self).addr_cell == old(self).addr_cell,
            final(self).gossip.local_peer == old(self).gossip.local_peer,
            final(self).gossip.subscribed == old(self).gossip.subscribed,
            final(self).gossip.peers == old(self).gossip.peers,
            old(self).queue.slot is None ==> (r matches Ok(o) && o is None && final(self).gossip
                == old(self).gossip),
            old(self).queue.slot is Some ==> (r is Ok <==> old(self).gossip.subscribed && old(
                self,
            ).gossip.peers@.len() > 0),
            old(self).queue.slot is Some && !old(self).gossip.subscribed ==> (r matches Err(e)
                && e is NotSubscribed && final(self).gossip == old(self).gossip),
            old(self).queue.slot is Some && old(self).gossip.subscribed && old(
                self,
            ).gossip.peers@.len() == 0 ==> (r matches Err(e) && e is NoPeers && final(self).gossip
                == old(self).gossip),
            old(self).queue.slot is Some && old(self).gossip.subscribed && old(
                self,
            ).gossip.peers@.len() > 0 ==> (r matches Ok(o) && (o matches Some(ok) && ok.0
                == id_of(old(self).queue.slot->0@, now_nanos) && (ok.1 matches Action::Flood {
                msg,
                targets,
            } && msg.payload@ == old(self).queue.slot->0@ && msg.sender == old(
                self,
            ).gossip.local_peer && msg.id == ok.0
                && targets@ == old(self).gossip.peers@ && final(self).gossip.cache.live_at(
                ok.0,
                now_nanos as int,
            )))),
    {
        match self.queue.pop() {
            None => Ok(None),
            Some(payload) => {
                match self.gossip.publish(payload, now_nanos) {
                    Ok(ok) => Ok(Some(ok)),
                    Err(e) => Err(e),
                }
            },
        }
    }
}

} // verus!
