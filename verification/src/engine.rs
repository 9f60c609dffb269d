//! The gossip propagation engine.
//!
//! The engine owns topic subscription state, the set of connected peers
//! interested in the topic, and the deduplication cache.  Its handlers
//! are pure decisions: the shell feeds in an inbound frame, a peer
//! subscription change or an outbound payload, and carries out the
//! returned [`Action`]s (flood, deliver, nothing).

use vstd::prelude::*;

use crate::dedup::DedupCache;
use crate::errors::{PublishError, ProtocolValidationError};
use crate::msg::{id_of, make_message_id, MessageId};

verus! {

/// Largest payload the engine accepts on an inbound frame, in bytes.
pub const MAX_PAYLOAD_BYTES: usize = 65536;

/// Identity of one peer, as the shell numbers the transport-level
/// identities it has seen.  Compared by value.
#[derive(PartialEq, Eq, Structural, Clone, Copy, Debug, Hash)]
pub struct PeerId {
    pub id: u64,
}

/// One validated broadcast message: payload bytes, originating peer,
/// and the id derived at publish time.
#[derive(Debug, PartialEq, Eq)]
pub struct GossipMessage {
    pub payload: Vec<u8>,
    pub sender: PeerId,
    pub id: MessageId,
}

/// One inbound frame as the transport hands it up, before validation.
/// A field the wire bytes did not carry arrives as `None`; the
/// transport reports whether the signature checked out.
#[derive(Debug)]
pub struct RawFrame {
    pub payload: Vec<u8>,
    pub sender: Option<PeerId>,
    pub id: Option<MessageId>,
    pub signature_ok: bool,
}

/// What strict validation demands of an inbound frame.
pub open spec fn frame_ok(f: RawFrame) -> bool {
    f.signature_ok && f.sender is Some && f.id is Some && f.payload@.len() <= MAX_PAYLOAD_BYTES
}

/// What an engine in state `pre` produces for an accepted frame from
/// `from`: exactly one delivery of the payload to the application,
/// then one flood of the message to every interested peer except the
/// one it arrived from, each such peer once.
pub open spec fn accept_output(pre: GossipEngine, frame: RawFrame, from: PeerId, r: Seq<Action>) -> bool {
    &&& r.len() == 2
    &&& (r[0] matches Action::Deliver { payload, sender } && payload@ == frame.payload@ && Some(
        sender,
    ) == frame.sender)
    &&& (r[1] matches Action::Flood { msg, targets } && msg.payload@ == frame.payload@ && Some(
        msg.sender,
    ) == frame.sender && Some(msg.id) == frame.id && targets@.no_duplicates() && (forall|q: PeerId|
        #![trigger targets@.contains(q)]
        #![trigger pre.peers@.contains(q)]
        targets@.contains(q) == (pre.peers@.contains(q) && q != from)))
}

/// What the engine asks the shell to do.
#[derive(Debug, PartialEq, Eq)]
pub enum Action {
    /// Tell the shell its own listening address, once.
    AddressReady { addr: String },
    /// Open a transport session to this address.
    Dial { dial_addr: String },
    /// Send the message to each of these peers.
    Flood { msg: GossipMessage, targets: Vec<PeerId> },
    /// Hand the payload and its sender up to the application.
    Deliver { payload: Vec<u8>, sender: PeerId },
}

/// Validate an inbound frame under the strict policy: it must be
/// signed, name its sender, carry an id, and fit the payload limit.
/// Exactly the frames that pass yield a message; each failing frame
/// yields the error of the first check it fails, in the order
/// signature, sender, id, size.
pub fn validate_frame(f: RawFrame) -> (r: Result<GossipMessage, ProtocolValidationError>)
    ensures
        r is Ok <==> frame_ok(f),
        r matches Ok(m) ==> m.payload@ == f.payload@ && Some(m.sender) == f.sender && Some(
            m.id,
        ) == f.id,
        !f.signature_ok ==> (r matches Err(e) && e is Unsigned),
        f.signature_ok && f.sender is None ==> (r matches Err(e) && e is MissingSender),
        f.signature_ok && f.sender is Some && f.id is None ==> (r matches Err(e)
            && e is MissingId),
        f.signature_ok && f.sender is Some && f.id is Some && f.payload@.len()
            > MAX_PAYLOAD_BYTES ==> (r matches Err(e) && e is Oversized),
{
    if !f.signature_ok {
        return Err(ProtocolValidationError::Unsigned);
    }
    let sender = match f.sender {
        Some(p) => p,
        None => {
            return Err(ProtocolValidationError::MissingSender);
        },
    };
    let id = match f.id {
        Some(i) => i,
        None => {
            return Err(ProtocolValidationError::MissingId);
        },
    };
    if f.payload.len() > MAX_PAYLOAD_BYTES {
        return Err(ProtocolValidationError::Oversized);
    }
    Ok(GossipMessage { payload: f.payload, sender: sender, id: id })
}

/// Byte-for-byte copy of a payload.
fn copy_bytes(v: &Vec<u8>) -> (r: Vec<u8>)
    ensures
        r@ == v@,
{
    let mut r: Vec<u8> = Vec::new();
    let mut i: usize = 0;
    while i < v.len()
        invariant
            i <= v.len(),
            r@ == v@.take(i as int),
        decreases v.len() - i,
    {
        r.push(v[i]);
        proof {
            assert(r@ =~= v@.take(i + 1));
        }
        i = i + 1;
    }
    proof {
        assert(v@.take(v@.len() as int) =~= v@);
    }
    r
}

/// Element-for-element copy of a peer list.
fn copy_peers(v: &Vec<PeerId>) -> (r: Vec<PeerId>)
    ensures
        r@ == v@,
{
    let mut r: Vec<PeerId> = Vec::new();
    let mut i: usize = 0;
    while i < v.len()
        invariant
            i <= v.len(),
            r@ == v@.take(i as int),
        decreases v.len() - i,
    {
        r.push(v[i]);
        proof {
            assert(r@ =~= v@.take(i + 1));
        }
        i = i + 1;
    }
    proof {
        assert(v@.take(v@.len() as int) =~= v@);
    }
    r
}

/// The peers of `v` other than `excluded`, kept in order, each once.
fn peers_excluding(v: &Vec<PeerId>, excluded: PeerId) -> (r: Vec<PeerId>)
    requires
        v@.no_duplicates(),
    ensures
        r@.no_duplicates(),
        forall|q: PeerId|
            #![trigger r@.contains(q)]
            #![trigger v@.contains(q)]
            r@.contains(q) == (v@.contains(q) && q != excluded),
{
    let mut r: Vec<PeerId> = Vec::new();
    let mut i: usize = 0;
    while i < v.len()
        invariant
            i <= v.len(),
            v@.no_duplicates(),
            r@.no_duplicates(),
            forall|q: PeerId|
                #![trigger r@.contains(q)]
                #![trigger v@.take(i as int).contains(q)]
                r@.contains(q) == (v@.take(i as int).contains(q) && q != excluded),
        decreases v.len() - i,
    {
        let e = v[i];
        if !(e.id == excluded.id) {
            let ghost r_pre = r@;
            proof {
                if r_pre.contains(e) {
                    assert(v@.take(i as int).contains(e));
                    let j = choose|j: int| 0 <= j < i && v@.take(i as int)[j] == e;
                    assert(v@[j] == v@[i as int]);
                    assert(false);
                }
            }
            r.push(e);
            proof {
                assert(r@ == r_pre.push(e));
                assert forall|q: PeerId| #![trigger r@.contains(q)] r@.contains(q) implies (
                r_pre.contains(q) || q == e) by {
                    let k = choose|k: int| 0 <= k < r@.len() && r@[k] == q;
                    if k < r_pre.len() {
                        assert(r_pre[k] == q);
                    }
                }
                assert(r@[r_pre.len() as int] == e);
                assert forall|q: PeerId| r_pre.contains(q) implies r@.contains(q) by {
                    let k = choose|k: int| 0 <= k < r_pre.len() && r_pre[k] == q;
                    assert(r@[k] == q);
                }
                assert(r@.no_duplicates());
            }
        }
        proof {
            assert forall|q: PeerId| #![trigger v@.take(i + 1).contains(q)] v@.take(
                i + 1,
            ).contains(q) implies (v@.take(i as int).contains(q) || q == v@[i as int]) by {
                let k = choose|k: int| 0 <= k <= i && (#[trigger] v@.take(i + 1)[k]) == q;
                if k < i {
                    assert(v@.take(i as int)[k] == q);
                }
            }
            assert forall|q: PeerId| v@.take(i as int).contains(q) implies v@.take(
                i + 1,
            ).contains(q) by {
                let k = choose|k: int| 0 <= k < i && v@.take(i as int)[k] == q;
                assert(v@.take(i + 1)[k] == q);
            }
            assert(v@.take(i + 1)[i as int] == v@[i as int]);
            assert(v@.take(i + 1).contains(v@[i as int]));
        }
        i = i + 1;
    }
    proof {
        assert(v@.take(v@.len() as int) =~= v@);
    }
    r
}

/// Per-topic gossip state: {Unsubscribed -> Subscribed}, the interested
/// peers, and the deduplication cache.
pub struct GossipEngine {
    /// This node's own identity.
    pub local_peer: PeerId,
    /// Whether the local node has joined the topic.
    pub subscribed: bool,
    /// Connected peers that signalled interest in the topic.
    pub peers: Vec<PeerId>,
    /// Recently seen message ids.
    pub cache: DedupCache,
}

impl GossipEngine {
    /// Peers are listed once each and the cache window is sound.
    pub open spec fn wf(self) -> bool {
        self.cache.wf() && self.peers@.no_duplicates()
    }

    /// Whether an arriving frame would be delivered and re-flooded at
    /// time `now`: it must pass strict validation, the node must be
    /// subscribed, and the id must not still count as seen.
    pub open spec fn accepts(self, f: RawFrame, now: int) -> bool {
        frame_ok(f) && self.subscribed && !self.cache.live_at(f.id->0, now)
    }

    /// A fresh, unsubscribed engine with an empty cache and no peers.
    pub fn new(local_peer: PeerId, window_nanos: u64) -> (r: GossipEngine)
        requires
            window_nanos > 0,
        ensures
            r.wf(),
            r.local_peer == local_peer,
            !r.subscribed,
            r.peers@.len() == 0,
            r.cache.window_nanos == window_nanos,
            forall|id: MessageId, t: int| !r.cache.live_at(id, t),
    {
        GossipEngine {
            local_peer: local_peer,
            subscribed: false,
            peers: Vec::new(),
            cache: DedupCache::new(window_nanos),
        }
    }

    /// Join the topic.  Idempotent: nothing but the subscription flag
    /// moves, and it only moves towards Subscribed.
    pub fn subscribe(&mut self)
        ensures
            final(self).subscribed,
            final(self).local_peer == old(self).local_peer,
            final(self).peers == old(self).peers,
            final(self).cache == old(self).cache,
    {
        self.subscribed = true;
    }

    /// A connected peer signalled interest in the topic.  Idempotent:
    /// a peer already listed is not listed twice.
    pub fn on_peer_subscribed(&mut self, p: PeerId)
        requires
            old(self).wf(),
        ensures
            final(self).wf(),
            final(self).local_peer == old(self).local_peer,
            final(self).subscribed == old(self).subscribed,
            final(self).cache == old(self).cache,
            old(self).peers@.contains(p) ==> final(self).peers == old(self).peers,
            !old(self).peers@.contains(p) ==> final(self).peers@ == old(self).peers@.push(p),
            final(self).peers@.contains(p),
    {
        let mut found = false;
        let mut i: usize = 0;
        while i < self.peers.len()
            invariant
                i <= self.peers.len(),
                found == self.peers@.take(i as int).contains(p),
            decreases self.peers.len() - i,
        {
            if self.peers[i].id == p.id {
                found = true;
                proof {
                    assert(self.peers@.take(i + 1)[i as int] == p);
                    assert(self.peers@.take(i + 1).contains(p));
                }
            }
            proof {
                if found && self.peers@.take(i as int).contains(p) {
                    let k = choose|k: int| 0 <= k < i && self.peers@.take(i as int)[k] == p;
                    assert(self.peers@.take(i + 1)[k] == p);
                    assert(self.peers@.take(i + 1).contains(p));
                }
                if self.peers@.take(i + 1).contains(p) && self.peers@[i as int] != p {
                    let k = choose|k: int| 0 <= k <= i && (#[trigger] self.peers@.take(i + 1)[k]) == p;
                    assert(k < i);
                    assert(self.peers@.take(i as int)[k] == p);
                }
            }
            i = i + 1;
        }
        proof {
            assert(self.peers@.take(self.peers@.len() as int) =~= self.peers@);
        }
        if !found {
            let ghost pre = self.peers@;
            self.peers.push(p);
            proof {
                assert(self.peers@[pre.len() as int] == p);
                assert(self.peers@.contains(p));
                assert forall|a: int, b: int|
                    0 <= a < self.peers@.len() && 0 <= b < self.peers@.len() && a != b implies
                    self.peers@[a] != self.peers@[b] by {
                    if a < pre.len() && b < pre.len() {
                        assert(pre[a] == self.peers@[a] && pre[b] == self.peers@[b]);
                    } else if a < pre.len() {
                        assert(self.peers@[b] == p);
                        if self.peers@[a] == p {
                            assert(pre.contains(pre[a]));
                            assert(false);
                        }
                    } else {
                        assert(self.peers@[a] == p);
                        if self.peers@[b] == p {
                            assert(pre.contains(pre[b]));
                            assert(false);
                        }
                    }
                }
            }
        }
    }

    /// A peer left the topic or its connection closed: it is no longer
    /// a flood target.  Other peers keep their order.
    pub fn on_peer_removed(&mut self, p: PeerId)
        requires
            old(self).wf(),
        ensures
            final(self).wf(),
            final(self).local_peer == old(self).local_peer,
            final(self).subscribed == old(self).subscribed,
            final(self).cache == old(self).cache,
            !final(self).peers@.contains(p),
            forall|q: PeerId|
                #![trigger final(self).peers@.contains(q)]
                #![trigger old(self).peers@.contains(q)]
                q != p ==> final(self).peers@.contains(q) == old(self).peers@.contains(q),
    {
        let kept = peers_excluding(&self.peers, p);
        self.peers = kept;
    }

    /// Publish a payload stamped at `now_nanos`: derive the message id,
    /// record it as seen, and flood the signed message to every
    /// interested peer.  Succeeds exactly when the node is subscribed
    /// and at least one peer is interested; a failed publish changes
    /// nothing.
    pub fn publish(&mut self, payload: Vec<u8>, now_nanos: u64) -> (r: Result<
        (MessageId, Action),
        PublishError,
    >)
        requires
            old(self).wf(),
        ensures
            final(self).wf(),
            final(self).local_peer == old(self).local_peer,
            final(self).subscribed == old(self).subscribed,
            final(self).peers == old(self).peers,
            final(self).cache.window_nanos == old(self).cache.window_nanos,
            r is Ok <==> old(self).subscribed && old(self).peers@.len() > 0,
            !old(self).subscribed ==> (r matches Err(e) && e is NotSubscribed && *final(self)
                == *old(self)),
            old(self).subscribed && old(self).peers@.len() == 0 ==> (r matches Err(e)
                && e is NoPeers && *final(self) == *old(self)),
            r matches Ok(ok) ==> ok.0 == id_of(payload@, now_nanos) && ok.1 is Flood
                && ok.1->msg.payload@ == payload@ && ok.1->msg.sender == old(self).local_peer
                && ok.1->msg.id == ok.0 && ok.1->targets@ == old(self).peers@,
            r is Ok ==> final(self).cache.live_at(id_of(payload@, now_nanos), now_nanos as int)
                && (forall|x: MessageId, t: int|
                now_nanos <= t && old(self).cache.live_at(x, t) ==> final(self).cache.live_at(
                    x,
                    t,
                )),
    {
        if !self.subscribed {
            return Err(PublishError::NotSubscribed);
        }
        if self.peers.len() == 0 {
            return Err(PublishError::NoPeers);
        }
        let id = make_message_id(&payload, now_nanos);
        self.cache.check_and_insert(id, now_nanos);
        let targets = copy_peers(&self.peers);
        let msg = GossipMessage { payload: payload, sender: self.local_peer, id: id };
        Ok((id, Action::Flood { msg: msg, targets: targets }))
    }

    /// The cache bookkeeping `on_receive` performs, as a relation
    /// between the engine before and after one call at time `now`:
    /// the window is unchanged, and an accepted frame's id counts as
    /// seen for the whole window from `now` on.
    pub open spec fn receive_records(pre: GossipEngine, post: GossipEngine, f: RawFrame, now: int) -> bool {
        &&& post.cache.window_nanos == pre.cache.window_nanos
        &&& pre.accepts(f, now) ==> forall|t: int|
            now <= t < now + post.cache.window_nanos ==> post.cache.live_at(f.id->0, t)
    }

    /// Handle one inbound frame arriving from `from` at `now_nanos`.
    ///
    /// A frame that fails strict validation, or arrives while the node
    /// is not subscribed, or whose id still counts as seen, produces no
    /// action at all: nothing is delivered and nothing is re-flooded.
    /// An accepted frame produces exactly one delivery to the
    /// application and one flood to every interested peer except the
    /// one it arrived from.
    pub fn on_receive(&mut self, frame: RawFrame, from: PeerId, now_nanos: u64) -> (r: Vec<
        Action,
    >)
        requires
            old(self).wf(),
        ensures
            final(self).wf(),
            final(self).local_peer == old(self).local_peer,
            final(self).subscribed == old(self).subscribed,
            final(self).peers == old(self).peers,
            Self::receive_records(*old(self), *final(self), frame, now_nanos as int),
            !old(self).accepts(frame, now_nanos as int) ==> r@.len() == 0,
            !(frame_ok(frame) && old(self).subscribed) ==> *final(self) == *old(self),
            old(self).accepts(frame, now_nanos as int) ==> accept_output(
                *old(self),
                frame,
                from,
                r@,
            ),
    {
        let msg = match validate_frame(frame) {
            Ok(m) => m,
            Err(_) => {
                return Vec::new();
            },
        };
        if !self.subscribed {
            return Vec::new();
        }
        let fresh = self.cache.check_and_insert(msg.id, now_nanos);
        if !fresh {
            return Vec::new();
        }
        let targets = peers_excluding(&self.peers, from);
        let payload_copy = copy_bytes(&msg.payload);
        let mut r: Vec<Action> = Vec::new();
        r.push(Action::Deliver { payload: payload_copy, sender: msg.sender });
        r.push(Action::Flood { msg: msg, targets: targets });
        r
    }
}

/// Law: a frame that fails strict validation is never accepted, in any
/// engine state at any time: it is neither delivered nor re-flooded.
pub proof fn lemma_invalid_frame_never_accepted(s: GossipEngine, f: RawFrame, now: int)
    requires
        !frame_ok(f),
    ensures
        !s.accepts(f, now),
{
}

/// Law: once a frame has been accepted — delivered and re-flooded — any
/// frame carrying the same message id that arrives within the
/// deduplication window, via any peer, is not accepted a second time:
/// delivery fires at most once per message id inside the window.
pub proof fn lemma_duplicate_delivery_suppressed(
    pre: GossipEngine,
    post: GossipEngine,
    f: RawFrame,
    g: RawFrame,
    now1: int,
    now2: int,
)
    requires
        GossipEngine::receive_records(pre, post, f, now1),
        pre.accepts(f, now1),
        g.id == f.id,
        now1 <= now2 < now1 + post.cache.window_nanos,
    ensures
        !post.accepts(g, now2),
{
}

} // verus!
