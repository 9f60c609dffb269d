use volvo_comm::dedup::DedupCache;
use volvo_comm::engine::{Action, GossipEngine, PeerId, RawFrame, MAX_PAYLOAD_BYTES};
use volvo_comm::errors::{PublishError, ProtocolValidationError};
use volvo_comm::msg::{make_message_id, MessageId};
use volvo_comm::node::Node;

fn frame(payload: &[u8], sender: u64, id: MessageId) -> RawFrame {
    RawFrame {
        payload: payload.to_vec(),
        sender: Some(PeerId { id: sender }),
        id: Some(id),
        signature_ok: true,
    }
}

#[test]
fn same_payload_distinct_timestamps_distinct_ids() {
    let payload = b"hello".to_vec();
    let a = make_message_id(&payload, 1);
    let b = make_message_id(&payload, 2);
    assert_ne!(a, b);
    assert_eq!(a.payload_hash, b.payload_hash);
}

#[test]
fn same_payload_same_timestamp_same_id() {
    let payload = b"hello".to_vec();
    assert_eq!(make_message_id(&payload, 7), make_message_id(&payload, 7));
}

#[test]
fn payload_hash_exact_values() {
    let empty = make_message_id(&Vec::new(), 0);
    assert_eq!(empty.payload_hash, 0xcbf29ce484222325);
    let one = make_message_id(&vec![0x61], 0);
    assert_eq!(one.payload_hash, 0xaf63dc4c8601ec8c);
}

#[test]
fn validation_unsigned_frame_rejected() {
    let id = make_message_id(&b"x".to_vec(), 1);
    let mut f = frame(b"x", 9, id);
    f.signature_ok = false;
    assert_eq!(
        volvo_comm::engine::validate_frame(f),
        Err(ProtocolValidationError::Unsigned)
    );
}

#[test]
fn validation_missing_sender_rejected() {
    let id = make_message_id(&b"x".to_vec(), 1);
    let mut f = frame(b"x", 9, id);
    f.sender = None;
    assert_eq!(
        volvo_comm::engine::validate_frame(f),
        Err(ProtocolValidationError::MissingSender)
    );
}

#[test]
fn validation_missing_id_rejected() {
    let id = make_message_id(&b"x".to_vec(), 1);
    let mut f = frame(b"x", 9, id);
    f.id = None;
    assert_eq!(
        volvo_comm::engine::validate_frame(f),
        Err(ProtocolValidationError::MissingId)
    );
}

#[test]
fn validation_oversized_rejected() {
    let big = vec![0u8; MAX_PAYLOAD_BYTES + 1];
    let id = make_message_id(&big, 1);
    let f = frame(&big, 9, id);
    assert_eq!(
        volvo_comm::engine::validate_frame(f),
        Err(ProtocolValidationError::Oversized)
    );
}

#[test]
fn validation_good_frame_accepted() {
    let id = make_message_id(&b"ok".to_vec(), 1);
    let f = frame(b"ok", 9, id);
    let m = volvo_comm::engine::validate_frame(f).unwrap();
    assert_eq!(m.payload, b"ok".to_vec());
    assert_eq!(m.sender, PeerId { id: 9 });
    assert_eq!(m.id, id);
}

#[test]
fn dedup_cache_suppresses_within_window() {
    let mut c = DedupCache::new(5_000_000_000);
    let id = make_message_id(&b"m".to_vec(), 1);
    assert!(c.check_and_insert(id, 1_000));
    assert!(!c.check_and_insert(id, 2_000));
    assert!(!c.check_and_insert(id, 4_999_999_999));
}

#[test]
fn dedup_cache_expires_after_window() {
    let mut c = DedupCache::new(5);
    let id = make_message_id(&b"m".to_vec(), 1);
    assert!(c.check_and_insert(id, 100));
    assert!(!c.check_and_insert(id, 104));
    assert!(c.check_and_insert(id, 200));
}

#[test]
fn dedup_cache_tells_ids_apart() {
    let mut c = DedupCache::new(1_000);
    let a = make_message_id(&b"m".to_vec(), 1);
    let b = make_message_id(&b"m".to_vec(), 2);
    assert!(c.check_and_insert(a, 10));
    assert!(c.check_and_insert(b, 11));
}

fn subscribed_engine(local: u64, window: u64) -> GossipEngine {
    let mut e = GossipEngine::new(PeerId { id: local }, window);
    e.subscribe();
    e
}

#[test]
fn duplicate_delivery_suppressed() {
    let mut e = subscribed_engine(1, 5_000_000_000);
    e.on_peer_subscribed(PeerId { id: 2 });
    e.on_peer_subscribed(PeerId { id: 3 });
    let id = make_message_id(&b"hi".to_vec(), 42);
    let first = e.on_receive(frame(b"hi", 2, id), PeerId { id: 2 }, 100);
    assert_eq!(first.len(), 2);
    assert!(matches!(&first[0], Action::Deliver { .. }));
    // the same message arriving again, this time via the other peer
    let second = e.on_receive(frame(b"hi", 2, id), PeerId { id: 3 }, 200);
    assert!(second.is_empty());
}

#[test]
fn invalid_frames_produce_nothing() {
    let mut e = subscribed_engine(1, 5_000_000_000);
    e.on_peer_subscribed(PeerId { id: 2 });
    let id = make_message_id(&b"hi".to_vec(), 42);
    let mut unsigned = frame(b"hi", 2, id);
    unsigned.signature_ok = false;
    assert!(e.on_receive(unsigned, PeerId { id: 2 }, 100).is_empty());
    let mut anonymous = frame(b"hi", 2, id);
    anonymous.sender = None;
    assert!(e.on_receive(anonymous, PeerId { id: 2 }, 101).is_empty());
    // a well-formed frame afterwards still goes through
    assert_eq!(e.on_receive(frame(b"hi", 2, id), PeerId { id: 2 }, 102).len(), 2);
}

#[test]
fn flood_excludes_arrival_peer() {
    let mut e = subscribed_engine(1, 5_000_000_000);
    e.on_peer_subscribed(PeerId { id: 2 });
    e.on_peer_subscribed(PeerId { id: 3 });
    e.on_peer_subscribed(PeerId { id: 4 });
    let id = make_message_id(&b"hi".to_vec(), 42);
    let actions = e.on_receive(frame(b"hi", 2, id), PeerId { id: 3 }, 100);
    match &actions[1] {
        Action::Flood { targets, .. } => {
            assert_eq!(targets.len(), 2);
            assert!(targets.contains(&PeerId { id: 2 }));
            assert!(!targets.contains(&PeerId { id: 3 }));
            assert!(targets.contains(&PeerId { id: 4 }));
        }
        other => panic!("expected a flood, got {:?}", other),
    }
}

#[test]
fn removed_peer_no_longer_flooded() {
    let mut e = subscribed_engine(1, 5_000_000_000);
    e.on_peer_subscribed(PeerId { id: 2 });
    e.on_peer_subscribed(PeerId { id: 3 });
    e.on_peer_removed(PeerId { id: 2 });
    let id = make_message_id(&b"hi".to_vec(), 42);
    let actions = e.on_receive(frame(b"hi", 9, id), PeerId { id: 3 }, 100);
    match &actions[1] {
        Action::Flood { targets, .. } => assert!(targets.is_empty()),
        other => panic!("expected a flood, got {:?}", other),
    }
}

#[test]
fn peer_subscribed_is_idempotent() {
    let mut e = subscribed_engine(1, 5_000_000_000);
    e.on_peer_subscribed(PeerId { id: 2 });
    e.on_peer_subscribed(PeerId { id: 2 });
    assert_eq!(e.peers.len(), 1);
}

#[test]
fn publish_requires_subscription() {
    let mut e = GossipEngine::new(PeerId { id: 1 }, 5_000_000_000);
    assert_eq!(
        e.publish(b"hi".to_vec(), 100).err(),
        Some(PublishError::NotSubscribed)
    );
}

#[test]
fn publish_requires_a_peer() {
    let mut e = subscribed_engine(1, 5_000_000_000);
    assert_eq!(e.publish(b"hi".to_vec(), 100).err(), Some(PublishError::NoPeers));
}

#[test]
fn publish_floods_every_peer() {
    let mut e = subscribed_engine(1, 5_000_000_000);
    e.on_peer_subscribed(PeerId { id: 2 });
    e.on_peer_subscribed(PeerId { id: 3 });
    let (id, action) = e.publish(b"news".to_vec(), 77).unwrap();
    assert_eq!(id, make_message_id(&b"news".to_vec(), 77));
    match action {
        Action::Flood { msg, targets } => {
            assert_eq!(msg.payload, b"news".to_vec());
            assert_eq!(msg.sender, PeerId { id: 1 });
            assert_eq!(msg.id, id);
            assert_eq!(targets, vec![PeerId { id: 2 }, PeerId { id: 3 }]);
        }
        other => panic!("expected a flood, got {:?}", other),
    }
}

#[test]
fn empty_payload_publishes() {
    let mut e = subscribed_engine(1, 5_000_000_000);
    e.on_peer_subscribed(PeerId { id: 2 });
    let (id, _) = e.publish(Vec::new(), 3).unwrap();
    assert_eq!(id.payload_hash, 0xcbf29ce484222325);
    assert_eq!(id.timestamp_nanos, 3);
}

#[test]
fn listen_and_publish_scenario() {
    // Node A listens and obtains an address; node B dials it; both
    // subscribe; B publishes "hello"; A delivers it exactly once, from B.
    let mut a = Node::new(PeerId { id: 1 }, 5_000_000_000);
    let mut b = Node::new(PeerId { id: 2 }, 5_000_000_000);

    let addr_a = "/ip4/192.168.1.7/tcp/40001".to_string();
    let announced = a.on_listen_addr(addr_a.clone());
    assert!(matches!(announced, Some(Action::AddressReady { ref addr }) if *addr == addr_a));
    assert_eq!(a.get_local_address(), Some(addr_a.clone()));

    let dial = volvo_comm::addr::request_dial(a.get_local_address().unwrap()).unwrap();
    assert!(matches!(dial, Action::Dial { ref dial_addr } if *dial_addr == addr_a));

    a.gossip.subscribe();
    b.gossip.subscribe();
    // the connection is up: each side learns of the other's interest
    a.gossip.on_peer_subscribed(PeerId { id: 2 });
    b.gossip.on_peer_subscribed(PeerId { id: 1 });

    b.request_broadcast(b"hello".to_vec()).unwrap();
    let sent = b.drain_outbound(123_456).unwrap().unwrap();
    let wire = match sent.1 {
        Action::Flood { msg, targets } => {
            assert_eq!(targets, vec![PeerId { id: 1 }]);
            msg
        }
        other => panic!("expected a flood, got {:?}", other),
    };

    let delivered = a.on_frame(
        RawFrame {
            payload: wire.payload.clone(),
            sender: Some(wire.sender),
            id: Some(wire.id),
            signature_ok: true,
        },
        PeerId { id: 2 },
        123_500,
    );
    assert_eq!(delivered.len(), 2);
    match &delivered[0] {
        Action::Deliver { payload, sender } => {
            assert_eq!(payload, &b"hello".to_vec());
            assert_eq!(*sender, PeerId { id: 2 });
        }
        other => panic!("expected a delivery, got {:?}", other),
    }

    // the same wire frame again is not delivered a second time
    let again = a.on_frame(
        RawFrame {
            payload: wire.payload.clone(),
            sender: Some(wire.sender),
            id: Some(wire.id),
            signature_ok: true,
        },
        PeerId { id: 2 },
        123_600,
    );
    assert!(again.is_empty());
}
