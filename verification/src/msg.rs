//! Message identifiers and the hash they are derived from.
//!
//! A `MessageId` combines a hash of the payload bytes with the
//! high-resolution timestamp captured when the message was published.
//! Two publish calls with distinct timestamps therefore always produce
//! distinct ids, even for byte-identical payloads; identical resends by
//! the same originator are deliberately *not* merged.

use vstd::prelude::*;

verus! {

/// FNV-1a 64-bit offset basis.
pub const FNV_OFFSET: u64 = 0xcbf29ce484222325;

/// FNV-1a 64-bit prime.
pub const FNV_PRIME: u64 = 0x100000001b3;

/// One FNV-1a step: fold one byte into the running hash.
pub open spec fn fnv1a_step(h: u64, b: u8) -> u64 {
    (h ^ (b as u64)).wrapping_mul(FNV_PRIME)
}

/// FNV-1a 64-bit hash of a byte sequence.
pub open spec fn fnv1a_seq(s: Seq<u8>) -> u64
    decreases s.len(),
{
    if s.len() == 0 {
        FNV_OFFSET
    } else {
        fnv1a_step(fnv1a_seq(s.drop_last()), s.last())
    }
}

/// FNV-1a 64-bit hash of the payload bytes.
pub fn fnv1a(data: &Vec<u8>) -> (r: u64)
    ensures
        r == fnv1a_seq(data@),
{
    let mut h: u64 = FNV_OFFSET;
    let mut i: usize = 0;
    while i < data.len()
        invariant
            i <= data.len(),
            h == fnv1a_seq(data@.take(i as int)),
        decreases data.len() - i,
    {
        h = (h ^ (data[i] as u64)).wrapping_mul(FNV_PRIME);
        proof {
            assert(data@.take(i + 1).drop_last() =~= data@.take(i as int));
        }
        i = i + 1;
    }
    proof {
        assert(data@.take(data@.len() as int) =~= data@);
    }
    h
}

/// Identifier of one publish event: payload hash plus publish timestamp.
#[derive(PartialEq, Eq, Structural, Clone, Copy, Debug)]
pub struct MessageId {
    pub payload_hash: u64,
    pub timestamp_nanos: u64,
}

/// The id a publish of `payload` at `timestamp_nanos` is given.
pub open spec fn id_of(payload: Seq<u8>, timestamp_nanos: u64) -> MessageId {
    MessageId { payload_hash: fnv1a_seq(payload), timestamp_nanos: timestamp_nanos }
}

/// Derive the id of a publish event from its payload and timestamp.
pub fn make_message_id(payload: &Vec<u8>, timestamp_nanos: u64) -> (r: MessageId)
    ensures
        r == id_of(payload@, timestamp_nanos),
{
    MessageId { payload_hash: fnv1a(payload), timestamp_nanos: timestamp_nanos }
}

/// Law: the same payload published at two distinct timestamps yields two
/// distinct message ids.
pub proof fn lemma_distinct_timestamps_distinct_ids(payload: Seq<u8>, t1: u64, t2: u64)
    requires
        t1 != t2,
    ensures
        id_of(payload, t1) != id_of(payload, t2),
{
}

} // verus!
