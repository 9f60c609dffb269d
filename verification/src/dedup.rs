//! The time-windowed deduplication cache.
//!
//! The cache records the id of every message the node has handled,
//! together with the time it was first seen.  An id counts as *seen*
//! until its window has passed; a frame whose id is still seen is
//! neither delivered nor re-flooded a second time.

use vstd::prelude::*;

use crate::msg::MessageId;

verus! {

/// Insertion-ordered record of recently seen message ids.
pub struct DedupCache {
    /// How long a recorded id counts as seen, in nanoseconds.
    pub window_nanos: u64,
    /// The recorded ids, each with the time it was first seen.
    pub entries: Vec<(MessageId, u64)>,
}

impl DedupCache {
    /// A zero-length window would make every arrival look fresh and
    /// defeat duplicate suppression entirely, so it is ruled out.
    pub open spec fn wf(self) -> bool {
        self.window_nanos > 0
    }

    /// Whether `id` was recorded recently enough to still count as seen
    /// at time `now`.
    pub open spec fn live_at(self, id: MessageId, now: int) -> bool {
        exists|i: int|
            0 <= i < self.entries@.len() && (#[trigger] self.entries@[i]).0 == id
                && self.entries@[i].1 + self.window_nanos > now
    }

    /// An empty cache with the given expiry window.
    pub fn new(window_nanos: u64) -> (r: DedupCache)
        requires
            window_nanos > 0,
        ensures
            r.wf(),
            r.window_nanos == window_nanos,
            forall|id: MessageId, t: int| !r.live_at(id, t),
    {
        DedupCache { window_nanos: window_nanos, entries: Vec::new() }
    }

    /// Drop every entry whose window has already passed at `now`.
    /// Which ids count as seen, now or later, does not change.
    fn prune(&mut self, now: u64)
        ensures
            final(self).window_nanos == old(self).window_nanos,
            forall|id: MessageId, t: int|
                now <= t ==> final(self).live_at(id, t) == old(self).live_at(id, t),
    {
        let ghost pre = self.entries@;
        let mut kept: Vec<(MessageId, u64)> = Vec::new();
        let mut i: usize = 0;
        while i < self.entries.len()
            invariant
                i <= self.entries.len(),
                self.entries@ == pre,
                self.window_nanos == old(self).window_nanos,
                forall|k: int|
                    0 <= k < kept@.len() ==> pre.contains(#[trigger] kept@[k])
                        && kept@[k].1 + self.window_nanos > now,
                forall|j: int|
                    0 <= j < i && (#[trigger] pre[j]).1 + self.window_nanos > now
                        ==> kept@.contains(pre[j]),
            decreases self.entries.len() - i,
        {
            let e = self.entries[i];
            if e.1 as u128 + self.window_nanos as u128 > now as u128 {
                let ghost kept_pre = kept@;
                kept.push(e);
                proof {
                    assert(kept@[kept_pre.len() as int] == e);
                    assert forall|x: (MessageId, u64)| kept_pre.contains(x)
                        implies kept@.contains(x) by {
                        let k = choose|k: int| 0 <= k < kept_pre.len() && kept_pre[k] == x;
                        assert(kept@[k] == x);
                    }
                    assert(pre[i as int] == e);
                    assert(pre.contains(pre[i as int]));
                    assert(kept@.contains(pre[i as int]));
                }
            }
            i = i + 1;
        }
        self.entries = kept;
        proof {
            assert forall|id: MessageId, t: int| now <= t implies
                self.live_at(id, t) == old(self).live_at(id, t) by {
                if self.live_at(id, t) {
                    let k = choose|k: int|
                        0 <= k < self.entries@.len() && (#[trigger] self.entries@[k]).0 == id
                            && self.entries@[k].1 + self.window_nanos > t;
                    assert(pre.contains(self.entries@[k]));
                    let j = choose|j: int| 0 <= j < pre.len() && pre[j] == self.entries@[k];
                    assert((pre[j]).0 == id && pre[j].1 + old(self).window_nanos > t);
                    assert(old(self).live_at(id, t));
                }
                if old(self).live_at(id, t) {
                    let j = choose|j: int|
                        0 <= j < pre.len() && (#[trigger] pre[j]).0 == id
                            && pre[j].1 + old(self).window_nanos > t;
                    assert(pre[j].1 + self.window_nanos > now);
                    assert(kept@.contains(pre[j]));
                    let k = choose|k: int| 0 <= k < kept@.len() && kept@[k] == pre[j];
                    assert((self.entries@[k]).0 == id && self.entries@[k].1 + self.window_nanos > t);
                    assert(self.live_at(id, t));
                }
            }
        }
    }

    /// Record `id` as seen at `now` unless it still counts as seen.
    /// Returns whether the id was fresh: a fresh id is recorded and
    /// then counts as seen for the whole window; a stale one changes
    /// nothing about which ids are seen.
    pub fn check_and_insert(&mut self, id: MessageId, now: u64) -> (fresh: bool)
        requires
            old(self).wf(),
        ensures
            final(self).wf(),
            final(self).window_nanos == old(self).window_nanos,
            fresh == !old(self).live_at(id, now as int),
            final(self).live_at(id, now as int),
            forall|x: MessageId, t: int|
                now <= t && old(self).live_at(x, t) ==> final(self).live_at(x, t),
            forall|x: MessageId, t: int|
                now <= t && x != id ==> final(self).live_at(x, t) == old(self).live_at(x, t),
            fresh ==> forall|t: int|
                now <= t < now + final(self).window_nanos ==> final(self).live_at(id, t),
            !fresh ==> forall|t: int|
                now <= t ==> final(self).live_at(id, t) == old(self).live_at(id, t),
    {
        self.prune(now);
        let ghost pruned = *self;
        let mut seen = false;
        let mut i: usize = 0;
        while i < self.entries.len()
            invariant
                i <= self.entries.len(),
                *self == pruned,
                seen == exists|k: int|
                    0 <= k < i && (#[trigger] self.entries@[k]).0 == id
                        && self.entries@[k].1 + self.window_nanos > now,
            decreases self.entries.len() - i,
        {
            let e = self.entries[i];
            if e.0 == id && e.1 as u128 + self.window_nanos as u128 > now as u128 {
                seen = true;
                proof {
                    assert((self.entries@[i as int]).0 == id
                        && self.entries@[i as int].1 + self.window_nanos > now);
                }
            }
            i = i + 1;
        }
        proof {
            assert(seen == pruned.live_at(id, now as int));
        }
        if !seen {
            self.entries.push((id, now));
            proof {
                let n: int = self.entries@.len() - 1;
                assert(self.entries@ == pruned.entries@.push((id, now)));
                assert forall|x: MessageId, t: int| now <= t implies
                    self.live_at(x, t) == (pruned.live_at(x, t) || (x == id && now + self.window_nanos > t)) by {
                    if self.live_at(x, t) {
                        let k = choose|k: int|
                            0 <= k < self.entries@.len() && (#[trigger] self.entries@[k]).0 == x
                                && self.entries@[k].1 + self.window_nanos > t;
                        if k < n {
                            assert(pruned.entries@[k] == self.entries@[k]);
                            assert(pruned.live_at(x, t));
                        } else {
                            assert(self.entries@[k] == (id, now));
                        }
                    }
                    if pruned.live_at(x, t) {
                        let k = choose|k: int|
                            0 <= k < pruned.entries@.len() && (#[trigger] pruned.entries@[k]).0 == x
                                && pruned.entries@[k].1 + pruned.window_nanos > t;
                        assert((self.entries@[k]).0 == x && self.entries@[k].1 + self.window_nanos > t);
                        assert(self.live_at(x, t));
                    }
                    if x == id && now + self.window_nanos > t {
                        assert((self.entries@[n]).0 == id && self.entries@[n].1 + self.window_nanos > t);
                        assert(self.live_at(x, t));
                    }
                }
            }
            true
        } else {
            false
        }
    }
}

} // verus!
