//! The deduplication cache: a per-platform record of every event identity
//! already admitted for emission, so that redundant deliveries of the same
//! transaction are suppressed.

use vstd::prelude::*;

use crate::types::{Event, EventKey, EventV, event_key_eq};

verus! {

/// The identities a cache has recorded.  The admit check and the record
/// step are one operation, `should_emit`, so no identity can be admitted
/// twice.
pub struct DedupCache {
    seen: Vec<Event>,
}

impl View for DedupCache {
    type V = Set<EventKey>;

    closed spec fn view(&self) -> Set<EventKey> {
        Set::new(
            |k: EventKey|
                exists|i: int|
                    0 <= i < self.seen@.len() && (#[trigger] self.seen@[i])@.key() == k,
        )
    }
}

impl DedupCache {
    /// A cache that has recorded nothing.
    pub fn new() -> (r: DedupCache)
        ensures
            r@ == Set::<EventKey>::empty(),
    {
        let r = DedupCache { seen: Vec::new() };
        proof {
            assert(r@ =~= Set::<EventKey>::empty());
        }
        r
    }

    /// Admits an event the first time its identity is seen, recording it in
    /// the same step; refuses every later occurrence of an equal identity.
    pub fn should_emit(&mut self, event: &Event) -> (emit: bool)
        ensures
            emit == !old(self)@.contains(event@.key()),
            final(self)@ == old(self)@.insert(event@.key()),
    {
        let n = self.seen.len();
        let mut i: usize = 0;
        while i < n
            invariant
                0 <= i <= n == self.seen@.len(),
                forall|j: int| 0 <= j < i ==> (#[trigger] self.seen@[j])@.key() != event@.key(),
            decreases n - i,
        {
            if event_key_eq(&self.seen[i], event) {
                proof {
                    assert(self@.contains(event@.key()));
                    assert(self@.insert(event@.key()) =~= self@);
                }
                return false;
            }
            i = i + 1;
        }
        proof {
            assert(!self@.contains(event@.key()));
        }
        let ghost before = self@;
        self.seen.push(event.duplicate());
        proof {
            assert forall|k: EventKey| self@.contains(k) implies before.insert(
                event@.key(),
            ).contains(k) by {
                let i = choose|i: int|
                    0 <= i < self.seen@.len() && (#[trigger] self.seen@[i])@.key() == k;
                if i < self.seen@.len() - 1 {
                    assert(old(self).seen@[i]@.key() == k);
                }
            }
            assert forall|k: EventKey| before.insert(event@.key()).contains(k) implies self@
                .contains(k) by {
                if before.contains(k) {
                    let i = choose|i: int|
                        0 <= i < old(self).seen@.len() && (#[trigger] old(self).seen@[i])@.key()
                            == k;
                    assert(self.seen@[i]@.key() == k);
                } else {
                    assert(self.seen@[self.seen@.len() - 1]@.key() == event@.key());
                }
            }
            assert(self@ =~= before.insert(event@.key()));
        }
        true
    }
}

/// One cache per platform, pre-provisioned at construction so classifiers
/// for the same platform share state and classifiers for different
/// platforms cannot interfere.
pub struct PlatformCaches {
    pub pump_fun: DedupCache,
    pub raydium: DedupCache,
    pub raydium_cpmm: DedupCache,
    pub raydium_clmm: DedupCache,
}

impl PlatformCaches {
    /// A cache per platform, each empty.
    pub fn new() -> (r: PlatformCaches)
        ensures
            r.pump_fun@ == Set::<EventKey>::empty(),
            r.raydium@ == Set::<EventKey>::empty(),
            r.raydium_cpmm@ == Set::<EventKey>::empty(),
            r.raydium_clmm@ == Set::<EventKey>::empty(),
    {
        PlatformCaches {
            pump_fun: DedupCache::new(),
            raydium: DedupCache::new(),
            raydium_cpmm: DedupCache::new(),
            raydium_clmm: DedupCache::new(),
        }
    }
}

/// How one classification step may change a cache and what it emits: a
/// candidate event is emitted exactly when its identity was not yet
/// recorded, and its identity is recorded in the same step; no candidate,
/// no change.
pub open spec fn spec_emit_step(
    cache0: Set<EventKey>,
    cache1: Set<EventKey>,
    candidate: Option<EventV>,
    emitted: Option<EventV>,
) -> bool {
    match candidate {
        None => cache1 == cache0 && emitted is None,
        Some(ev) => {
            &&& cache1 == cache0.insert(ev.key())
            &&& emitted == if cache0.contains(ev.key()) {
                None::<EventV>
            } else {
                Some(ev)
            }
        },
    }
}

/// The view of a possibly emitted event.
pub open spec fn spec_opt_event(r: Option<Event>) -> Option<EventV> {
    match r {
        None => None,
        Some(e) => Some(e@),
    }
}

/// Submitting the same identity to a cache twice admits it the first time
/// and refuses it the second: after the step that admitted and recorded
/// `k`, the cache contains `k`, so the next submission of `k` is refused.
pub proof fn lemma_dedup_idempotent(cache: Set<EventKey>, k: EventKey)
    requires
        !cache.contains(k),
    ensures
        cache.insert(k).contains(k),
{
}

} // verus!
