//! Multi-tier frame cache.
//!
//! Three tiers (L1 hot, L2 keyframe-only, L3 cold), each an associative store
//! keyed by presentation timestamp with an insertion-ordered eviction queue.
//! Lookups accept a tolerance and return the stored frame whose key is nearest
//! to the requested timestamp; hits on L2 or L3 promote the frame into L1.

use vstd::prelude::*;

use crate::frame::FrameView;
use crate::frame::VideoFrame;

verus! {

/// Cache configuration: per-tier capacities.
#[derive(Debug, Clone, Copy, PartialEq, Eq, Structural)]
pub struct CacheConfig {
    /// L1 (hot) cache capacity
    pub l1_capacity: usize,

    /// L2 (keyframe) cache capacity
    pub l2_capacity: usize,

    /// L3 (cold) cache capacity
    pub l3_capacity: usize,

    /// Enable prefetch
    pub enable_prefetch: bool,
}

impl Default for CacheConfig {
    fn default() -> (r: Self)
        ensures
            r == (CacheConfig {
                l1_capacity: 30usize,
                l2_capacity: 100usize,
                l3_capacity: 500usize,
                enable_prefetch: true,
            }),
    {
        CacheConfig { l1_capacity: 30, l2_capacity: 100, l3_capacity: 500, enable_prefetch: true }
    }
}

/// Cache statistics: live entry counts, cumulative hit/miss counters and
/// memory usage, as observed at one instant.
#[derive(Debug, Clone, Copy, PartialEq, Eq, Structural)]
pub struct CacheStatistics {
    /// L1 entry count
    pub l1_entries: usize,

    /// L2 entry count
    pub l2_entries: usize,

    /// L3 entry count
    pub l3_entries: usize,

    /// L1 hit count
    pub l1_hit_count: u64,

    /// L2 hit count
    pub l2_hit_count: u64,

    /// L3 hit count
    pub l3_hit_count: u64,

    /// Miss count
    pub miss_count: u64,

    /// Memory usage in bytes
    pub memory_usage_bytes: u64,
}

impl Default for CacheStatistics {
    fn default() -> (r: Self)
        ensures
            r == (CacheStatistics {
                l1_entries: 0usize,
                l2_entries: 0usize,
                l3_entries: 0usize,
                l1_hit_count: 0u64,
                l2_hit_count: 0u64,
                l3_hit_count: 0u64,
                miss_count: 0u64,
                memory_usage_bytes: 0u64,
            }),
    {
        CacheStatistics {
            l1_entries: 0,
            l2_entries: 0,
            l3_entries: 0,
            l1_hit_count: 0,
            l2_hit_count: 0,
            l3_hit_count: 0,
            miss_count: 0,
            memory_usage_bytes: 0,
        }
    }
}

impl CacheStatistics {
    /// Total live entries over all tiers.
    pub fn total_entries(&self) -> (r: usize)
        requires
            self.l1_entries + self.l2_entries + self.l3_entries <= usize::MAX,
        ensures
            r == self.l1_entries + self.l2_entries + self.l3_entries,
    {
        self.l1_entries + self.l2_entries + self.l3_entries
    }

    /// Total accesses: hits over all tiers plus misses.
    pub fn total_accesses(&self) -> (r: u64)
        requires
            self.l1_hit_count + self.l2_hit_count + self.l3_hit_count + self.miss_count
                <= u64::MAX,
        ensures
            r == self.l1_hit_count + self.l2_hit_count + self.l3_hit_count + self.miss_count,
    {
        self.l1_hit_count + self.l2_hit_count + self.l3_hit_count + self.miss_count
    }
}

// ---------------------------------------------------------------------------
// Tier model
// ---------------------------------------------------------------------------

/// Absolute distance between a stored key and a requested timestamp.
pub open spec fn dist(k: i64, pts: i64) -> int {
    if k >= pts {
        k - pts
    } else {
        pts - k
    }
}

/// Whether the entry sequence holds the key.
pub open spec fn has_key(s: Seq<(i64, FrameView)>, k: i64) -> bool {
    exists|i: int| 0 <= i < s.len() && s[i].0 == k
}

/// An index at which the key is stored (unique when keys are unique).
pub open spec fn key_index(s: Seq<(i64, FrameView)>, k: i64) -> int {
    choose|i: int| 0 <= i < s.len() && s[i].0 == k
}

/// Exact-key lookup.
pub open spec fn lookup_exact(s: Seq<(i64, FrameView)>, k: i64) -> Option<FrameView> {
    if has_key(s, k) {
        Some(s[key_index(s, k)].1)
    } else {
        None
    }
}

/// The entry within `tol` of `pts` with minimal distance; on a tie the
/// earliest stored entry wins.
pub open spec fn best_match(s: Seq<(i64, FrameView)>, pts: i64, tol: i64) -> Option<(i64, FrameView)>
    decreases s.len(),
{
    if s.len() == 0 {
        None
    } else {
        let prev = best_match(s.drop_last(), pts, tol);
        let last = s.last();
        if dist(last.0, pts) <= tol {
            match prev {
                None => Some(last),
                Some(b) => if dist(last.0, pts) < dist(b.0, pts) {
                    Some(last)
                } else {
                    Some(b)
                },
            }
        } else {
            prev
        }
    }
}

/// Matching rule within one tier: an exact key match wins immediately;
/// otherwise the nearest key within the tolerance is returned.
pub open spec fn tier_lookup(s: Seq<(i64, FrameView)>, pts: i64, tol: i64) -> Option<(i64, FrameView)> {
    match lookup_exact(s, pts) {
        Some(f) => Some((pts, f)),
        None => best_match(s, pts, tol),
    }
}

/// Remove the entry holding key `k`, if any (keys are unique in a
/// well-formed tier, so at most one entry matches).
pub open spec fn remove_key(s: Seq<(i64, FrameView)>, k: i64) -> Seq<(i64, FrameView)> {
    if has_key(s, k) {
        s.remove(key_index(s, k))
    } else {
        s
    }
}

/// Evict oldest-inserted entries until the store is under capacity (or the
/// order queue is exhausted).
pub open spec fn evict_to_fit(
    entries: Seq<(i64, FrameView)>,
    order: Seq<i64>,
    cap: nat,
) -> (Seq<(i64, FrameView)>, Seq<i64>)
    decreases order.len(),
{
    if entries.len() >= cap && order.len() > 0 {
        evict_to_fit(remove_key(entries, order[0]), order.drop_first(), cap)
    } else {
        (entries, order)
    }
}

/// Replace the value stored under `k`, or append a new entry.
pub open spec fn upsert(s: Seq<(i64, FrameView)>, k: i64, f: FrameView) -> Seq<(i64, FrameView)> {
    if has_key(s, k) {
        s.update(key_index(s, k), (k, f))
    } else {
        s.push((k, f))
    }
}

/// Mathematical view of one tier.
#[verifier::ext_equal]
pub struct TierView {
    pub capacity: nat,
    pub entries: Seq<(i64, FrameView)>,
    pub order: Seq<i64>,
}

/// Effect of an insert on a tier: evict to fit, store, record insertion order.
pub open spec fn tier_insert(t: TierView, k: i64, f: FrameView) -> TierView {
    let (e, o) = evict_to_fit(t.entries, t.order, t.capacity);
    TierView { capacity: t.capacity, entries: upsert(e, k, f), order: o.push(k) }
}

/// Keys are pairwise distinct.
pub open spec fn unique_keys(s: Seq<(i64, FrameView)>) -> bool {
    forall|i: int, j: int| 0 <= i < j < s.len() ==> s[i].0 != s[j].0
}

/// Every stored key appears in the order queue.
pub open spec fn keys_in_order(s: Seq<(i64, FrameView)>, order: Seq<i64>) -> bool {
    forall|i: int| 0 <= i < s.len() ==> order.contains(#[trigger] s[i].0)
}

/// Tier well-formedness: unique keys, every key queued for eviction, and the
/// size never beyond the capacity (a zero-capacity tier degrades to holding
/// at most the single most recent insert).
pub open spec fn tier_wf(t: TierView) -> bool {
    &&& unique_keys(t.entries)
    &&& keys_in_order(t.entries, t.order)
    &&& t.entries.len() <= (if t.capacity == 0 { 1nat } else { t.capacity })
}

// ---------------------------------------------------------------------------
// Lemmas about the tier model
// ---------------------------------------------------------------------------

/// One eviction step keeps keys unique, keeps every key queued, removes the
/// evicted key, and shrinks the store by one entry when the key was present.
proof fn lemma_evict_step_wf(entries: Seq<(i64, FrameView)>, order: Seq<i64>, k: i64)
    requires
        unique_keys(entries),
        keys_in_order(entries, order),
        order.len() > 0,
        k == order[0],
    ensures
        unique_keys(remove_key(entries, k)),
        keys_in_order(remove_key(entries, k), order.drop_first()),
        !has_key(remove_key(entries, k), k),
        remove_key(entries, k).len() == (if has_key(entries, k) {
            entries.len() - 1
        } else {
            entries.len() as int
        }),
{
    if has_key(entries, k) {
        let i = key_index(entries, k);
        assert(0 <= i < entries.len() && entries[i].0 == k);
        let r = entries.remove(i);
        entries.remove_ensures(i);
        assert forall|j: int| 0 <= j < r.len() implies #[trigger] r[j] == (if j < i {
            entries[j]
        } else {
            entries[j + 1]
        }) by {}
        assert forall|j: int| 0 <= j < r.len() implies #[trigger] r[j].0 != k by {
            if j < i {
                assert(r[j] == entries[j]);
            } else {
                assert(r[j] == entries[j + 1]);
            }
        }
        assert forall|j: int| 0 <= j < r.len() implies order.drop_first().contains(
            #[trigger] r[j].0,
        ) by {
            let key = r[j].0;
            assert(order.contains(key));
            let m = choose|m: int| 0 <= m < order.len() && order[m] == key;
            assert(m != 0);
            assert(order.drop_first()[m - 1] == key);
        }
    } else {
        assert(remove_key(entries, k) == entries);
        assert forall|j: int| 0 <= j < entries.len() implies order.drop_first().contains(
            #[trigger] entries[j].0,
        ) by {
            let key = entries[j].0;
            assert(order.contains(key));
            let m = choose|m: int| 0 <= m < order.len() && order[m] == key;
            assert(m != 0);
            assert(order.drop_first()[m - 1] == key);
        }
    }
}

/// Running the eviction loop to completion leaves a well-formed store that is
/// strictly under capacity, or empty.
proof fn lemma_evict_to_fit_bound(entries: Seq<(i64, FrameView)>, order: Seq<i64>, cap: nat)
    requires
        unique_keys(entries),
        keys_in_order(entries, order),
    ensures
        ({
            let (e, o) = evict_to_fit(entries, order, cap);
            unique_keys(e) && keys_in_order(e, o) && (e.len() < cap || e.len() == 0)
        }),
    decreases order.len(),
{
    if entries.len() >= cap && order.len() > 0 {
        lemma_evict_step_wf(entries, order, order[0]);
        lemma_evict_to_fit_bound(remove_key(entries, order[0]), order.drop_first(), cap);
    } else {
        if order.len() == 0 && entries.len() > 0 {
            assert(order.contains(entries[0].0));
            assert(false);
        }
    }
}

/// An upsert keeps keys unique and stores the new binding; other keys keep
/// their bindings.
proof fn lemma_upsert_wf(entries: Seq<(i64, FrameView)>, k: i64, f: FrameView)
    requires
        unique_keys(entries),
    ensures
        unique_keys(upsert(entries, k, f)),
        has_key(upsert(entries, k, f), k),
        upsert(entries, k, f).len() == (if has_key(entries, k) {
            entries.len() as int
        } else {
            entries.len() + 1 as int
        }),
        forall|k2: i64| k2 != k ==> (has_key(upsert(entries, k, f), k2) == has_key(entries, k2)),
        lookup_exact(upsert(entries, k, f), k) == Some(f),
{
    let r = upsert(entries, k, f);
    if has_key(entries, k) {
        let i = key_index(entries, k);
        assert(0 <= i < entries.len() && entries[i].0 == k);
        assert(r[i] == (k, f));
        assert forall|a: int, b: int| 0 <= a < b < r.len() implies r[a].0 != r[b].0 by {
            if a != i && b != i {
                assert(r[a] == entries[a] && r[b] == entries[b]);
            } else if a == i {
                assert(r[b] == entries[b]);
            } else {
                assert(r[a] == entries[a]);
            }
        }
        assert forall|k2: i64| k2 != k implies (has_key(r, k2) == has_key(entries, k2)) by {
            if has_key(r, k2) {
                let j = choose|j: int| 0 <= j < r.len() && r[j].0 == k2;
                assert(j != i);
                assert(entries[j].0 == k2);
            }
            if has_key(entries, k2) {
                let j = choose|j: int| 0 <= j < entries.len() && entries[j].0 == k2;
                assert(j != i);
                assert(r[j].0 == k2);
            }
        }
        let ki = key_index(r, k);
        assert(0 <= ki < r.len() && r[ki].0 == k) by {
            assert(r[i].0 == k);
        }
        assert(ki == i) by {
            if ki != i {
                assert(r[ki] == entries[ki]);
                assert(entries[ki].0 == k);
            }
        }
    } else {
        assert(r == entries.push((k, f)));
        assert(r[entries.len() as int] == (k, f));
        assert forall|a: int, b: int| 0 <= a < b < r.len() implies r[a].0 != r[b].0 by {
            if b < entries.len() {
                assert(r[a] == entries[a] && r[b] == entries[b]);
            } else {
                assert(r[a] == entries[a]);
                assert(entries[a].0 != k);
            }
        }
        assert forall|k2: i64| k2 != k implies (has_key(r, k2) == has_key(entries, k2)) by {
            if has_key(r, k2) {
                let j = choose|j: int| 0 <= j < r.len() && r[j].0 == k2;
                assert(j < entries.len());
                assert(entries[j].0 == k2);
            }
            if has_key(entries, k2) {
                let j = choose|j: int| 0 <= j < entries.len() && entries[j].0 == k2;
                assert(r[j].0 == k2);
            }
        }
        let ki = key_index(r, k);
        assert(0 <= ki < r.len() && r[ki].0 == k) by {
            assert(r[entries.len() as int].0 == k);
        }
        assert(ki == entries.len()) by {
            if ki < entries.len() {
                assert(entries[ki].0 == k);
            }
        }
    }
}

/// A best match is a stored entry, lies within the tolerance, and no stored
/// key is closer to the requested timestamp; when no entry lies within the
/// tolerance there is no match.
pub proof fn lemma_best_match_is_nearest(s: Seq<(i64, FrameView)>, pts: i64, tol: i64)
    ensures
        best_match(s, pts, tol) matches Some(b) ==> {
            &&& exists|i: int| 0 <= i < s.len() && s[i] == b
            &&& dist(b.0, pts) <= tol
            &&& forall|i: int| 0 <= i < s.len() ==> dist(#[trigger] s[i].0, pts) >= dist(b.0, pts)
        },
        best_match(s, pts, tol) is None ==> (forall|i: int|
            0 <= i < s.len() ==> dist(#[trigger] s[i].0, pts) > tol),
    decreases s.len(),
{
    if s.len() > 0 {
        let prefix = s.drop_last();
        lemma_best_match_is_nearest(prefix, pts, tol);
        assert(forall|i: int| 0 <= i < prefix.len() ==> prefix[i] == s[i]);
        assert(s.last() == s[s.len() - 1]);
        match best_match(s, pts, tol) {
            Some(b) => {
                if dist(s.last().0, pts) <= tol {
                    match best_match(prefix, pts, tol) {
                        Some(p) => {
                            let wp = choose|i: int| 0 <= i < prefix.len() && prefix[i] == p;
                            assert(s[wp] == p);
                        },
                        None => {},
                    }
                } else {
                    let wp = choose|i: int| 0 <= i < prefix.len() && prefix[i] == b;
                    assert(s[wp] == b);
                }
            },
            None => {},
        }
    }
}

/// Inserting into a well-formed tier yields a well-formed tier that holds the
/// new binding, and — when the capacity is positive — never exceeds the
/// capacity, not even transiently.
pub proof fn lemma_tier_insert_wf(t: TierView, k: i64, f: FrameView)
    requires
        tier_wf(t),
    ensures
        tier_wf(tier_insert(t, k, f)),
        lookup_exact(tier_insert(t, k, f).entries, k) == Some(f),
        t.capacity >= 1 ==> tier_insert(t, k, f).entries.len() <= t.capacity,
{
    lemma_evict_to_fit_bound(t.entries, t.order, t.capacity);
    let (e, o) = evict_to_fit(t.entries, t.order, t.capacity);
    lemma_upsert_wf(e, k, f);
    let r = tier_insert(t, k, f);
    assert(r.entries == upsert(e, k, f));
    assert(r.order == o.push(k));
    assert forall|i: int| 0 <= i < r.entries.len() implies r.order.contains(
        #[trigger] r.entries[i].0,
    ) by {
        let key = r.entries[i].0;
        if key == k {
            assert(r.order[r.order.len() - 1] == k);
        } else {
            assert(has_key(r.entries, key));
            assert(has_key(e, key));
            let j = choose|j: int| 0 <= j < e.len() && e[j].0 == key;
            assert(o.contains(e[j].0));
            let m = choose|m: int| 0 <= m < o.len() && o[m] == key;
            assert(r.order[m] == key);
        }
    }
    if t.capacity == 0 {
        assert(e.len() == 0);
        assert(r.entries.len() <= 1);
    } else {
        assert(e.len() < t.capacity);
        assert(r.entries.len() <= t.capacity);
    }
}

// ---------------------------------------------------------------------------
// Tier implementation
// ---------------------------------------------------------------------------

/// Absolute distance between a stored key and a requested timestamp, computed
/// without overflow.
fn abs_dist(k: i64, pts: i64) -> (r: i128)
    ensures
        r == dist(k, pts),
{
    let a = k as i128 - pts as i128;
    if a >= 0 {
        a
    } else {
        -a
    }
}

/// One cache tier: an associative store plus its insertion-order queue.
pub struct Tier {
    capacity: usize,
    entries: Vec<(i64, VideoFrame)>,
    order: Vec<i64>,
}

impl View for Tier {
    type V = TierView;

    closed spec fn view(&self) -> TierView {
        TierView {
            capacity: self.capacity as nat,
            entries: Seq::new(self.entries@.len(), |i: int| (self.entries@[i].0, self.entries@[i].1@)),
            order: self.order@,
        }
    }
}

impl Tier {
    /// An empty tier with the given capacity.
    pub fn new(capacity: usize) -> (r: Self)
        ensures
            r@ == (TierView {
                capacity: capacity as nat,
                entries: Seq::<(i64, FrameView)>::empty(),
                order: Seq::<i64>::empty(),
            }),
            tier_wf(r@),
    {
        let r = Tier { capacity, entries: Vec::new(), order: Vec::new() };
        proof {
            assert(r@.entries =~= Seq::<(i64, FrameView)>::empty());
            assert(r@ =~= (TierView {
                capacity: capacity as nat,
                entries: Seq::<(i64, FrameView)>::empty(),
                order: Seq::<i64>::empty(),
            }));
        }
        r
    }

    /// Number of live entries.
    pub fn len(&self) -> (r: usize)
        ensures
            r == self@.entries.len(),
    {
        self.entries.len()
    }

    /// Index of the first entry holding `k`, if any.
    fn find_key_index(&self, k: i64) -> (r: Option<usize>)
        ensures
            match r {
                Some(i) => i < self@.entries.len() && self@.entries[i as int].0 == k
                    && (forall|j: int| 0 <= j < i ==> self@.entries[j].0 != k),
                None => !has_key(self@.entries, k),
            },
    {
        let n = self.entries.len();
        let mut i: usize = 0;
        while i < n
            invariant
                n == self@.entries.len(),
                i <= n,
                forall|j: int| 0 <= j < i ==> self@.entries[j].0 != k,
            decreases n - i,
        {
            if self.entries[i].0 == k {
                return Some(i);
            }
            i += 1;
        }
        None
    }

    /// Insert a frame under `pts_us`. While the tier is at capacity the single
    /// oldest-inserted entry is evicted first, so the capacity is a hard
    /// ceiling that is never exceeded, not even transiently.
    pub fn insert(&mut self, pts_us: i64, frame: VideoFrame)
        requires
            tier_wf(old(self)@),
        ensures
            final(self)@ == tier_insert(old(self)@, pts_us, frame@),
            tier_wf(final(self)@),
    {
        let ghost orig = self@;
        while self.entries.len() >= self.capacity && self.order.len() > 0
            invariant
                self@.capacity == orig.capacity,
                unique_keys(self@.entries),
                keys_in_order(self@.entries, self@.order),
                evict_to_fit(self@.entries, self@.order, orig.capacity)
                    == evict_to_fit(orig.entries, orig.order, orig.capacity),
            decreases self.order.len(),
        {
            let ghost pre = self@;
            let oldest = self.order.remove(0);
            proof {
                assert(self@.entries =~= pre.entries);
                assert(self@.order =~= pre.order.drop_first());
                lemma_evict_step_wf(pre.entries, pre.order, oldest);
            }
            self.remove_entry(oldest);
        }
        proof {
            // the loop stopped, so evict_to_fit on the current state is a no-op
            assert(evict_to_fit(self@.entries, self@.order, orig.capacity)
                == (self@.entries, self@.order));
            lemma_evict_to_fit_bound(orig.entries, orig.order, orig.capacity);
        }
        let ghost evicted = self@;
        let idx = self.find_key_index(pts_us);
        match idx {
            Some(i) => {
                proof {
                    assert(has_key(evicted.entries, pts_us));
                    assert(evicted.entries[key_index(evicted.entries, pts_us)].0 == pts_us);
                    assert(key_index(evicted.entries, pts_us) == i as int) by {
                        let ki = key_index(evicted.entries, pts_us);
                        if ki != i as int {
                            assert(evicted.entries[ki].0 == pts_us);
                            assert(evicted.entries[i as int].0 == pts_us);
                        }
                    }
                }
                self.entries.remove(i);
                self.entries.insert(i, (pts_us, frame));
                proof {
                    assert(self@.entries =~= upsert(evicted.entries, pts_us, frame@));
                }
            },
            None => {
                self.entries.push((pts_us, frame));
                proof {
                    assert(self@.entries =~= upsert(evicted.entries, pts_us, frame@));
                }
            },
        }
        self.order.push(pts_us);
        proof {
            assert(self@.entries == upsert(evicted.entries, pts_us, frame@));
            assert(self@.order =~= evicted.order.push(pts_us));
            assert(evict_to_fit(orig.entries, orig.order, orig.capacity)
                == (evicted.entries, evicted.order));
            assert(self@ =~= tier_insert(orig, pts_us, frame@));
            lemma_upsert_wf(evicted.entries, pts_us, frame@);
            // every key of the new store is still queued for eviction
            assert forall|i: int| 0 <= i < self@.entries.len() implies self@.order.contains(
                #[trigger] self@.entries[i].0,
            ) by {
                let key = self@.entries[i].0;
                if key == pts_us {
                    assert(self@.order[self@.order.len() - 1] == pts_us);
                } else {
                    assert(has_key(self@.entries, key));
                    assert(has_key(evicted.entries, key));
                    let j = choose|j: int|
                        0 <= j < evicted.entries.len() && evicted.entries[j].0 == key;
                    assert(evicted.order.contains(evicted.entries[j].0));
                    let m = choose|m: int|
                        0 <= m < evicted.order.len() && evicted.order[m] == key;
                    assert(self@.order[m] == key);
                }
            }
            // the capacity ceiling holds again
            assert(self@.entries.len() <= (if orig.capacity == 0 { 1nat } else { orig.capacity }));
        }
    }

    /// Look up the frame nearest to `pts_us` within `tolerance_us`; an exact
    /// key match wins immediately. Returns a clone of the stored frame.
    pub fn find(&self, pts_us: i64, tolerance_us: i64) -> (r: Option<VideoFrame>)
        requires
            unique_keys(self@.entries),
        ensures
            match r {
                Some(f) => tier_lookup(self@.entries, pts_us, tolerance_us) matches Some(b)
                    && f@ == b.1,
                None => tier_lookup(self@.entries, pts_us, tolerance_us) is None,
            },
    {
        let ghost s = self@.entries;
        // exact match first
        let idx = self.find_key_index(pts_us);
        match idx {
            Some(i) => {
                proof {
                    assert(has_key(s, pts_us));
                    assert(s[key_index(s, pts_us)].0 == pts_us);
                    assert(key_index(s, pts_us) == i as int) by {
                        let ki = key_index(s, pts_us);
                        if ki != i as int {
                            assert(s[ki].0 == pts_us);
                            assert(s[i as int].0 == pts_us);
                        }
                    }
                }
                let f = self.entries[i].1.clone();
                return Some(f);
            },
            None => {},
        }
        // scan for the nearest key within tolerance
        let n = self.entries.len();
        let mut best: Option<usize> = None;
        let mut i: usize = 0;
        while i < n
            invariant
                n == s.len(),
                s == self@.entries,
                i <= n,
                match best {
                    Some(b) => b < i && best_match(s.take(i as int), pts_us, tolerance_us)
                        == Some::<(i64, FrameView)>(s[b as int]),
                    None => best_match(s.take(i as int), pts_us, tolerance_us)
                        is None,
                },
            decreases n - i,
        {
            let ghost prefix = s.take(i as int);
            let k = self.entries[i].0;
            let d = abs_dist(k, pts_us);
            proof {
                assert(s.take(i + 1).drop_last() =~= prefix);
                assert(s.take(i + 1).last() == s[i as int]);
            }
            let within = tolerance_us >= 0 && d <= tolerance_us as i128;
            match best {
                Some(b) => {
                    let bd = abs_dist(self.entries[b].0, pts_us);
                    if within && d < bd {
                        best = Some(i);
                    }
                },
                None => {
                    if within {
                        best = Some(i);
                    }
                },
            }
            proof {
                if tolerance_us < 0 {
                    assert(!(dist(s[i as int].0, pts_us) <= tolerance_us));
                }
            }
            i += 1;
        }
        proof {
            assert(s.take(n as int) =~= s);
        }
        match best {
            Some(b) => Some(self.entries[b].1.clone()),
            None => None,
        }
    }

    /// Remove the entry holding `k`, if any.
    fn remove_entry(&mut self, k: i64)
        requires
            unique_keys(old(self)@.entries),
        ensures
            final(self)@.capacity == old(self)@.capacity,
            final(self)@.order == old(self)@.order,
            final(self)@.entries == remove_key(old(self)@.entries, k),
    {
        let idx = self.find_key_index(k);
        match idx {
            Some(i) => {
                let ghost pre = self@.entries;
                self.entries.remove(i);
                proof {
                    assert(has_key(pre, k));
                    // keys are unique, so the found index is the chosen one
                    assert(pre[key_index(pre, k)].0 == k);
                    assert(key_index(pre, k) == i as int);
                    assert(self@.entries =~= pre.remove(i as int));
                }
            },
            None => {},
        }
    }

    /// Drop every entry and the whole order queue; the capacity is kept.
    fn clear(&mut self)
        ensures
            final(self)@ == (TierView {
                capacity: old(self)@.capacity,
                entries: Seq::<(i64, FrameView)>::empty(),
                order: Seq::<i64>::empty(),
            }),
            tier_wf(final(self)@),
    {
        self.entries.clear();
        self.order.clear();
        proof {
            assert(self@.entries =~= Seq::<(i64, FrameView)>::empty());
            assert(self@ =~= (TierView {
                capacity: old(self)@.capacity,
                entries: Seq::<(i64, FrameView)>::empty(),
                order: Seq::<i64>::empty(),
            }));
        }
    }

    /// Sum of the buffer sizes of all stored frames, saturating at `u64::MAX`.
    fn mem_usage(&self) -> (r: u64)
        ensures
            r == sat_u64(mem_of(self@.entries)),
    {
        let ghost s = self@.entries;
        let n = self.entries.len();
        let mut acc: u64 = 0;
        let mut i: usize = 0;
        proof {
            assert(s.take(0) =~= Seq::<(i64, FrameView)>::empty());
        }
        while i < n
            invariant
                n == s.len(),
                s == self@.entries,
                i <= n,
                acc == sat_u64(mem_of(s.take(i as int))),
            decreases n - i,
        {
            let ghost prefix = s.take(i as int);
            proof {
                assert(s.take(i + 1).drop_last() =~= prefix);
                assert(s.take(i + 1).last() == s[i as int]);
                lemma_mem_of_nonneg(prefix);
            }
            let b = self.entries[i].1.data.len() as u64;
            acc = sat_add(acc, b);
            i += 1;
        }
        proof {
            assert(s.take(n as int) =~= s);
        }
        acc
    }
}

// ---------------------------------------------------------------------------
// Whole-cache model
// ---------------------------------------------------------------------------

/// Mathematical view of the whole cache: the three tiers and the counters.
#[verifier::ext_equal]
pub struct CacheView {
    pub l1: TierView,
    pub l2: TierView,
    pub l3: TierView,
    pub l1_hits: u64,
    pub l2_hits: u64,
    pub l3_hits: u64,
    pub misses: u64,
}

/// Counter increment, saturating at the machine bound.
pub open spec fn sat_inc(x: u64) -> u64 {
    if x == u64::MAX {
        x
    } else {
        (x + 1) as u64
    }
}

/// Clamp a mathematical integer into `u64`.
pub open spec fn sat_u64(x: int) -> u64 {
    if x > u64::MAX {
        u64::MAX
    } else if x < 0 {
        0u64
    } else {
        x as u64
    }
}

/// Sum of the buffer sizes of the stored frames.
pub open spec fn mem_of(s: Seq<(i64, FrameView)>) -> int
    decreases s.len(),
{
    if s.len() == 0 {
        0
    } else {
        mem_of(s.drop_last()) + s.last().1.data.len()
    }
}

/// Memory held by all three tiers together.
pub open spec fn total_mem(c: CacheView) -> int {
    mem_of(c.l1.entries) + mem_of(c.l2.entries) + mem_of(c.l3.entries)
}

proof fn lemma_mem_of_nonneg(s: Seq<(i64, FrameView)>)
    ensures
        mem_of(s) >= 0,
    decreases s.len(),
{
    if s.len() > 0 {
        lemma_mem_of_nonneg(s.drop_last());
    }
}

/// Effect of an L1 insert.
pub open spec fn spec_insert_l1(c: CacheView, pts: i64, f: FrameView) -> CacheView {
    CacheView { l1: tier_insert(c.l1, pts, f), ..c }
}

/// Effect of an L2 insert: a no-op unless the frame is a keyframe.
pub open spec fn spec_insert_l2(c: CacheView, pts: i64, f: FrameView) -> CacheView {
    if f.is_keyframe {
        CacheView { l2: tier_insert(c.l2, pts, f), ..c }
    } else {
        c
    }
}

/// Effect of an L3 insert.
pub open spec fn spec_insert_l3(c: CacheView, pts: i64, f: FrameView) -> CacheView {
    CacheView { l3: tier_insert(c.l3, pts, f), ..c }
}

/// Effect of recording a miss.
pub open spec fn spec_record_miss(c: CacheView) -> CacheView {
    CacheView { misses: sat_inc(c.misses), ..c }
}

/// Effect and result of a lookup: L1 is consulted first, then L2, then L3;
/// the first tier with a match wins and its hit counter is incremented; a hit
/// on L2 or L3 also promotes the frame into L1 under the queried timestamp.
/// On a total miss nothing changes (the caller records the miss explicitly).
pub open spec fn spec_get(c: CacheView, pts: i64, tol: i64) -> (Option<FrameView>, CacheView) {
    match tier_lookup(c.l1.entries, pts, tol) {
        Some(b) => (Some(b.1), CacheView { l1_hits: sat_inc(c.l1_hits), ..c }),
        None => match tier_lookup(c.l2.entries, pts, tol) {
            Some(b) => (
                Some(b.1),
                CacheView { l2_hits: sat_inc(c.l2_hits), l1: tier_insert(c.l1, pts, b.1), ..c },
            ),
            None => match tier_lookup(c.l3.entries, pts, tol) {
                Some(b) => (
                    Some(b.1),
                    CacheView {
                        l3_hits: sat_inc(c.l3_hits),
                        l1: tier_insert(c.l1, pts, b.1),
                        ..c
                    },
                ),
                None => (None, c),
            },
        },
    }
}

/// Cache well-formedness: each tier is well-formed.
pub open spec fn cache_wf(c: CacheView) -> bool {
    tier_wf(c.l1) && tier_wf(c.l2) && tier_wf(c.l3)
}

// ---------------------------------------------------------------------------
// Cache implementation
// ---------------------------------------------------------------------------

/// Saturating counter increment.
fn sat_bump(x: u64) -> (r: u64)
    ensures
        r == sat_inc(x),
{
    if x == u64::MAX {
        x
    } else {
        x + 1
    }
}

/// Saturating add.
fn sat_add(a: u64, b: u64) -> (r: u64)
    ensures
        r == sat_u64(a + b),
{
    if a > u64::MAX - b {
        u64::MAX
    } else {
        a + b
    }
}

/// Multi-tier frame cache: L1 (hot), L2 (keyframe-only), L3 (cold), each with
/// its own capacity and insertion-order eviction, plus hit/miss counters.
pub struct Cache {
    l1: Tier,
    l2: Tier,
    l3: Tier,
    l1_hits: u64,
    l2_hits: u64,
    l3_hits: u64,
    misses: u64,
}

impl View for Cache {
    type V = CacheView;

    closed spec fn view(&self) -> CacheView {
        CacheView {
            l1: self.l1@,
            l2: self.l2@,
            l3: self.l3@,
            l1_hits: self.l1_hits,
            l2_hits: self.l2_hits,
            l3_hits: self.l3_hits,
            misses: self.misses,
        }
    }
}

impl Cache {
    /// Well-formedness: all three tiers are well-formed.
    pub open spec fn wf(&self) -> bool {
        cache_wf(self@)
    }

    /// Create a new cache with the given configuration.
    pub fn new(config: CacheConfig) -> (r: Self)
        ensures
            r.wf(),
            r@ == (CacheView {
                l1: TierView {
                    capacity: config.l1_capacity as nat,
                    entries: Seq::<(i64, FrameView)>::empty(),
                    order: Seq::<i64>::empty(),
                },
                l2: TierView {
                    capacity: config.l2_capacity as nat,
                    entries: Seq::<(i64, FrameView)>::empty(),
                    order: Seq::<i64>::empty(),
                },
                l3: TierView {
                    capacity: config.l3_capacity as nat,
                    entries: Seq::<(i64, FrameView)>::empty(),
                    order: Seq::<i64>::empty(),
                },
                l1_hits: 0u64,
                l2_hits: 0u64,
                l3_hits: 0u64,
                misses: 0u64,
            }),
    {
        let l1 = Tier::new(config.l1_capacity);
        let l2 = Tier::new(config.l2_capacity);
        let l3 = Tier::new(config.l3_capacity);
        Cache { l1, l2, l3, l1_hits: 0, l2_hits: 0, l3_hits: 0, misses: 0 }
    }

    /// Get a frame near `pts_us` within `tolerance_us`. Checks L1, then L2,
    /// then L3; the first tier with a match wins and its hit counter is
    /// incremented; a hit on L2 or L3 promotes the frame into L1. On a total
    /// miss, returns `None` and changes nothing: recording the miss is the
    /// caller's explicit decision.
    pub fn get(&mut self, pts_us: i64, tolerance_us: i64) -> (r: Option<VideoFrame>)
        requires
            old(self).wf(),
        ensures
            final(self).wf(),
            ({
                let (r0, c0) = spec_get(old(self)@, pts_us, tolerance_us);
                &&& (r is Some <==> r0 is Some)
                &&& (r matches Some(f) ==> r0 matches Some(fv) && f@ == fv)
                &&& final(self)@ == c0
            }),
    {
        let ghost orig = self@;
        match self.l1.find(pts_us, tolerance_us) {
            Some(f) => {
                self.l1_hits = sat_bump(self.l1_hits);
                proof {
                    assert(self@ =~= spec_get(orig, pts_us, tolerance_us).1);
                }
                return Some(f);
            },
            None => {},
        }
        match self.l2.find(pts_us, tolerance_us) {
            Some(f) => {
                self.l2_hits = sat_bump(self.l2_hits);
                let promoted = f.clone();
                self.l1.insert(pts_us, promoted);
                proof {
                    assert(self@ =~= spec_get(orig, pts_us, tolerance_us).1);
                }
                return Some(f);
            },
            None => {},
        }
        match self.l3.find(pts_us, tolerance_us) {
            Some(f) => {
                self.l3_hits = sat_bump(self.l3_hits);
                let promoted = f.clone();
                self.l1.insert(pts_us, promoted);
                proof {
                    assert(self@ =~= spec_get(orig, pts_us, tolerance_us).1);
                }
                return Some(f);
            },
            None => {},
        }
        None
    }

    /// Record a cache miss.
    pub fn record_miss(&mut self)
        ensures
            final(self)@ == spec_record_miss(old(self)@),
            old(self).wf() ==> final(self).wf(),
    {
        self.misses = sat_bump(self.misses);
        proof {
            assert(self@ =~= spec_record_miss(old(self)@));
        }
    }

    /// Insert a frame into the L1 (hot) cache.
    pub fn insert_l1(&mut self, pts_us: i64, frame: VideoFrame)
        requires
            old(self).wf(),
        ensures
            final(self).wf(),
            final(self)@ == spec_insert_l1(old(self)@, pts_us, frame@),
    {
        let ghost orig = self@;
        self.l1.insert(pts_us, frame);
        proof {
            assert(self@ =~= spec_insert_l1(orig, pts_us, frame@));
        }
    }

    /// Insert a keyframe into the L2 (keyframe) cache. A frame whose keyframe
    /// flag is not set is silently rejected: the tier is left unchanged.
    pub fn insert_l2(&mut self, pts_us: i64, frame: VideoFrame)
        requires
            old(self).wf(),
        ensures
            final(self).wf(),
            final(self)@ == spec_insert_l2(old(self)@, pts_us, frame@),
    {
        if !frame.is_keyframe {
            return;
        }
        let ghost orig = self@;
        self.l2.insert(pts_us, frame);
        proof {
            assert(self@ =~= spec_insert_l2(orig, pts_us, frame@));
        }
    }

    /// Insert a frame into the L3 (cold) cache.
    pub fn insert_l3(&mut self, pts_us: i64, frame: VideoFrame)
        requires
            old(self).wf(),
        ensures
            final(self).wf(),
            final(self)@ == spec_insert_l3(old(self)@, pts_us, frame@),
    {
        let ghost orig = self@;
        self.l3.insert(pts_us, frame);
        proof {
            assert(self@ =~= spec_insert_l3(orig, pts_us, frame@));
        }
    }

    /// Snapshot of entry counts, hit/miss counters and memory usage.
    pub fn statistics(&self) -> (r: CacheStatistics)
        ensures
            r.l1_entries == self@.l1.entries.len(),
            r.l2_entries == self@.l2.entries.len(),
            r.l3_entries == self@.l3.entries.len(),
            r.l1_hit_count == self@.l1_hits,
            r.l2_hit_count == self@.l2_hits,
            r.l3_hit_count == self@.l3_hits,
            r.miss_count == self@.misses,
            r.memory_usage_bytes == sat_u64(total_mem(self@)),
    {
        let m1 = self.l1.mem_usage();
        let m2 = self.l2.mem_usage();
        let m3 = self.l3.mem_usage();
        let memory = sat_add(sat_add(m1, m2), m3);
        proof {
            lemma_mem_of_nonneg(self@.l1.entries);
            lemma_mem_of_nonneg(self@.l2.entries);
            lemma_mem_of_nonneg(self@.l3.entries);
        }
        CacheStatistics {
            l1_entries: self.l1.len(),
            l2_entries: self.l2.len(),
            l3_entries: self.l3.len(),
            l1_hit_count: self.l1_hits,
            l2_hit_count: self.l2_hits,
            l3_hit_count: self.l3_hits,
            miss_count: self.misses,
            memory_usage_bytes: memory,
        }
    }

    /// Empty all tiers and their order queues. The hit and miss counters are
    /// cumulative for the cache's lifetime and are deliberately kept.
    pub fn clear(&mut self)
        ensures
            final(self).wf(),
            final(self)@.l1 == (TierView {
                capacity: old(self)@.l1.capacity,
                entries: Seq::<(i64, FrameView)>::empty(),
                order: Seq::<i64>::empty(),
            }),
            final(self)@.l2 == (TierView {
                capacity: old(self)@.l2.capacity,
                entries: Seq::<(i64, FrameView)>::empty(),
                order: Seq::<i64>::empty(),
            }),
            final(self)@.l3 == (TierView {
                capacity: old(self)@.l3.capacity,
                entries: Seq::<(i64, FrameView)>::empty(),
                order: Seq::<i64>::empty(),
            }),
            final(self)@.l1_hits == old(self)@.l1_hits,
            final(self)@.l2_hits == old(self)@.l2_hits,
            final(self)@.l3_hits == old(self)@.l3_hits,
            final(self)@.misses == old(self)@.misses,
    {
        self.l1.clear();
        self.l2.clear();
        self.l3.clear();
    }
}

// ---------------------------------------------------------------------------
// Laws
// ---------------------------------------------------------------------------

/// Law: no insert pushes a tier beyond its configured capacity. Inserting
/// into any tier of a well-formed cache keeps the cache well-formed, and a
/// tier with positive capacity holds at most `capacity` entries afterwards.
pub proof fn lemma_inserts_respect_capacity(c: CacheView, pts: i64, f: FrameView)
    requires
        cache_wf(c),
    ensures
        cache_wf(spec_insert_l1(c, pts, f)),
        cache_wf(spec_insert_l2(c, pts, f)),
        cache_wf(spec_insert_l3(c, pts, f)),
        c.l1.capacity >= 1 ==> spec_insert_l1(c, pts, f).l1.entries.len() <= c.l1.capacity,
        c.l2.capacity >= 1 ==> spec_insert_l2(c, pts, f).l2.entries.len() <= c.l2.capacity,
        c.l3.capacity >= 1 ==> spec_insert_l3(c, pts, f).l3.entries.len() <= c.l3.capacity,
{
    lemma_tier_insert_wf(c.l1, pts, f);
    lemma_tier_insert_wf(c.l2, pts, f);
    lemma_tier_insert_wf(c.l3, pts, f);
}

/// Law: an L2 insert with a non-keyframe frame is a no-op — the cache, tier
/// sizes and contents included, is unchanged.
pub proof fn lemma_l2_rejects_non_keyframe(c: CacheView, pts: i64, f: FrameView)
    requires
        !f.is_keyframe,
    ensures
        spec_insert_l2(c, pts, f) == c,
{
}

/// Law (exact-match round trip): after inserting a frame into L1 under
/// timestamp `ts`, a lookup at `ts` with zero tolerance returns that frame.
pub proof fn lemma_exact_round_trip(c: CacheView, ts: i64, f: FrameView)
    requires
        cache_wf(c),
    ensures
        spec_get(spec_insert_l1(c, ts, f), ts, 0).0 == Some(f),
{
    lemma_tier_insert_wf(c.l1, ts, f);
    let c2 = spec_insert_l1(c, ts, f);
    assert(lookup_exact(c2.l1.entries, ts) == Some(f));
}

/// Law (boundary exclusion): when every stored key of every tier lies
/// strictly beyond the tolerance, the lookup misses, returns nothing, and
/// leaves the cache unchanged.
pub proof fn lemma_miss_outside_tolerance(c: CacheView, ts: i64, tol: i64)
    requires
        cache_wf(c),
        tol >= 0,
        forall|i: int| 0 <= i < c.l1.entries.len() ==> dist(#[trigger] c.l1.entries[i].0, ts) > tol,
        forall|i: int| 0 <= i < c.l2.entries.len() ==> dist(#[trigger] c.l2.entries[i].0, ts) > tol,
        forall|i: int| 0 <= i < c.l3.entries.len() ==> dist(#[trigger] c.l3.entries[i].0, ts) > tol,
    ensures
        spec_get(c, ts, tol).0 is None,
        spec_get(c, ts, tol).1 == c,
{
    lemma_tier_misses_outside_tolerance(c.l1.entries, ts, tol);
    lemma_tier_misses_outside_tolerance(c.l2.entries, ts, tol);
    lemma_tier_misses_outside_tolerance(c.l3.entries, ts, tol);
}

/// One tier misses when every stored key lies strictly beyond the tolerance.
proof fn lemma_tier_misses_outside_tolerance(s: Seq<(i64, FrameView)>, ts: i64, tol: i64)
    requires
        tol >= 0,
        forall|i: int| 0 <= i < s.len() ==> dist(#[trigger] s[i].0, ts) > tol,
    ensures
        tier_lookup(s, ts, tol) is None,
{
    if has_key(s, ts) {
        let i = key_index(s, ts);
        assert(dist(s[i].0, ts) == 0);
        assert(false);
    }
    lemma_best_match_is_nearest(s, ts, tol);
    match best_match(s, ts, tol) {
        Some(b) => {
            let i = choose|i: int| 0 <= i < s.len() && s[i] == b;
            assert(dist(s[i].0, ts) > tol);
            assert(false);
        },
        None => {},
    }
}

/// Law (insertion-order eviction): inserting a fresh key into a tier that sits
/// exactly at a positive capacity, with a live and duplicate-free order queue,
/// evicts precisely the oldest-inserted key and stores the new one.
pub proof fn lemma_eviction_order(t: TierView, k: i64, f: FrameView)
    requires
        tier_wf(t),
        t.capacity >= 1,
        t.entries.len() == t.capacity,
        t.order.len() == t.entries.len(),
        t.order.no_duplicates(),
        forall|m: int| 0 <= m < t.order.len() ==> has_key(t.entries, #[trigger] t.order[m]),
        k != t.order[0],
    ensures
        !has_key(tier_insert(t, k, f).entries, t.order[0]),
        lookup_exact(tier_insert(t, k, f).entries, k) == Some(f),
{
    let oldest = t.order[0];
    lemma_evict_step_wf(t.entries, t.order, oldest);
    let e1 = remove_key(t.entries, oldest);
    let o1 = t.order.drop_first();
    assert(has_key(t.entries, oldest));
    assert(e1.len() == t.entries.len() - 1);
    assert(e1.len() < t.capacity);
    assert(evict_to_fit(e1, o1, t.capacity) == (e1, o1));
    assert(evict_to_fit(t.entries, t.order, t.capacity) == evict_to_fit(e1, o1, t.capacity));
    lemma_upsert_wf(e1, k, f);
    assert(!has_key(e1, oldest));
    assert(!has_key(upsert(e1, k, f), oldest));
}

/// Law (promotion): when a lookup is served by L2 or L3 (L1 itself has no
/// match), a subsequent lookup at the same timestamp with zero tolerance is
/// served by L1 — it returns the same frame and increments the L1 hit
/// counter.
pub proof fn lemma_promotion_serves_from_l1(c: CacheView, ts: i64, tol: i64)
    requires
        cache_wf(c),
        tier_lookup(c.l1.entries, ts, tol) is None,
        spec_get(c, ts, tol).0 is Some,
    ensures
        ({
            let f = spec_get(c, ts, tol).0.unwrap();
            let c2 = spec_get(c, ts, tol).1;
            spec_get(c2, ts, 0).0 == Some(f) && spec_get(c2, ts, 0).1.l1_hits == sat_inc(
                c2.l1_hits,
            )
        }),
{
    let f = spec_get(c, ts, tol).0.unwrap();
    let c2 = spec_get(c, ts, tol).1;
    assert(c2.l1 == tier_insert(c.l1, ts, f));
    lemma_tier_insert_wf(c.l1, ts, f);
    assert(lookup_exact(c2.l1.entries, ts) == Some(f));
}

} // verus!
