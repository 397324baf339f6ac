//! The bounded cache of stabilization contexts, keyed by project identity and
//! render configuration, with least-recently-used eviction.
use vstd::prelude::*;
use crate::context::{FrameStep, StabilizationContext, Validity, step_of, stepped};
use crate::lru_store::{
    ContextLru, EntryKey, KeyView, lru_clear, lru_entries, lru_capacity, lru_len, lru_new,
    lru_pop, lru_push,
};
use crate::params::ParameterSnapshot;
use crate::bytes::copy_bytes;

verus! {

/// The capacity used when a deployment names none.
pub const DEFAULT_CAPACITY: usize = 8;

/// The identity under which a context is cached. Two keys are the same key
/// exactly when all their fields are equal.
#[derive(Clone, Debug, PartialEq, Eq)]
pub struct CacheKey {
    /// Identifies the project (its path or content).
    pub project: Vec<u8>,
    /// The caller's own identifier for the plugin instance.
    pub instance: Vec<u8>,
    pub width: u32,
    pub height: u32,
    /// The pixel-format tag, as the host names it.
    pub pixel_format: Vec<u8>,
    pub disable_stretch: bool,
}

impl View for CacheKey {
    type V = KeyView;

    open spec fn view(&self) -> KeyView {
        (self.project@, self.instance@, self.width, self.height, self.pixel_format@, self.disable_stretch)
    }
}

impl CacheKey {
    pub fn new(
        project: Vec<u8>,
        instance: Vec<u8>,
        width: u32,
        height: u32,
        pixel_format: Vec<u8>,
        disable_stretch: bool,
    ) -> (r: CacheKey)
        ensures
            r@ == (project@, instance@, width, height, pixel_format@, disable_stretch),
    {
        CacheKey { project, instance, width, height, pixel_format, disable_stretch }
    }

    /// The key as the map holds it.
    fn entry_key(&self) -> (r: EntryKey)
        ensures
            r@ == self@,
    {
        (
            copy_bytes(self.project.as_slice()),
            copy_bytes(self.instance.as_slice()),
            self.width,
            self.height,
            copy_bytes(self.pixel_format.as_slice()),
            self.disable_stretch,
        )
    }
}

/// What a lookup did: the context it resolved to, whether it was constructed
/// by this lookup, and the context that had to leave to make room, if any.
#[derive(Clone, Copy, Debug, PartialEq, Eq, Structural)]
pub struct Lookup {
    pub serial: u64,
    pub created: bool,
    pub evicted: Option<u64>,
}

/// The abstract cache: its entries from least to most recently used, its
/// capacity, and the serial that the next constructed context gets.
pub struct CacheModel {
    pub entries: Seq<(KeyView, StabilizationContext)>,
    pub capacity: nat,
    pub next_serial: nat,
}

/// Some entry has key `k`.
pub open spec fn has_key(entries: Seq<(KeyView, StabilizationContext)>, k: KeyView) -> bool {
    exists|i: int| 0 <= i < entries.len() && (#[trigger] entries[i]).0 == k
}

/// The position of the entry with key `k` (meaningful when `has_key`).
pub open spec fn key_index(entries: Seq<(KeyView, StabilizationContext)>, k: KeyView) -> int {
    choose|i: int| 0 <= i < entries.len() && (#[trigger] entries[i]).0 == k
}

/// No two entries share a key.
pub open spec fn keys_unique(entries: Seq<(KeyView, StabilizationContext)>) -> bool {
    forall|i: int, j: int|
        0 <= i < j < entries.len() ==> (#[trigger] entries[i]).0 != (#[trigger] entries[j]).0
}

impl CacheModel {
    /// At most one context per key, never more than the capacity, and every
    /// serial in use was drawn before `next_serial`.
    pub open spec fn wf(self) -> bool {
        &&& self.capacity > 0
        &&& self.entries.len() <= self.capacity
        &&& keys_unique(self.entries)
        &&& forall|i: int|
            0 <= i < self.entries.len() ==> (#[trigger] self.entries[i]).1.serial < self.next_serial
        &&& self.next_serial <= u64::MAX
    }
}

/// The cache after looking up `k`, and what the lookup reports. A hit moves
/// the entry to the most recently used place; a miss constructs a dirty
/// context with the next serial, first evicting the least recently used entry
/// when the cache is full.
pub open spec fn access(m: CacheModel, k: KeyView, initial: ParameterSnapshot) -> (CacheModel, Lookup) {
    if has_key(m.entries, k) {
        let i = key_index(m.entries, k);
        (
            CacheModel {
                entries: m.entries.remove(i).push(m.entries[i]),
                capacity: m.capacity,
                next_serial: m.next_serial,
            },
            Lookup { serial: m.entries[i].1.serial, created: false, evicted: None },
        )
    } else {
        let ctx = StabilizationContext {
            serial: m.next_serial as u64,
            snapshot: initial,
            validity: Validity::Dirty,
        };
        let full = m.entries.len() == m.capacity;
        let kept = if full {
            m.entries.drop_first()
        } else {
            m.entries
        };
        (
            CacheModel { entries: kept.push((k, ctx)), capacity: m.capacity, next_serial: m.next_serial + 1 },
            Lookup {
                serial: ctx.serial,
                created: true,
                evicted: if full {
                    Some(m.entries[0].1.serial)
                } else {
                    None
                },
            },
        )
    }
}

/// In a cache whose keys are unique, the entry with key `k` is the one at `i`.
pub proof fn lemma_key_index_is(entries: Seq<(KeyView, StabilizationContext)>, k: KeyView, i: int)
    requires
        keys_unique(entries),
        0 <= i < entries.len(),
        entries[i].0 == k,
    ensures
        has_key(entries, k),
        key_index(entries, k) == i,
{
    assert(has_key(entries, k));
    let j = key_index(entries, k);
    if i < j {
        assert(entries[i].0 != entries[j].0);
    } else if j < i {
        assert(entries[j].0 != entries[i].0);
    }
}

/// A lookup keeps the cache well formed and leaves the entry of `k` as the
/// most recently used one.
pub proof fn lemma_access_wf(m: CacheModel, k: KeyView, initial: ParameterSnapshot)
    requires
        m.wf(),
        m.next_serial < u64::MAX || has_key(m.entries, k),
    ensures
        access(m, k, initial).0.wf(),
        access(m, k, initial).0.entries.len() > 0,
        access(m, k, initial).0.entries.last().0 == k,
        access(m, k, initial).0.capacity == m.capacity,
{
    let e = access(m, k, initial).0.entries;
    if has_key(m.entries, k) {
        let i = key_index(m.entries, k);
        assert forall|a: int, b: int| 0 <= a < b < e.len()
            implies (#[trigger] e[a]).0 != (#[trigger] e[b]).0 by {
            let ra = if a < i { a } else { a + 1 };
            assert(e[a] == m.entries[ra]);
            if b < e.len() - 1 {
                let rb = if b < i { b } else { b + 1 };
                assert(e[b] == m.entries[rb]);
            }
        }
        assert forall|a: int| 0 <= a < e.len()
            implies (#[trigger] e[a]).1.serial < m.next_serial by {
            if a < e.len() - 1 {
                let ra = if a < i { a } else { a + 1 };
                assert(e[a] == m.entries[ra]);
            }
        }
    } else {
        let full = m.entries.len() == m.capacity;
        assert forall|a: int, b: int| 0 <= a < b < e.len()
            implies (#[trigger] e[a]).0 != (#[trigger] e[b]).0 by {
            let ra = if full { a + 1 } else { a };
            assert(e[a] == m.entries[ra]);
            if b < e.len() - 1 {
                let rb = if full { b + 1 } else { b };
                assert(e[b] == m.entries[rb]);
            }
        }
        assert forall|a: int| 0 <= a < e.len()
            implies (#[trigger] e[a]).1.serial < m.next_serial + 1 by {
            if a < e.len() - 1 {
                let ra = if full { a + 1 } else { a };
                assert(e[a] == m.entries[ra]);
            }
        }
    }
}

/// Looking the same key up twice resolves to the same context both times. The
/// second lookup constructs nothing and changes nothing; the first constructs
/// exactly when the key was absent, so across both calls construction happens
/// once for a new key.
pub proof fn lemma_get_or_create_twice(
    m: CacheModel,
    k: KeyView,
    first: ParameterSnapshot,
    second: ParameterSnapshot,
)
    requires
        m.wf(),
        m.next_serial < u64::MAX || has_key(m.entries, k),
    ensures
        ({
            let (m1, l1) = access(m, k, first);
            let (m2, l2) = access(m1, k, second);
            &&& l2.serial == l1.serial
            &&& !l2.created
            &&& l2.evicted is None
            &&& l1.created == !has_key(m.entries, k)
            &&& m2 == m1
        }),
{
    lemma_access_wf(m, k, first);
    let m1 = access(m, k, first).0;
    let last = m1.entries.len() - 1;
    lemma_key_index_is(m1.entries, k, last);
    assert(m1.entries.remove(last).push(m1.entries[last]) =~= m1.entries);
}

/// When the cache is full, constructing a context for a new key evicts exactly
/// the least recently used entry: its key leaves, every other key stays, and
/// the new key enters.
pub proof fn lemma_full_insert_evicts_least_recent(m: CacheModel, k: KeyView, initial: ParameterSnapshot)
    requires
        m.wf(),
        m.next_serial < u64::MAX,
        m.entries.len() == m.capacity,
        !has_key(m.entries, k),
    ensures
        ({
            let (m1, l) = access(m, k, initial);
            &&& l.created
            &&& l.evicted == Some(m.entries[0].1.serial)
            &&& !has_key(m1.entries, m.entries[0].0)
            &&& forall|j: int| 1 <= j < m.entries.len() ==> has_key(m1.entries, (#[trigger] m.entries[j]).0)
            &&& has_key(m1.entries, k)
            &&& m1.entries.len() == m.capacity
        }),
{
    let m1 = access(m, k, initial).0;
    let n = m.entries.len();
    assert forall|j: int| 1 <= j < n implies has_key(m1.entries, (#[trigger] m.entries[j]).0) by {
        assert(m1.entries[j - 1] == m.entries[j]);
    }
    assert(m1.entries[n - 1].0 == k);
    if has_key(m1.entries, m.entries[0].0) {
        let a = choose|a: int| 0 <= a < m1.entries.len() && (#[trigger] m1.entries[a]).0 == m.entries[0].0;
        if a < n - 1 {
            assert(m1.entries[a] == m.entries[a + 1]);
            assert(m.entries[0].0 != m.entries[a + 1].0);
        } else {
            assert(m.entries[0].0 != k);
        }
    }
}

/// The bounded, key-addressed store of contexts.
pub struct ManagerCache {
    lru: ContextLru,
    next_serial: u64,
}

impl View for ManagerCache {
    type V = CacheModel;

    closed spec fn view(&self) -> CacheModel {
        CacheModel {
            entries: lru_entries(self.lru),
            capacity: lru_capacity(self.lru),
            next_serial: self.next_serial as nat,
        }
    }
}

impl ManagerCache {
    pub open spec fn wf(&self) -> bool {
        self@.wf()
    }

    /// A serial is left for one more construction.
    pub open spec fn has_serial_room(&self) -> bool {
        self@.next_serial < u64::MAX
    }

    /// An empty cache that holds at most `capacity` contexts.
    pub fn new(capacity: usize) -> (r: ManagerCache)
        requires
            capacity > 0,
        ensures
            r.wf(),
            r@.entries.len() == 0,
            r@.capacity == capacity,
            r@.next_serial == 0,
    {
        ManagerCache { lru: lru_new(capacity), next_serial: 0 }
    }

    /// The number of cached contexts.
    pub fn len(&self) -> (r: usize)
        ensures
            r == self@.entries.len(),
    {
        lru_len(&self.lru)
    }

    /// Whether another context can still be given a serial of its own.
    pub fn serial_room(&self) -> (r: bool)
        ensures
            r == self.has_serial_room(),
    {
        self.next_serial < u64::MAX
    }

    /// Returns the context cached under `key`, or constructs one (dirty, with
    /// `initial` as its parameters), inserting it and evicting the least
    /// recently used context when the cache is full. A construction needs a
    /// serial left (`serial_room`); a hit does not.
    pub fn get_or_create(&mut self, key: &CacheKey, initial: &ParameterSnapshot) -> (r: Lookup)
        requires
            old(self).wf(),
            old(self).has_serial_room() || has_key(old(self)@.entries, key@),
        ensures
            final(self).wf(),
            (final(self)@, r) == access(old(self)@, key@, *initial),
    {
        let ek = key.entry_key();
        let ghost m = self@;
        match lru_pop(&mut self.lru, &ek) {
            Some(ctx) => {
                let ghost i = choose|i: int|
                    0 <= i < m.entries.len() && #[trigger] m.entries[i] == (key@, ctx)
                    && lru_entries(self.lru) == m.entries.remove(i);
                proof {
                    lemma_key_index_is(m.entries, key@, i);
                    assert forall|k: int| 0 <= k < lru_entries(self.lru).len()
                        implies (#[trigger] lru_entries(self.lru)[k]).0 != key@ by {
                        if k < i {
                            assert(lru_entries(self.lru)[k] == m.entries[k]);
                        } else {
                            assert(lru_entries(self.lru)[k] == m.entries[k + 1]);
                        }
                    }
                }
                let _ = lru_push(&mut self.lru, ek, ctx);
                proof {
                    lemma_access_wf(m, key@, *initial);
                    assert(lru_entries(self.lru) =~= access(m, key@, *initial).0.entries);
                }
                Lookup { serial: ctx.serial, created: false, evicted: None }
            },
            None => {
                let ctx = StabilizationContext::new(self.next_serial, *initial);
                let evicted = match lru_push(&mut self.lru, ek, ctx) {
                    Some(p) => Some(p.1.serial),
                    None => None,
                };
                self.next_serial = self.next_serial + 1;
                proof {
                    assert(!has_key(m.entries, key@));
                    lemma_access_wf(m, key@, *initial);
                }
                Lookup { serial: ctx.serial, created: true, evicted }
            },
        }
    }

    /// Reconciles and recomputes the most recently used context, the one of `key`.
    pub(crate) fn step_latest(&mut self, key: &CacheKey, incoming: &ParameterSnapshot) -> (r: FrameStep)
        requires
            old(self).wf(),
            old(self)@.entries.len() > 0,
            old(self)@.entries.last().0 == key@,
        ensures
            final(self).wf(),
            final(self)@ == (CacheModel {
                entries: old(self)@.entries.update(
                    old(self)@.entries.len() - 1,
                    (key@, stepped(old(self)@.entries.last().1, *incoming)),
                ),
                capacity: old(self)@.capacity,
                next_serial: old(self)@.next_serial,
            }),
            r == step_of(old(self)@.entries.last().1, *incoming),
    {
        let ek = key.entry_key();
        let ghost m = self@;
        let ghost last = m.entries.len() - 1;
        match lru_pop(&mut self.lru, &ek) {
            Some(ctx) => {
                let ghost i = choose|i: int|
                    0 <= i < m.entries.len() && #[trigger] m.entries[i] == (key@, ctx)
                    && lru_entries(self.lru) == m.entries.remove(i);
                proof {
                    if i < last {
                        assert(m.entries[i].0 != m.entries[last].0);
                    }
                    assert(lru_entries(self.lru) =~= m.entries.subrange(0, last));
                }
                let mut ctx = ctx;
                let step = ctx.begin_frame(incoming);
                let _ = lru_push(&mut self.lru, ek, ctx);
                proof {
                    let e = lru_entries(self.lru);
                    assert(e =~= m.entries.update(last, (key@, stepped(m.entries[last].1, *incoming))));
                    assert forall|a: int, b: int| 0 <= a < b < e.len()
                        implies (#[trigger] e[a]).0 != (#[trigger] e[b]).0 by {
                        assert(e[a] == m.entries[a]);
                        if b < last {
                            assert(e[b] == m.entries[b]);
                        }
                    }
                    assert forall|a: int| 0 <= a < e.len()
                        implies (#[trigger] e[a]).1.serial < self.next_serial by {
                        assert(e[a].1.serial == m.entries[a].1.serial);
                    }
                }
                step
            },
            None => {
                proof {
                    assert(m.entries[last].0 == key@);
                }
                FrameStep { changed: false, recompute: None }
            },
        }
    }

    /// Evicts every context; returns how many there were.
    pub fn clear(&mut self) -> (r: usize)
        requires
            old(self).wf(),
        ensures
            final(self).wf(),
            r == old(self)@.entries.len(),
            final(self)@.entries.len() == 0,
            final(self)@.capacity == old(self)@.capacity,
            final(self)@.next_serial == old(self)@.next_serial,
    {
        let n = lru_len(&self.lru);
        lru_clear(&mut self.lru);
        n
    }
}

} // verus!
