//! The least-recently-used map of the `lru` crate, holding contexts by key,
//! with contracts over the ordered sequence of its entries.
use vstd::prelude::*;
use crate::context::StabilizationContext;

verus! {

/// A cache key as the map holds it: project, instance, width, height,
/// pixel-format tag, stretch disabled.
pub type EntryKey = (Vec<u8>, Vec<u8>, u32, u32, Vec<u8>, bool);

/// The view of an `EntryKey`.
pub type KeyView = (Seq<u8>, Seq<u8>, u32, u32, Seq<u8>, bool);

/// The map of contexts.
pub type ContextLru = lru::LruCache<EntryKey, StabilizationContext>;

/// `lru::LruCache`, held opaquely; its contents are named by `lru_entries`.
#[verifier::external_type_specification]
#[verifier::external_body]
#[verifier::reject_recursive_types(K)]
#[verifier::reject_recursive_types(V)]
#[verifier::reject_recursive_types(S)]
pub struct ExLruCache<K, V, S>(lru::LruCache<K, V, S>);

/// The hasher type that `lru::LruCache` uses by default, held opaquely.
#[verifier::external_type_specification]
#[verifier::external_body]
pub struct ExLruHasher(lru::DefaultHasher);

/// The entries of the map, from the least recently used to the most recently used.
pub uninterp spec fn lru_entries(c: ContextLru) -> Seq<(KeyView, StabilizationContext)>;

/// The capacity that the map was made with.
pub uninterp spec fn lru_capacity(c: ContextLru) -> nat;

/// Relies on `lru::LruCache::new`: an empty map that holds at most `capacity` entries.
#[verifier::external_body]
pub(crate) fn lru_new(capacity: usize) -> (r: ContextLru)
    requires
        capacity > 0,
    ensures
        lru_entries(r) == Seq::<(KeyView, StabilizationContext)>::empty(),
        lru_capacity(r) == capacity,
{
    lru::LruCache::new(std::num::NonZeroUsize::new(capacity).unwrap())
}

/// Relies on `lru::LruCache::pop`: removes the entry of `key`, if any, and
/// returns its value; the other entries keep their order.
#[verifier::external_body]
pub(crate) fn lru_pop(c: &mut ContextLru, key: &EntryKey) -> (r: Option<StabilizationContext>)
    ensures
        lru_capacity(*final(c)) == lru_capacity(*old(c)),
        match r {
            Some(v) => exists|i: int|
                0 <= i < lru_entries(*old(c)).len()
                && #[trigger] lru_entries(*old(c))[i] == (key@, v)
                && lru_entries(*final(c)) == lru_entries(*old(c)).remove(i),
            None => lru_entries(*final(c)) == lru_entries(*old(c))
                && forall|i: int| 0 <= i < lru_entries(*old(c)).len()
                    ==> (#[trigger] lru_entries(*old(c))[i]).0 != key@,
        },
{
    c.pop(key)
}

/// Relies on `lru::LruCache::push` for a key that the map does not hold: the
/// entry becomes the most recently used; when the map is full, the least
/// recently used entry is removed first and returned.
#[verifier::external_body]
pub(crate) fn lru_push(c: &mut ContextLru, key: EntryKey, value: StabilizationContext) -> (r: Option<(EntryKey, StabilizationContext)>)
    requires
        forall|i: int| 0 <= i < lru_entries(*old(c)).len()
            ==> (#[trigger] lru_entries(*old(c))[i]).0 != key@,
    ensures
        lru_capacity(*final(c)) == lru_capacity(*old(c)),
        lru_entries(*old(c)).len() == lru_capacity(*old(c)) ==> {
            &&& lru_entries(*final(c)) == lru_entries(*old(c)).drop_first().push((key@, value))
            &&& r matches Some(p)
            &&& p.0@ == lru_entries(*old(c))[0].0
            &&& p.1 == lru_entries(*old(c))[0].1
        },
        lru_entries(*old(c)).len() != lru_capacity(*old(c)) ==> {
            &&& lru_entries(*final(c)) == lru_entries(*old(c)).push((key@, value))
            &&& r is None
        },
{
    c.push(key, value)
}

/// Relies on `lru::LruCache::clear`: removes every entry.
#[verifier::external_body]
pub(crate) fn lru_clear(c: &mut ContextLru)
    ensures
        lru_entries(*final(c)) == Seq::<(KeyView, StabilizationContext)>::empty(),
        lru_capacity(*final(c)) == lru_capacity(*old(c)),
{
    c.clear()
}

/// Relies on `lru::LruCache::len`: the number of entries.
#[verifier::external_body]
pub(crate) fn lru_len(c: &ContextLru) -> (r: usize)
    ensures
        r == lru_entries(*c).len(),
{
    c.len()
}

} // verus!
