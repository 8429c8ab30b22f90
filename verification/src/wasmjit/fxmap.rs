use core::hash::Hash;
use rustc_hash::{FxBuildHasher, FxHashMap, FxHashSet};
use vstd::prelude::*;
use vstd::std_specs::hash::obeys_key_model;

verus! {

/// The Fx hash builder: deterministic, with no state of its own.
#[verifier::external_type_specification]
#[verifier::external_body]
pub struct ExFxBuildHasher(FxBuildHasher);

/// `HashMap::get` on a map with the Fx hasher: the value `k` maps to,
/// if any.
#[verifier::external_body]
pub(crate) fn map_get<'a, K: Eq + Hash, V>(m: &'a FxHashMap<K, V>, k: &K) -> (r: Option<&'a V>)
    requires
        obeys_key_model::<K>(),
    ensures
        match r {
            Some(v) => m@.contains_key(*k) && *v == m@[*k],
            None => !m@.contains_key(*k),
        },
{
    m.get(k)
}

/// `HashMap::insert` on a map with the Fx hasher: afterwards `k` maps to
/// `v`; the value `k` mapped to before, if any, is returned.
#[verifier::external_body]
pub(crate) fn map_insert<K: Eq + Hash, V>(m: &mut FxHashMap<K, V>, k: K, v: V) -> (r: Option<V>)
    requires
        obeys_key_model::<K>(),
    ensures
        final(m)@ == old(m)@.insert(k, v),
        match r {
            Some(x) => old(m)@.contains_key(k) && x == old(m)@[k],
            None => !old(m)@.contains_key(k),
        },
{
    m.insert(k, v)
}

/// `HashMap::remove` on a map with the Fx hasher: `k` leaves the map; its
/// value, if it had one, is returned.
#[verifier::external_body]
pub(crate) fn map_remove<K: Eq + Hash, V>(m: &mut FxHashMap<K, V>, k: &K) -> (r: Option<V>)
    requires
        obeys_key_model::<K>(),
    ensures
        final(m)@ == old(m)@.remove(*k),
        match r {
            Some(x) => old(m)@.contains_key(*k) && x == old(m)@[*k],
            None => !old(m)@.contains_key(*k),
        },
{
    m.remove(k)
}

/// `HashMap::len` on a map with the Fx hasher: the number of keys.
#[verifier::external_body]
pub(crate) fn map_len<K: Eq + Hash, V>(m: &FxHashMap<K, V>) -> (r: usize)
    requires
        obeys_key_model::<K>(),
    ensures
        r == m@.dom().len(),
{
    m.len()
}

/// `HashMap::keys` on a map with the Fx hasher, collected: every key
/// once, in the map's own order, which is left open.
#[verifier::external_body]
pub(crate) fn map_keys<K: Eq + Hash + Copy, V>(m: &FxHashMap<K, V>) -> (r: Vec<K>)
    requires
        obeys_key_model::<K>(),
    ensures
        r@.no_duplicates(),
        forall|k: K| #[trigger] m@.contains_key(k) <==> r@.contains(k),
{
    m.keys().copied().collect()
}

/// `HashSet::insert` on a set with the Fx hasher: afterwards `k` is in the
/// set; the result tells whether it was not before.
#[verifier::external_body]
pub(crate) fn set_insert<K: Eq + Hash>(s: &mut FxHashSet<K>, k: K) -> (r: bool)
    requires
        obeys_key_model::<K>(),
    ensures
        final(s)@ == old(s)@.insert(k),
        r == !old(s)@.contains(k),
{
    s.insert(k)
}

/// `HashSet::remove` on a set with the Fx hasher: `k` leaves the set; the
/// result tells whether it was in it.
#[verifier::external_body]
pub(crate) fn set_remove<K: Eq + Hash>(s: &mut FxHashSet<K>, k: &K) -> (r: bool)
    requires
        obeys_key_model::<K>(),
    ensures
        final(s)@ == old(s)@.remove(*k),
        r == old(s)@.contains(*k),
{
    s.remove(k)
}

/// `HashSet::contains` on a set with the Fx hasher.
#[verifier::external_body]
pub(crate) fn set_contains<K: Eq + Hash>(s: &FxHashSet<K>, k: &K) -> (r: bool)
    requires
        obeys_key_model::<K>(),
    ensures
        r == s@.contains(*k),
{
    s.contains(k)
}

/// The first element `HashSet::iter` yields on a set with the Fx hasher:
/// some element of the set, which one is left open; none for an empty set.
#[verifier::external_body]
pub(crate) fn set_first<K: Eq + Hash + Copy>(s: &FxHashSet<K>) -> (r: Option<K>)
    requires
        obeys_key_model::<K>(),
    ensures
        match r {
            Some(k) => s@.contains(k),
            None => s@ == Set::<K>::empty(),
        },
{
    s.iter().next().copied()
}

/// `HashSet::drain` on a set with the Fx hasher, collected: every element
/// once, in an order left open; the set is empty afterwards.
#[verifier::external_body]
pub(crate) fn set_drain<K: Eq + Hash>(s: &mut FxHashSet<K>) -> (r: Vec<K>)
    requires
        obeys_key_model::<K>(),
    ensures
        final(s)@ == Set::<K>::empty(),
        r@.no_duplicates(),
        forall|k: K| #[trigger] old(s)@.contains(k) <==> r@.contains(k),
{
    s.drain().collect()
}

} // verus!
