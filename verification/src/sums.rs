//! Sums over the values of finite maps.
use vstd::prelude::*;

verus! {

/// The sum of a map's values.
pub open spec fn total_of<K>(m: Map<K, u128>) -> int
    decreases m.dom().len(),
    when m.dom().finite()
{
    if m.dom().len() == 0 {
        0
    } else {
        let k = m.dom().choose();
        m[k] + total_of(m.remove(k))
    }
}

/// Any key can be split off first.
pub proof fn lemma_total_remove<K>(m: Map<K, u128>, k: K)
    requires
        m.dom().finite(),
        m.contains_key(k),
    ensures
        total_of(m) == m[k] + total_of(m.remove(k)),
    decreases m.dom().len(),
{
    let c = m.dom().choose();
    assert(m.dom().len() > 0) by {
        if m.dom().len() == 0 {
            assert(m.dom() =~= Set::empty());
        }
    }
    assert(m.dom().contains(c));
    if c != k {
        assert(m.remove(c).remove(k) =~= m.remove(k).remove(c));
        lemma_total_remove(m.remove(c), k);
        lemma_total_remove(m.remove(k), c);
    }
}

/// A sum of unsigned integers is not negative.
pub proof fn lemma_total_nonnegative<K>(m: Map<K, u128>)
    requires
        m.dom().finite(),
    ensures
        total_of(m) >= 0,
    decreases m.dom().len(),
{
    if m.dom().len() != 0 {
        let c = m.dom().choose();
        assert(m.dom().contains(c));
        lemma_total_nonnegative(m.remove(c));
    }
}

/// Writing a value changes the sum by what it differs from the old one.
pub proof fn lemma_total_insert<K>(m: Map<K, u128>, k: K, v: u128)
    requires
        m.dom().finite(),
    ensures
        total_of(m.insert(k, v)) == total_of(m) + v - (if m.contains_key(k) {
            m[k] as int
        } else {
            0
        }),
{
    lemma_total_remove(m.insert(k, v), k);
    if m.contains_key(k) {
        lemma_total_remove(m, k);
        assert(m.insert(k, v).remove(k) =~= m.remove(k));
    } else {
        assert(m.insert(k, v).remove(k) =~= m);
    }
}

/// No value exceeds the sum.
pub proof fn lemma_value_within_total<K>(m: Map<K, u128>, k: K)
    requires
        m.dom().finite(),
        m.contains_key(k),
    ensures
        m[k] <= total_of(m),
{
    lemma_total_remove(m, k);
    lemma_total_nonnegative(m.remove(k));
}

/// An empty map sums to nothing.
pub proof fn lemma_total_empty<K>()
    ensures
        total_of(Map::<K, u128>::empty()) == 0,
{
    assert(Map::<K, u128>::empty().dom() =~= Set::empty());
}

} // verus!
