//! The sum of the values of a finite map.

use vstd::prelude::*;
use crate::arith::Balance;

verus! {

/// The sum of the values of a finite map.
pub open spec fn sum_of<K>(m: Map<K, Balance>) -> nat
    decreases m.dom().len(),
    when m.dom().finite()
{
    if m.dom().len() == 0 {
        0
    } else {
        let k = m.dom().choose();
        m[k] as nat + sum_of(m.remove(k))
    }
}

/// The value that the map holds for `k`, zero where it holds none.
pub open spec fn value_or_zero<K>(m: Map<K, Balance>, k: K) -> Balance {
    if m.dom().contains(k) {
        m[k]
    } else {
        0
    }
}

/// The empty map sums to zero.
pub proof fn lemma_sum_empty<K>()
    ensures
        sum_of(Map::<K, Balance>::empty()) == 0,
{
}

/// Any one entry can be taken out of the sum.
pub proof fn lemma_sum_remove<K>(m: Map<K, Balance>, k: K)
    requires
        m.dom().finite(),
        m.dom().contains(k),
    ensures
        sum_of(m) == m[k] + sum_of(m.remove(k)),
    decreases m.dom().len(),
{
    let c = m.dom().choose();
    if c != k {
        lemma_sum_remove(m.remove(c), k);
        lemma_sum_remove(m.remove(k), c);
        assert(m.remove(c).remove(k) =~= m.remove(k).remove(c));
    }
}

/// Binding a key changes the sum by the difference between the new value and the old one.
pub proof fn lemma_sum_insert<K>(m: Map<K, Balance>, k: K, v: Balance)
    requires
        m.dom().finite(),
    ensures
        sum_of(m.insert(k, v)) == sum_of(m) - value_or_zero(m, k) + v,
{
    lemma_sum_remove(m.insert(k, v), k);
    if m.dom().contains(k) {
        lemma_sum_remove(m, k);
        assert(m.insert(k, v).remove(k) =~= m.remove(k));
    } else {
        assert(m.insert(k, v).remove(k) =~= m);
    }
}

/// No value exceeds the sum.
pub proof fn lemma_sum_bounds_value<K>(m: Map<K, Balance>, k: K)
    requires
        m.dom().finite(),
    ensures
        value_or_zero(m, k) <= sum_of(m),
{
    if m.dom().contains(k) {
        lemma_sum_remove(m, k);
    }
}

/// No two values together exceed the sum.
pub proof fn lemma_sum_bounds_pair<K>(m: Map<K, Balance>, a: K, b: K)
    requires
        m.dom().finite(),
        a != b,
    ensures
        value_or_zero(m, a) + value_or_zero(m, b) <= sum_of(m),
{
    if m.dom().contains(a) {
        lemma_sum_remove(m, a);
        lemma_sum_bounds_value(m.remove(a), b);
    } else {
        lemma_sum_bounds_value(m, b);
    }
}

} // verus!
