//! The sum of the amounts that a mapping holds.

use crate::mapping::value_at;
use vstd::prelude::*;

verus! {

/// The sum of all amounts stored in a mapping with finitely many entries.
pub open spec fn sum_of<K>(m: Map<K, nat>) -> nat
    decreases m.dom().len(),
    when m.dom().finite()
{
    if m.dom().is_empty() {
        0
    } else {
        let k = m.dom().choose();
        m[k] + sum_of(m.remove(k))
    }
}

/// The sum can be split at any entry: that entry's amount plus the sum of the
/// others.
pub proof fn lemma_sum_of_remove<K>(m: Map<K, nat>, k: K)
    requires
        m.dom().finite(),
        m.dom().contains(k),
    ensures
        sum_of(m) == m[k] + sum_of(m.remove(k)),
    decreases m.dom().len(),
{
    let c = m.dom().choose();
    if c != k {
        lemma_sum_of_remove(m.remove(c), k);
        lemma_sum_of_remove(m.remove(k), c);
        assert(m.remove(c).remove(k) =~= m.remove(k).remove(c));
    }
}

/// Storing `v` for `k` changes the sum by the difference between `v` and what
/// `k` held before.
pub proof fn lemma_sum_of_insert<K>(m: Map<K, nat>, k: K, v: nat)
    requires
        m.dom().finite(),
    ensures
        sum_of(m.insert(k, v)) + value_at(m, k) == sum_of(m) + v,
{
    let after = m.insert(k, v);
    lemma_sum_of_remove(after, k);
    if m.dom().contains(k) {
        lemma_sum_of_remove(m, k);
        assert(after.remove(k) =~= m.remove(k));
    } else {
        assert(after.remove(k) =~= m);
    }
}

/// No entry holds more than the sum of all entries.
pub proof fn lemma_value_le_sum<K>(m: Map<K, nat>, k: K)
    requires
        m.dom().finite(),
    ensures
        value_at(m, k) <= sum_of(m),
{
    if m.dom().contains(k) {
        lemma_sum_of_remove(m, k);
    }
}

/// Two different entries together hold no more than the sum of all entries.
pub proof fn lemma_two_values_le_sum<K>(m: Map<K, nat>, a: K, b: K)
    requires
        m.dom().finite(),
        a != b,
    ensures
        value_at(m, a) + value_at(m, b) <= sum_of(m),
{
    if m.dom().contains(a) {
        lemma_sum_of_remove(m, a);
        lemma_value_le_sum(m.remove(a), b);
    } else {
        lemma_value_le_sum(m, b);
    }
}

} // verus!
