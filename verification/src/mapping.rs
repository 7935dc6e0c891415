//! A sparse mapping from keys to amounts.

use crate::uint::U256;
use vstd::prelude::*;

verus! {

/// What a mapping holds for a key: the stored amount, or zero where the key
/// has no entry.
pub open spec fn value_at<K>(m: Map<K, nat>, k: K) -> nat {
    if m.dom().contains(k) {
        m[k]
    } else {
        0
    }
}

/// A value that can key a [`Mapping`]: two keys can be compared at run time,
/// and the comparison agrees with `==` in contracts.
pub trait Key: Sized {
    fn same(&self, other: &Self) -> (r: bool)
        ensures
            r == (*self == *other),
    ;
}

struct Entry<K> {
    key: K,
    value: U256,
}

spec fn keys_of<K>(entries: Seq<Entry<K>>) -> Seq<K> {
    entries.map_values(|e: Entry<K>| e.key)
}

spec fn model_of<K>(entries: Seq<Entry<K>>) -> Map<K, nat> {
    Map::new(
        |k: K| keys_of(entries).contains(k),
        |k: K| entries[keys_of(entries).index_of(k)].value@,
    )
}

proof fn lemma_model_at<K>(entries: Seq<Entry<K>>, i: int)
    requires
        keys_of(entries).no_duplicates(),
        0 <= i < entries.len(),
    ensures
        model_of(entries).dom().contains(entries[i].key),
        model_of(entries)[entries[i].key] == entries[i].value@,
{
    let ks = keys_of(entries);
    assert(ks[i] == entries[i].key);
    // The index that `index_of` picks holds the key; the keys being distinct,
    // it is `i`.
    let j = ks.index_of(ks[i]);
    assert(0 <= j < ks.len() && ks[j] == ks[i]);
}

proof fn lemma_model_update<K>(entries: Seq<Entry<K>>, i: int, e: Entry<K>)
    requires
        keys_of(entries).no_duplicates(),
        0 <= i < entries.len(),
        e.key == entries[i].key,
    ensures
        keys_of(entries.update(i, e)) == keys_of(entries),
        model_of(entries.update(i, e)) == model_of(entries).insert(e.key, e.value@),
{
    let after = entries.update(i, e);
    assert(keys_of(after) =~= keys_of(entries));
    assert forall|k: K| keys_of(after).contains(k) implies #[trigger] model_of(after)[k]
        == model_of(entries).insert(e.key, e.value@)[k] by {
        let j = keys_of(after).index_of(k);
        assert(0 <= j < after.len() && keys_of(after)[j] == k);
        lemma_model_at(after, j);
        if j != i {
            assert(keys_of(entries)[j] != keys_of(entries)[i]);
            lemma_model_at(entries, j);
        }
    }
    lemma_model_at(entries, i);
    assert(model_of(after) =~= model_of(entries).insert(e.key, e.value@));
}

proof fn lemma_model_push<K>(entries: Seq<Entry<K>>, e: Entry<K>)
    requires
        keys_of(entries).no_duplicates(),
        !keys_of(entries).contains(e.key),
    ensures
        keys_of(entries.push(e)).no_duplicates(),
        model_of(entries.push(e)) == model_of(entries).insert(e.key, e.value@),
{
    let after = entries.push(e);
    assert(keys_of(after) =~= keys_of(entries).push(e.key));
    assert forall|k: K| keys_of(after).contains(k) implies #[trigger] model_of(after)[k]
        == model_of(entries).insert(e.key, e.value@)[k] by {
        let j = keys_of(after).index_of(k);
        assert(0 <= j < after.len() && keys_of(after)[j] == k);
        lemma_model_at(after, j);
        if j < entries.len() {
            assert(keys_of(entries)[j] == k);
            lemma_model_at(entries, j);
        }
    }
    assert forall|k: K| keys_of(entries).contains(k) implies keys_of(after).contains(k) by {
        let j = keys_of(entries).index_of(k);
        assert(keys_of(after)[j] == k);
    }
    assert(keys_of(after)[entries.len() as int] == e.key);
    assert(model_of(after) =~= model_of(entries).insert(e.key, e.value@));
}

/// A mapping from keys to amounts in which every key reads as zero until a
/// value is stored for it. Reading never creates an entry, so the mapping grows
/// with the keys that were written, not with those that were asked for.
///
/// The entries lie in one vector, each key once; a lookup walks them.
pub struct Mapping<K: Key> {
    entries: Vec<Entry<K>>,
}

impl<K: Key> View for Mapping<K> {
    type V = Map<K, nat>;

    /// The entries that have been stored, each key with its amount.
    closed spec fn view(&self) -> Map<K, nat> {
        model_of(self.entries@)
    }
}

impl<K: Key> Mapping<K> {
    #[verifier::type_invariant]
    spec fn keys_are_distinct(self) -> bool {
        keys_of(self.entries@).no_duplicates()
    }

    /// Only finitely many keys have an entry, and every stored amount fits in
    /// 256 bits.
    pub proof fn lemma_view_is_finite_and_bounded(&self)
        ensures
            self@.dom().finite(),
            forall|k: K| self@.dom().contains(k) ==> #[trigger] self@[k] <= U256::max_value(),
    {
        let ks = keys_of(self.entries@);
        vstd::seq_lib::seq_to_set_is_finite(ks);
        assert(self@.dom() =~= ks.to_set());
        assert forall|k: K| self@.dom().contains(k) implies #[trigger] self@[k]
            <= U256::max_value() by {
            self.entries@[ks.index_of(k)].value.lemma_bounded();
        }
    }

    pub fn new() -> (r: Self)
        ensures
            r@ == Map::<K, nat>::empty(),
    {
        Mapping { entries: Vec::new() }
    }

    fn position(&self, key: &K) -> (r: Option<usize>)
        ensures
            match r {
                Some(i) => i < self.entries@.len() && self.entries@[i as int].key == *key,
                None => !keys_of(self.entries@).contains(*key),
            },
    {
        let mut i: usize = 0;
        while i < self.entries.len()
            invariant
                i <= self.entries@.len(),
                forall|j: int| 0 <= j < i ==> keys_of(self.entries@)[j] != *key,
            decreases self.entries@.len() - i,
        {
            if self.entries[i].key.same(key) {
                return Some(i);
            }
            i += 1;
        }
        None
    }

    /// The amount stored for `key`, zero where none was stored.
    pub fn get(&self, key: &K) -> (r: U256)
        ensures
            r@ == value_at(self@, *key),
    {
        proof {
            use_type_invariant(self);
        }
        match self.position(key) {
            Some(i) => {
                proof {
                    lemma_model_at(self.entries@, i as int);
                }
                self.entries[i].value
            },
            None => U256::zero(),
        }
    }

    /// Whether a value has been stored for `key`.
    pub fn contains(&self, key: &K) -> (r: bool)
        ensures
            r == self@.dom().contains(*key),
    {
        proof {
            use_type_invariant(self);
        }
        match self.position(key) {
            Some(i) => {
                proof {
                    lemma_model_at(self.entries@, i as int);
                }
                true
            },
            None => false,
        }
    }

    /// Replaces the amount stored for `key` and says whether there was one to
    /// replace. A key without an entry gets none.
    pub fn update(&mut self, key: &K, value: U256) -> (r: bool)
        ensures
            r == old(self)@.dom().contains(*key),
            final(self)@ == if r {
                old(self)@.insert(*key, value@)
            } else {
                old(self)@
            },
    {
        proof {
            use_type_invariant(&*self);
        }
        match self.position(key) {
            Some(i) => {
                let mut entries: Vec<Entry<K>> = Vec::new();
                std::mem::swap(&mut entries, &mut self.entries);
                proof {
                    lemma_model_at(entries@, i as int);
                    lemma_model_update(
                        entries@,
                        i as int,
                        Entry { key: entries@[i as int].key, value },
                    );
                }
                entries[i].value = value;
                assert(entries@ =~= old(self).entries@.update(
                    i as int,
                    Entry { key: old(self).entries@[i as int].key, value },
                ));
                self.entries = entries;
                true
            },
            None => false,
        }
    }

    /// Stores `value` for `key`, in place of what was stored for it before.
    pub fn set(&mut self, key: K, value: U256)
        ensures
            final(self)@ == old(self)@.insert(key, value@),
    {
        if !self.update(&key, value) {
            proof {
                use_type_invariant(&*self);
            }
            let mut entries: Vec<Entry<K>> = Vec::new();
            std::mem::swap(&mut entries, &mut self.entries);
            let entry = Entry { key, value };
            proof {
                lemma_model_push(entries@, entry);
            }
            entries.push(entry);
            self.entries = entries;
        }
    }
}

} // verus!
