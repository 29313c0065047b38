//! An insertion-ordered table keyed by strings.
//!
//! The table holds each key at most once. Walking it visits the entries in
//! the order in which their keys were first inserted, so everything derived
//! from a walk is a function of the table alone.
//!
//! A std `HashMap` keyed by `String` does not serve here: the order of its
//! walk differs from process to process, and what vstd specifies of it gives
//! a proof nothing to hold on to for string keys, not even that a key is
//! there after it was inserted.

use vstd::prelude::*;
use vstd::string::*;

verus! {

/// One key with its value.
#[derive(Debug, Clone, PartialEq)]
pub struct Entry<V> {
    pub key: String,
    pub value: V,
}

/// Entries with pairwise distinct keys, oldest first.
#[derive(Debug, Clone, PartialEq)]
pub struct Table<V> {
    pub entries: Vec<Entry<V>>,
}

/// No key occurs twice among `pairs`.
pub open spec fn distinct_keys<W>(pairs: Seq<(Seq<char>, W)>) -> bool {
    forall|i: int, j: int|
        0 <= i < pairs.len() && 0 <= j < pairs.len() && i != j ==> pairs[i].0 != pairs[j].0
}

/// Whether `key` occurs among `pairs`.
pub open spec fn has_key<W>(pairs: Seq<(Seq<char>, W)>, key: Seq<char>) -> bool {
    exists|i: int| 0 <= i < pairs.len() && pairs[i].0 == key
}

/// A position at which `key` occurs among `pairs`; the only one where the
/// keys are distinct. Meaningful only if the key occurs.
pub open spec fn key_index<W>(pairs: Seq<(Seq<char>, W)>, key: Seq<char>) -> int {
    choose|i: int| 0 <= i < pairs.len() && pairs[i].0 == key
}

/// The value of `key` among `pairs`, if the key occurs.
pub open spec fn spec_get<W>(pairs: Seq<(Seq<char>, W)>, key: Seq<char>) -> Option<W> {
    if has_key(pairs, key) {
        Some(pairs[key_index(pairs, key)].1)
    } else {
        None
    }
}

/// The pairs after `key` is set to `value`: a key that occurs keeps its
/// place and gets the new value, a new key goes last.
pub open spec fn spec_put<W>(pairs: Seq<(Seq<char>, W)>, key: Seq<char>, value: W) -> Seq<
    (Seq<char>, W),
> {
    if has_key(pairs, key) {
        pairs.update(key_index(pairs, key), (key, value))
    } else {
        pairs.push((key, value))
    }
}

/// Where the keys are distinct, a key's position is the one at which it is
/// found.
pub proof fn lemma_key_index<W>(pairs: Seq<(Seq<char>, W)>, key: Seq<char>, i: int)
    requires
        distinct_keys(pairs),
        0 <= i < pairs.len(),
        pairs[i].0 == key,
    ensures
        has_key(pairs, key),
        key_index(pairs, key) == i,
{
}

/// Setting a key keeps the keys distinct.
pub proof fn lemma_put_distinct<W>(pairs: Seq<(Seq<char>, W)>, key: Seq<char>, value: W)
    requires
        distinct_keys(pairs),
    ensures
        distinct_keys(spec_put(pairs, key, value)),
        has_key(spec_put(pairs, key, value), key),
        spec_get(spec_put(pairs, key, value), key) == Some(value),
{
    let after = spec_put(pairs, key, value);
    if has_key(pairs, key) {
        let i = key_index(pairs, key);
        assert(after[i].0 == key);
        assert forall|a: int, b: int|
            0 <= a < after.len() && 0 <= b < after.len() && a != b implies after[a].0
            != after[b].0 by {
            assert(after[a].0 == pairs[a].0);
            assert(after[b].0 == pairs[b].0);
        }
        lemma_key_index(after, key, i);
    } else {
        let i = pairs.len() as int;
        assert(after[i].0 == key);
        assert forall|a: int, b: int|
            0 <= a < after.len() && 0 <= b < after.len() && a != b implies after[a].0
            != after[b].0 by {
            if a < i {
                assert(after[a] == pairs[a]);
            }
            if b < i {
                assert(after[b] == pairs[b]);
            }
        }
        lemma_key_index(after, key, i);
    }
}

impl<V: DeepView> Table<V> {
    /// The keys with the values they stand for, oldest first.
    pub open spec fn pairs(&self) -> Seq<(Seq<char>, V::V)> {
        Seq::new(
            self.entries@.len(),
            |i: int| (self.entries@[i].key@, self.entries@[i].value.deep_view()),
        )
    }

    /// No key occurs twice.
    pub open spec fn wf(&self) -> bool {
        distinct_keys(self.pairs())
    }

    /// An empty table.
    pub fn new() -> (r: Self)
        ensures
            r.pairs() == Seq::<(Seq<char>, V::V)>::empty(),
            r.wf(),
    {
        let r = Table { entries: Vec::new() };
        assert(r.pairs() =~= Seq::<(Seq<char>, V::V)>::empty());
        r
    }

    /// The number of entries.
    pub fn len(&self) -> (r: usize)
        ensures
            r == self.entries@.len(),
            r == self.pairs().len(),
    {
        self.entries.len()
    }

    /// Whether no key occurs twice.
    pub fn is_wf(&self) -> (r: bool)
        ensures
            r == self.wf(),
    {
        let mut i: usize = 0;
        while i < self.entries.len()
            invariant
                i <= self.entries@.len(),
                forall|a: int, b: int|
                    0 <= a < i && 0 <= b < self.entries@.len() && a != b ==> self.pairs()[a].0
                        != self.pairs()[b].0,
            decreases self.entries@.len() - i,
        {
            let mut j: usize = 0;
            while j < self.entries.len()
                invariant
                    i < self.entries@.len(),
                    j <= self.entries@.len(),
                    forall|b: int|
                        0 <= b < j && i != b ==> self.pairs()[i as int].0 != self.pairs()[b].0,
                decreases self.entries@.len() - j,
            {
                if i != j && self.entries[i].key == self.entries[j].key {
                    assert(self.pairs()[i as int].0 == self.pairs()[j as int].0);
                    return false;
                }
                j = j + 1;
            }
            i = i + 1;
        }
        true
    }

    /// The first position of `key`, if it is in the table.
    pub fn find(&self, key: &str) -> (r: Option<usize>)
        ensures
            r is Some <==> has_key(self.pairs(), key@),
            r matches Some(i) ==> i < self.entries@.len() && self.pairs()[i as int].0 == key@
                && forall|j: int| 0 <= j < i ==> self.pairs()[j].0 != key@,
            self.wf() && r is Some ==> key_index(self.pairs(), key@) == r->0,
    {
        let wanted = key.to_owned();
        let mut i: usize = 0;
        while i < self.entries.len()
            invariant
                i <= self.entries@.len(),
                wanted@ == key@,
                forall|j: int| 0 <= j < i ==> self.pairs()[j].0 != key@,
            decreases self.entries@.len() - i,
        {
            if self.entries[i].key == wanted {
                assert(self.pairs()[i as int].0 == key@);
                proof {
                    if self.wf() {
                        lemma_key_index(self.pairs(), key@, i as int);
                    }
                }
                return Some(i);
            }
            i = i + 1;
        }
        None
    }

    /// The key at position `i`.
    pub fn key_at(&self, i: usize) -> (r: &String)
        requires
            i < self.entries@.len(),
        ensures
            *r == self.entries@[i as int].key,
            r@ == self.pairs()[i as int].0,
    {
        &self.entries[i].key
    }

    /// The value at position `i`.
    pub fn value_at(&self, i: usize) -> (r: &V)
        requires
            i < self.entries@.len(),
        ensures
            *r == self.entries@[i as int].value,
            r.deep_view() == self.pairs()[i as int].1,
    {
        &self.entries[i].value
    }

    /// Puts `value` at position `i` and hands back what was there. The key
    /// stays.
    pub fn replace(&mut self, i: usize, value: V) -> (r: V)
        requires
            i < old(self).entries@.len(),
        ensures
            r == old(self).entries@[i as int].value,
            final(self).entries@.len() == old(self).entries@.len(),
            final(self).pairs() == old(self).pairs().update(
                i as int,
                (old(self).pairs()[i as int].0, value.deep_view()),
            ),
            old(self).wf() ==> final(self).wf(),
    {
        let key = self.entries[i].key.clone();
        self.entries.push(Entry { key, value });
        let previous = self.entries.swap_remove(i);
        assert(self.pairs() =~= old(self).pairs().update(
            i as int,
            (old(self).pairs()[i as int].0, value.deep_view()),
        ));
        assert(old(self).wf() ==> self.wf()) by {
            if old(self).wf() {
                assert forall|a: int, b: int|
                    0 <= a < self.pairs().len() && 0 <= b < self.pairs().len() && a
                        != b implies self.pairs()[a].0 != self.pairs()[b].0 by {
                    assert(self.pairs()[a].0 == old(self).pairs()[a].0);
                    assert(self.pairs()[b].0 == old(self).pairs()[b].0);
                }
            }
        }
        previous.value
    }

    /// Sets `key` to `value`. A key that is in the table keeps its place and
    /// loses its old value; a new key goes last.
    pub fn put(&mut self, key: String, value: V)
        requires
            old(self).wf(),
        ensures
            final(self).wf(),
            final(self).pairs() == spec_put(old(self).pairs(), key@, value.deep_view()),
    {
        proof {
            lemma_put_distinct(self.pairs(), key@, value.deep_view());
        }
        match self.find(key.as_str()) {
            Some(i) => {
                let _ = self.replace(i, value);
            },
            None => {
                self.entries.push(Entry { key, value });
                assert(self.pairs() =~= old(self).pairs().push((key@, value.deep_view())));
            },
        }
    }

    /// Empties the table and hands back its entries, oldest first.
    pub fn take_all(&mut self) -> (r: Vec<Entry<V>>)
        ensures
            r@ == old(self).entries@,
            final(self).pairs() == Seq::<(Seq<char>, V::V)>::empty(),
            final(self).wf(),
    {
        let mut taken: Vec<Entry<V>> = Vec::new();
        std::mem::swap(&mut self.entries, &mut taken);
        assert(self.pairs() =~= Seq::<(Seq<char>, V::V)>::empty());
        taken
    }
}

} // verus!
