//! A string-keyed association list with a `Map` view.
//!
//! The run table, the idempotency store, the installation resolver and the
//! relay-state maps all need a small in-memory map with fully specified
//! lookup and insert; this list keeps its keys distinct and relates every
//! operation to `Map<Seq<char>, V>`.

use vstd::prelude::*;

verus! {

/// An association list from `String` keys to values of type `V`,
/// with pairwise-distinct keys.
#[derive(Debug)]
pub struct KvList<V> {
    pub pairs: Vec<(String, V)>,
}

/// The map denoted by a sequence of key-value pairs; later pairs win,
/// though a well-formed list never repeats a key.
pub open spec fn map_of<V>(pairs: Seq<(String, V)>) -> Map<Seq<char>, V>
    decreases pairs.len(),
{
    if pairs.len() == 0 {
        Map::empty()
    } else {
        map_of(pairs.drop_last()).insert(pairs.last().0@, pairs.last().1)
    }
}

pub proof fn lemma_map_of_contains<V>(pairs: Seq<(String, V)>, k: Seq<char>)
    ensures
        map_of(pairs).contains_key(k) <==> exists|i: int| 0 <= i < pairs.len() && pairs[i].0@ == k,
    decreases pairs.len(),
{
    if pairs.len() > 0 {
        lemma_map_of_contains(pairs.drop_last(), k);
        if map_of(pairs).contains_key(k) {
            if pairs.last().0@ != k {
                let i = choose|i: int| 0 <= i < pairs.drop_last().len() && pairs.drop_last()[i].0@ == k;
                assert(pairs[i].0@ == k);
            } else {
                assert(pairs[pairs.len() - 1].0@ == k);
            }
        }
        if exists|i: int| 0 <= i < pairs.len() && pairs[i].0@ == k {
            let i = choose|i: int| 0 <= i < pairs.len() && pairs[i].0@ == k;
            if i < pairs.len() - 1 {
                assert(pairs.drop_last()[i].0@ == k);
            }
        }
    }
}

/// In a list with distinct keys, the map agrees with any entry.
pub proof fn lemma_map_of_index<V>(pairs: Seq<(String, V)>, i: int)
    requires
        0 <= i < pairs.len(),
        forall|p: int, q: int| 0 <= p < q < pairs.len() ==> (#[trigger] pairs[p]).0@ != (#[trigger] pairs[q]).0@,
    ensures
        map_of(pairs).contains_key(pairs[i].0@),
        map_of(pairs)[pairs[i].0@] == pairs[i].1,
    decreases pairs.len(),
{
    if i == pairs.len() - 1 {
    } else {
        lemma_map_of_index(pairs.drop_last(), i);
        assert(pairs.drop_last()[i] == pairs[i]);
        assert(pairs.last().0@ != pairs[i].0@);
    }
}

impl<V> KvList<V> {
    /// Keys are pairwise distinct.
    pub open spec fn wf(&self) -> bool {
        forall|p: int, q: int|
            0 <= p < q < self.pairs@.len() ==> (#[trigger] self.pairs@[p]).0@ != (#[trigger] self.pairs@[q]).0@
    }

    /// The map this list denotes.
    pub open spec fn as_map(&self) -> Map<Seq<char>, V> {
        map_of(self.pairs@)
    }

    pub fn new() -> (r: Self)
        ensures
            r.wf(),
            r.as_map() == Map::<Seq<char>, V>::empty(),
            r.pairs@.len() == 0,
    {
        KvList { pairs: Vec::new() }
    }

    /// The index of the entry holding `key`, if any.
    fn find(&self, key: &str) -> (r: Option<usize>)
        ensures
            match r {
                Some(i) => i < self.pairs@.len() && self.pairs@[i as int].0@ == key@,
                None => forall|i: int| 0 <= i < self.pairs@.len() ==> (#[trigger] self.pairs@[i]).0@ != key@,
            },
    {
        let n = self.pairs.len();
        let mut i: usize = 0;
        while i < n
            invariant
                0 <= i <= n,
                n == self.pairs@.len(),
                forall|j: int| 0 <= j < i ==> (#[trigger] self.pairs@[j]).0@ != key@,
            decreases n - i,
        {
            if crate::strutil::str_eq(self.pairs[i].0.as_str(), key) {
                return Some(i);
            }
            i += 1;
        }
        None
    }

    /// Looks `key` up.
    pub fn get(&self, key: &str) -> (r: Option<&V>)
        requires
            self.wf(),
        ensures
            match r {
                Some(v) => self.as_map().contains_key(key@) && self.as_map()[key@] == *v,
                None => !self.as_map().contains_key(key@),
            },
    {
        proof {
            lemma_map_of_contains(self.pairs@, key@);
        }
        match self.find(key) {
            Some(i) => {
                proof {
                    lemma_map_of_index(self.pairs@, i as int);
                }
                Some(&self.pairs[i].1)
            },
            None => None,
        }
    }

    /// Whether `key` is present.
    pub fn contains_key(&self, key: &str) -> (r: bool)
        requires
            self.wf(),
        ensures
            r == self.as_map().contains_key(key@),
    {
        self.get(key).is_some()
    }

    /// Takes the value under `key` out, if any.
    pub fn remove(&mut self, key: &str) -> (r: Option<V>)
        requires
            old(self).wf(),
        ensures
            final (self).wf(),
            match r {
                Some(v) => old(self).as_map().contains_key(key@) && v == old(self).as_map()[key@]
                    && final (self).as_map() == old(self).as_map().remove(key@),
                None => !old(self).as_map().contains_key(key@) && *final (self) == *old(self),
            },
    {
        proof {
            lemma_map_of_contains(self.pairs@, key@);
        }
        match self.find(key) {
            Some(i) => {
                proof {
                    lemma_map_of_index(self.pairs@, i as int);
                }
                let ghost old_pairs = self.pairs@;
                let entry = self.pairs.remove(i);
                proof {
                    assert forall|p: int, q: int|
                        0 <= p < q < self.pairs@.len() implies (#[trigger] self.pairs@[p]).0@
                        != (#[trigger] self.pairs@[q]).0@ by {
                        let p0 = if p < i { p } else { p + 1 };
                        let q0 = if q < i { q } else { q + 1 };
                        assert(old_pairs[p0].0@ != old_pairs[q0].0@);
                    }
                    lemma_remove_at(old_pairs, self.pairs@, i as int, key@);
                }
                Some(entry.1)
            },
            None => None,
        }
    }

    /// Inserts or replaces the value under `key`.
    pub fn insert(&mut self, key: String, value: V)
        requires
            old(self).wf(),
        ensures
            final(self).wf(),
            final(self).as_map() == old(self).as_map().insert(key@, value),
    {
        proof {
            lemma_map_of_contains(self.pairs@, key@);
        }
        match self.find(key.as_str()) {
            Some(i) => {
                let ghost old_pairs = self.pairs@;
                self.pairs[i] = (key, value);
                proof {
                    assert forall|p: int, q: int|
                        0 <= p < q < self.pairs@.len() implies (#[trigger] self.pairs@[p]).0@
                        != (#[trigger] self.pairs@[q]).0@ by {
                        assert(old_pairs[p].0@ != old_pairs[q].0@);
                    }
                    lemma_replace_at(old_pairs, self.pairs@, i as int, key@, value);
                }
            },
            None => {
                let ghost old_pairs = self.pairs@;
                self.pairs.push((key, value));
                proof {
                    assert(self.pairs@.drop_last() =~= old_pairs);
                }
            },
        }
    }
}

/// Removing the entry that holds a key yields the removed map, when keys
/// are distinct.
proof fn lemma_remove_at<V>(
    old_pairs: Seq<(String, V)>,
    new_pairs: Seq<(String, V)>,
    i: int,
    k: Seq<char>,
)
    requires
        0 <= i < old_pairs.len(),
        new_pairs =~= old_pairs.remove(i),
        old_pairs[i].0@ == k,
        forall|p: int, q: int| 0 <= p < q < old_pairs.len() ==> (#[trigger] old_pairs[p]).0@ != (#[trigger] old_pairs[q]).0@,
    ensures
        map_of(new_pairs) == map_of(old_pairs).remove(k),
    decreases old_pairs.len(),
{
    lemma_map_of_contains(old_pairs.drop_last(), k);
    if i == old_pairs.len() - 1 {
        assert(new_pairs =~= old_pairs.drop_last());
        assert(!map_of(old_pairs.drop_last()).contains_key(k));
        assert(map_of(old_pairs) == map_of(old_pairs.drop_last()).insert(k, old_pairs[i].1));
        assert(map_of(old_pairs).remove(k) =~= map_of(old_pairs.drop_last()));
    } else {
        assert(new_pairs.drop_last() =~= old_pairs.drop_last().remove(i));
        lemma_remove_at(old_pairs.drop_last(), new_pairs.drop_last(), i, k);
        assert(new_pairs.last() == old_pairs.last());
        assert(old_pairs.last().0@ != k);
        assert(map_of(new_pairs) == map_of(old_pairs.drop_last()).remove(k).insert(
            old_pairs.last().0@,
            old_pairs.last().1,
        ));
        assert(map_of(old_pairs.drop_last()).remove(k).insert(
            old_pairs.last().0@,
            old_pairs.last().1,
        ) =~= map_of(old_pairs.drop_last()).insert(
            old_pairs.last().0@,
            old_pairs.last().1,
        ).remove(k));
    }
}

/// Replacing the entry that holds a key yields the inserted map, when keys
/// are distinct.
proof fn lemma_replace_at<V>(
    old_pairs: Seq<(String, V)>,
    new_pairs: Seq<(String, V)>,
    i: int,
    k: Seq<char>,
    v: V,
)
    requires
        0 <= i < old_pairs.len(),
        new_pairs.len() == old_pairs.len(),
        old_pairs[i].0@ == k,
        new_pairs[i].0@ == k,
        new_pairs[i].1 == v,
        forall|j: int| 0 <= j < old_pairs.len() && j != i ==> new_pairs[j] == old_pairs[j],
        forall|p: int, q: int| 0 <= p < q < old_pairs.len() ==> (#[trigger] old_pairs[p]).0@ != (#[trigger] old_pairs[q]).0@,
    ensures
        map_of(new_pairs) == map_of(old_pairs).insert(k, v),
    decreases old_pairs.len(),
{
    if i == old_pairs.len() - 1 {
        assert(new_pairs.drop_last() =~= old_pairs.drop_last());
    } else {
        lemma_replace_at(old_pairs.drop_last(), new_pairs.drop_last(), i, k, v);
        assert(old_pairs.last().0@ != k);
        assert(new_pairs.last() == old_pairs.last());
        assert(map_of(new_pairs) == map_of(old_pairs.drop_last()).insert(k, v).insert(
            old_pairs.last().0@,
            old_pairs.last().1,
        ));
        assert(map_of(old_pairs.drop_last()).insert(k, v).insert(
            old_pairs.last().0@,
            old_pairs.last().1,
        ) =~= map_of(old_pairs.drop_last()).insert(old_pairs.last().0@, old_pairs.last().1).insert(
            k,
            v,
        ));
    }
}

} // verus!
