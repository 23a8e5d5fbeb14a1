//! A small insertion-ordered map from strings to values, the library's
//! replacement for `HashMap<String, V>`.

use vstd::prelude::*;
use crate::text::str_eq;

verus! {

/// The keys of a list of entries, in order.
pub open spec fn keys_of<V>(entries: Seq<(String, V)>) -> Seq<Seq<char>> {
    entries.map_values(|e: (String, V)| e.0@)
}

/// The map that a list of entries describes (a later entry wins over an
/// earlier one with the same key).
pub open spec fn entries_map<V>(entries: Seq<(String, V)>) -> Map<Seq<char>, V>
    decreases entries.len(),
{
    if entries.len() == 0 {
        Map::empty()
    } else {
        entries_map(entries.drop_last()).insert(entries.last().0@, entries.last().1)
    }
}

/// A key is in the map exactly when some entry carries it.
pub proof fn lemma_entries_map_domain<V>(entries: Seq<(String, V)>, k: Seq<char>)
    ensures
        entries_map(entries).contains_key(k) <==> keys_of(entries).contains(k),
    decreases entries.len(),
{
    if entries.len() > 0 {
        lemma_entries_map_domain(entries.drop_last(), k);
        let ks = keys_of(entries);
        assert(keys_of(entries.drop_last()) =~= ks.drop_last());
        if ks.contains(k) && k != entries.last().0@ {
            let j = choose|j: int| 0 <= j < ks.len() && ks[j] == k;
            assert(j < ks.len() - 1);
            assert(ks.drop_last()[j] == k);
        }
        if ks.drop_last().contains(k) {
            let j = choose|j: int| 0 <= j < ks.drop_last().len() && ks.drop_last()[j] == k;
            assert(ks[j] == k);
        }
        assert(ks[ks.len() - 1] == entries.last().0@);
    }
}

/// With distinct keys, the entry at `i` gives the map's value for its key.
pub proof fn lemma_entries_map_at<V>(entries: Seq<(String, V)>, i: int)
    requires
        keys_of(entries).no_duplicates(),
        0 <= i < entries.len(),
    ensures
        entries_map(entries).contains_key(entries[i].0@),
        entries_map(entries)[entries[i].0@] == entries[i].1,
    decreases entries.len(),
{
    let ks = keys_of(entries);
    if i < entries.len() - 1 {
        let d = entries.drop_last();
        assert(keys_of(d) =~= ks.drop_last());
        assert(ks[i] != ks[ks.len() - 1]);
        lemma_entries_map_at(d, i);
    }
}

/// Replacing the value of the entry at `i`, key unchanged, updates the map at that key.
pub proof fn lemma_entries_map_update<V>(entries: Seq<(String, V)>, i: int, e: (String, V))
    requires
        keys_of(entries).no_duplicates(),
        0 <= i < entries.len(),
        e.0@ == entries[i].0@,
    ensures
        entries_map(entries.update(i, e)) == entries_map(entries).insert(e.0@, e.1),
    decreases entries.len(),
{
    let u = entries.update(i, e);
    let ks = keys_of(entries);
    if i == entries.len() - 1 {
        assert(u.drop_last() =~= entries.drop_last());
        assert(entries_map(entries).insert(e.0@, e.1) =~= entries_map(entries.drop_last()).insert(
            e.0@,
            e.1,
        ));
    } else {
        let d = entries.drop_last();
        assert(keys_of(d) =~= ks.drop_last());
        assert(u.drop_last() =~= d.update(i, e));
        lemma_entries_map_update(d, i, e);
        assert(ks[i] != ks[ks.len() - 1]);
        assert(entries_map(u) =~= entries_map(entries).insert(e.0@, e.1));
    }
}

/// With distinct keys, dropping the first entry removes its key from the map.
pub proof fn lemma_entries_map_drop_first<V>(entries: Seq<(String, V)>)
    requires
        keys_of(entries).no_duplicates(),
        entries.len() > 0,
    ensures
        entries_map(entries.drop_first()) == entries_map(entries).remove(entries[0].0@),
    decreases entries.len(),
{
    let k0 = entries[0].0@;
    if entries.len() == 1 {
        assert(entries.drop_first() =~= Seq::<(String, V)>::empty());
        assert(entries.drop_last() =~= Seq::<(String, V)>::empty());
        assert(entries_map(entries.drop_last()) == Map::<Seq<char>, V>::empty());
        assert(entries.last() == entries[0]);
        assert(entries_map(entries).remove(k0) =~= Map::<Seq<char>, V>::empty());
    } else {
        let d = entries.drop_last();
        let ks = keys_of(entries);
        assert(keys_of(d) =~= ks.drop_last());
        assert(ks[0] != ks[ks.len() - 1]);
        lemma_entries_map_drop_first(d);
        assert(entries.drop_first().drop_last() =~= d.drop_first());
        assert(entries.drop_first().last() == entries.last());
        assert(entries_map(entries.drop_first()) =~= entries_map(entries).remove(k0));
    }
}

/// With distinct keys, removing the entry at `i` removes its key from the map.
pub proof fn lemma_entries_map_remove<V>(entries: Seq<(String, V)>, i: int)
    requires
        keys_of(entries).no_duplicates(),
        0 <= i < entries.len(),
    ensures
        entries_map(entries.remove(i)) == entries_map(entries).remove(entries[i].0@),
    decreases entries.len(),
{
    let ki = entries[i].0@;
    let d = entries.drop_last();
    let ks = keys_of(entries);
    assert(keys_of(d) =~= ks.drop_last());
    if i == entries.len() - 1 {
        assert(entries.remove(i) =~= d);
        lemma_entries_map_domain(d, ki);
        if keys_of(d).contains(ki) {
            let j = choose|j: int| 0 <= j < keys_of(d).len() && keys_of(d)[j] == ki;
            assert(ks[j] == ks[i]);
        }
        assert(entries_map(entries).remove(ki) =~= entries_map(d));
    } else {
        assert(ks[i] != ks[ks.len() - 1]);
        lemma_entries_map_remove(d, i);
        assert(entries.remove(i).drop_last() =~= d.remove(i));
        assert(entries.remove(i).last() == entries.last());
        assert(entries_map(entries.remove(i)) =~= entries_map(entries).remove(ki));
    }
}

/// Map from string keys to values; each key occurs at most once and entries
/// keep the order in which their keys were first inserted.
#[derive(Debug, Clone)]
pub struct StrMap<V> {
    pub entries: Vec<(String, V)>,
}

impl<V> StrMap<V> {
    /// No key occurs twice.
    pub open spec fn wf(&self) -> bool {
        keys_of(self.entries@).no_duplicates()
    }

    /// The contents as a mathematical map.
    pub open spec fn map(&self) -> Map<Seq<char>, V> {
        entries_map(self.entries@)
    }

    /// The keys, in insertion order.
    pub open spec fn keys(&self) -> Seq<Seq<char>> {
        keys_of(self.entries@)
    }

    /// An empty map.
    pub fn new() -> (m: Self)
        ensures
            m.wf(),
            m.entries@.len() == 0,
            m.map() == Map::<Seq<char>, V>::empty(),
    {
        StrMap { entries: Vec::new() }
    }

    /// Number of keys.
    pub fn len(&self) -> (n: usize)
        ensures
            n == self.entries@.len(),
    {
        self.entries.len()
    }

    /// Position of a key among the entries.
    pub fn position(&self, key: &str) -> (r: Option<usize>)
        ensures
            match r {
                Some(i) => i < self.entries@.len() && self.entries@[i as int].0@ == key@,
                None => !keys_of(self.entries@).contains(key@),
            },
    {
        let mut i: usize = 0;
        while i < self.entries.len()
            invariant
                i <= self.entries@.len(),
                forall|j: int| 0 <= j < i ==> self.entries@[j].0@ != key@,
            decreases self.entries@.len() - i,
        {
            if str_eq(self.entries[i].0.as_str(), key) {
                return Some(i);
            }
            i += 1;
        }
        proof {
            let ks = keys_of(self.entries@);
            if ks.contains(key@) {
                let j = choose|j: int| 0 <= j < ks.len() && ks[j] == key@;
                assert(self.entries@[j].0@ == key@);
            }
        }
        None
    }

    /// Whether a key is present.
    pub fn contains_key(&self, key: &str) -> (r: bool)
        ensures
            r == self.map().contains_key(key@),
    {
        proof {
            lemma_entries_map_domain(self.entries@, key@);
        }
        match self.position(key) {
            Some(i) => {
                assert(keys_of(self.entries@)[i as int] == key@);
                true
            },
            None => false,
        }
    }

    /// The value stored for a key.
    pub fn get(&self, key: &str) -> (r: Option<&V>)
        requires
            self.wf(),
        ensures
            match r {
                Some(v) => self.map().contains_key(key@) && *v == self.map()[key@],
                None => !self.map().contains_key(key@),
            },
    {
        proof {
            lemma_entries_map_domain(self.entries@, key@);
        }
        match self.position(key) {
            Some(i) => {
                proof {
                    lemma_entries_map_at(self.entries@, i as int);
                }
                Some(&self.entries[i].1)
            },
            None => None,
        }
    }

    /// Stores a value for a key, replacing an earlier one in place or
    /// appending a new entry.
    pub fn insert(&mut self, key: String, value: V)
        requires
            old(self).wf(),
        ensures
            final(self).wf(),
            final(self).map() == old(self).map().insert(key@, value),
            old(self).map().contains_key(key@) ==> final(self).keys() == old(self).keys(),
            !old(self).map().contains_key(key@) ==> final(self).keys() == old(self).keys().push(
                key@,
            ),
            old(self).map().contains_key(key@) ==> exists|i: int| 0 <= i < old(self).entries@.len()
                && old(self).entries@[i].0@ == key@ && final(self).entries@ == old(self).entries@.update(i, (key, value)),
            !old(self).map().contains_key(key@) ==> final(self).entries@ == old(self).entries@.push((key, value)),
    {
        let ghost old_entries = self.entries@;
        let ghost k = key@;
        proof {
            lemma_entries_map_domain(old_entries, k);
        }
        match self.position(key.as_str()) {
            Some(i) => {
                proof {
                    lemma_entries_map_update(old_entries, i as int, (key, value));
                    assert(keys_of(old_entries)[i as int] == k);
                }
                self.entries.set(i, (key, value));
                assert(keys_of(self.entries@) =~= keys_of(old_entries));
            },
            None => {
                self.entries.push((key, value));
                assert(self.entries@.drop_last() =~= old_entries);
                assert(keys_of(self.entries@) =~= keys_of(old_entries).push(k));
                proof {
                    let ks = keys_of(self.entries@);
                    assert forall|a: int, b: int| 0 <= a < ks.len() && 0 <= b < ks.len() && a != b
                        implies ks[a] != ks[b] by {
                        if b == ks.len() - 1 {
                            assert(keys_of(old_entries)[a] == ks[a]);
                        } else if a == ks.len() - 1 {
                            assert(keys_of(old_entries)[b] == ks[b]);
                        } else {
                            assert(keys_of(old_entries)[a] == ks[a]);
                            assert(keys_of(old_entries)[b] == ks[b]);
                        }
                    }
                }
            },
        }
    }

    /// Removes the entry that was inserted first.
    pub fn remove_first(&mut self)
        requires
            old(self).wf(),
            old(self).entries@.len() > 0,
        ensures
            final(self).wf(),
            final(self).keys() == old(self).keys().drop_first(),
            final(self).map() == old(self).map().remove(old(self).keys()[0]),
    {
        let ghost old_entries = self.entries@;
        proof {
            lemma_entries_map_drop_first(old_entries);
        }
        self.entries.remove(0);
        assert(self.entries@ =~= old_entries.drop_first());
        assert(keys_of(self.entries@) =~= keys_of(old_entries).drop_first());
        proof {
            let ks = keys_of(old_entries);
            assert forall|a: int, b: int| 0 <= a < ks.len() - 1 && 0 <= b < ks.len() - 1 && a != b
                implies ks.drop_first()[a] != ks.drop_first()[b] by {
                assert(ks[a + 1] != ks[b + 1]);
            }
        }
    }


    /// Removes a key; whether it was present.
    pub fn remove(&mut self, key: &str) -> (r: bool)
        requires
            old(self).wf(),
        ensures
            final(self).wf(),
            r == old(self).map().contains_key(key@),
            final(self).map() == old(self).map().remove(key@),
            final(self).keys() == (if r {
                old(self).keys().remove(old(self).keys().index_of(key@))
            } else {
                old(self).keys()
            }),
            r ==> exists|i: int| 0 <= i < old(self).entries@.len() && old(self).entries@[i].0@ == key@
                && final(self).entries@ == old(self).entries@.remove(i),
            !r ==> final(self).entries@ == old(self).entries@,
    {
        let ghost old_entries = self.entries@;
        proof {
            lemma_entries_map_domain(old_entries, key@);
        }
        match self.position(key) {
            Some(i) => {
                proof {
                    lemma_entries_map_remove(old_entries, i as int);
                    let ks = keys_of(old_entries);
                    assert(ks[i as int] == key@);
                    assert(ks.index_of(key@) == i) by {
                        let j = ks.index_of(key@);
                        assert(ks[j] == key@);
                    }
                }
                self.entries.remove(i);
                assert(keys_of(self.entries@) =~= keys_of(old_entries).remove(i as int));
                proof {
                    let ks = keys_of(old_entries);
                    let ns = keys_of(self.entries@);
                    assert forall|a: int, b: int| 0 <= a < ns.len() && 0 <= b < ns.len() && a != b
                        implies ns[a] != ns[b] by {
                        let a2 = if a < i { a } else { a + 1 };
                        let b2 = if b < i { b } else { b + 1 };
                        assert(ns[a] == ks[a2] && ns[b] == ks[b2]);
                    }
                }
                true
            },
            None => {
                assert(old_entries == self.entries@);
                assert(self.map() =~= old(self).map().remove(key@));
                false
            },
        }
    }

}

} // verus!
