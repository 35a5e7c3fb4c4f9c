//! A map from strings to values that is walked in key order.
use crate::text::{lemma_text_lt_asymmetric, lemma_text_lt_total, lemma_text_lt_transitive, precedes, same_text};
use vstd::prelude::*;

verus! {

/// A map keyed by strings. The entries are held in ascending key order, so a walk
/// over them is deterministic.
#[derive(Debug, PartialEq, Eq)]
pub struct TextMap<V> {
    entries: Vec<(String, V)>,
}

/// The keys of a sequence of entries.
pub open spec fn entry_keys<V>(s: Seq<(String, V)>) -> Seq<Seq<char>> {
    Seq::new(s.len(), |i: int| s[i].0@)
}

/// Whether every key precedes all later ones; in particular none occurs twice.
pub open spec fn ascending(keys: Seq<Seq<char>>) -> bool {
    forall|i: int, j: int|
        0 <= i < j < keys.len() ==> crate::text::text_lt(#[trigger] keys[i], #[trigger] keys[j])
}

/// The map that ascending entries stand for.
pub open spec fn entry_map<V>(s: Seq<(String, V)>) -> Map<Seq<char>, V> {
    Map::new(
        |k: Seq<char>| entry_keys(s).contains(k),
        |k: Seq<char>| s[entry_keys(s).index_of(k)].1,
    )
}

proof fn lemma_ascending_distinct(keys: Seq<Seq<char>>)
    requires
        ascending(keys),
    ensures
        keys.no_duplicates(),
{
    assert forall|i: int, j: int| 0 <= i < keys.len() && 0 <= j < keys.len() && i != j implies keys[i] != keys[j] by {
        if i < j {
            lemma_text_lt_asymmetric(keys[i], keys[j]);
        } else {
            lemma_text_lt_asymmetric(keys[j], keys[i]);
        }
    }
}

/// In ascending entries each key maps to the value beside it.
pub proof fn lemma_entry_at<V>(s: Seq<(String, V)>, i: int)
    requires
        ascending(entry_keys(s)),
        0 <= i < s.len(),
    ensures
        entry_map(s).dom().contains(s[i].0@),
        entry_map(s)[s[i].0@] == s[i].1,
{
    let keys = entry_keys(s);
    lemma_ascending_distinct(keys);
    assert(keys[i] == s[i].0@);
    assert(keys.contains(s[i].0@));
    let j = keys.index_of(s[i].0@);
    assert(keys[j] == keys[i]);
}

/// Whether the entries are in ascending key order and `map` has exactly their keys, each with
/// the value beside it.
pub open spec fn lists<V>(s: Seq<(String, V)>, map: Map<Seq<char>, V>) -> bool {
    &&& ascending(entry_keys(s))
    &&& forall|k: Seq<char>| map.dom().contains(k) <==> #[trigger] entry_keys(s).contains(k)
    &&& forall|i: int|
        0 <= i < s.len() ==> map.dom().contains((#[trigger] s[i]).0@) && map[s[i].0@] == s[i].1
}

/// Ascending entries with `value` put under `key`, in place of an earlier entry or between its
/// neighbors.
pub open spec fn with_entry<V>(s: Seq<(String, V)>, key: String, value: V) -> Seq<(String, V)>
    decreases s.len(),
{
    if s.len() == 0 || crate::text::text_lt(s.last().0@, key@) {
        s.push((key, value))
    } else if s.last().0@ == key@ {
        s.drop_last().push((key, value))
    } else {
        with_entry(s.drop_last(), key, value).push(s.last())
    }
}

/// Ascending entries list the map they stand for.
proof fn lemma_lists<V>(s: Seq<(String, V)>)
    requires
        ascending(entry_keys(s)),
    ensures
        lists(s, entry_map(s)),
{
    assert forall|i: int| 0 <= i < s.len() implies entry_map(s).dom().contains(
        (#[trigger] s[i]).0@,
    ) && entry_map(s)[s[i].0@] == s[i].1 by {
        lemma_entry_at(s, i);
    }
}

/// There are as many ascending entries as keys in the map they stand for.
proof fn lemma_listed_count<V>(s: Seq<(String, V)>)
    requires
        ascending(entry_keys(s)),
    ensures
        entry_map(s).dom().finite(),
        entry_map(s).dom().len() == s.len(),
{
    let keys = entry_keys(s);
    lemma_ascending_distinct(keys);
    keys.unique_seq_to_set();
    vstd::seq_lib::seq_to_set_is_finite(keys);
    assert(entry_map(s).dom() =~= keys.to_set());
}

/// Where every key before `at` precedes `key` and the one there does not, `key` belongs at `at`.
proof fn lemma_with_entry<V>(s: Seq<(String, V)>, key: String, value: V, at: int)
    requires
        ascending(entry_keys(s)),
        0 <= at <= s.len(),
        forall|j: int| 0 <= j < at ==> crate::text::text_lt(#[trigger] entry_keys(s)[j], key@),
        at < s.len() ==> !crate::text::text_lt(entry_keys(s)[at], key@),
    ensures
        with_entry(s, key, value) == if at < s.len() && s[at].0@ == key@ {
            s.update(at, (key, value))
        } else {
            s.insert(at, (key, value))
        },
    decreases s.len(),
{
    let keys = entry_keys(s);
    if at == s.len() {
        if s.len() > 0 {
            assert(keys[s.len() - 1] == s.last().0@);
        }
        assert(with_entry(s, key, value) =~= s.insert(at, (key, value)));
    } else {
        let front = s.drop_last();
        let last = s.len() - 1;
        assert(keys[last] == s.last().0@);
        assert(keys[at] == s[at].0@);
        assert(entry_keys(front) =~= keys.drop_last());
        assert(ascending(entry_keys(front)));
        lemma_text_lt_total(key@, keys[at]);
        if at < last {
            assert(crate::text::text_lt(keys[at], keys[last]));
            if key@ != keys[at] {
                lemma_text_lt_transitive(key@, keys[at], keys[last]);
            }
            lemma_text_lt_asymmetric(key@, keys[last]);
            assert(entry_keys(front)[at] == keys[at]);
            lemma_with_entry(front, key, value, at);
            if s[at].0@ == key@ {
                assert(front.update(at, (key, value)).push(s.last()) =~= s.update(
                    at,
                    (key, value),
                ));
            } else {
                assert(front.insert(at, (key, value)).push(s.last()) =~= s.insert(
                    at,
                    (key, value),
                ));
            }
        } else if s.last().0@ == key@ {
            assert(front.push((key, value)) =~= s.update(at, (key, value)));
        } else {
            lemma_with_entry(front, key, value, at);
            assert(front.insert(at, (key, value)).push(s.last()) =~= s.insert(at, (key, value)));
        }
    }
}

impl<V> TextMap<V> {
    #[verifier::type_invariant]
    spec fn inv(self) -> bool {
        ascending(entry_keys(self.entries@))
    }

    /// The entries in ascending key order.
    pub closed spec fn listed(self) -> Seq<(String, V)> {
        self.entries@
    }

    /// The keys of the map are the listed ones.
    pub proof fn lemma_dom(&self)
        ensures
            forall|k: Seq<char>|
                self@.dom().contains(k) <==> #[trigger] entry_keys(self.listed()).contains(k),
    {
    }

    pub fn new() -> (r: Self)
        ensures
            r@ == Map::<Seq<char>, V>::empty(),
            r.listed() == Seq::<(String, V)>::empty(),
            lists(r.listed(), r@),
    {
        let r = TextMap { entries: Vec::new() };
        proof {
            assert(r@ =~= Map::<Seq<char>, V>::empty());
            lemma_lists(r.entries@);
        }
        r
    }

    /// The number of keys.
    pub fn len(&self) -> (r: usize)
        ensures
            r == self.listed().len(),
            self@.dom().finite(),
            r == self@.dom().len(),
    {
        proof {
            use_type_invariant(self);
            lemma_listed_count(self.entries@);
        }
        self.entries.len()
    }

    /// The entries in ascending key order.
    pub fn entries(&self) -> (r: &Vec<(String, V)>)
        ensures
            r@ == self.listed(),
            lists(r@, self@),
    {
        proof {
            use_type_invariant(self);
            lemma_lists(self.entries@);
        }
        &self.entries
    }

    /// The place of the first key that does not precede `key`.
    fn lower_bound(entries: &Vec<(String, V)>, key: &str) -> (at: usize)
        requires
            ascending(entry_keys(entries@)),
        ensures
            at <= entries@.len(),
            forall|j: int| 0 <= j < at ==> crate::text::text_lt(#[trigger] entry_keys(entries@)[j], key@),
            at < entries@.len() ==> !crate::text::text_lt(entry_keys(entries@)[at as int], key@),
    {
        let mut at: usize = 0;
        while at < entries.len() && precedes(&entries[at].0, key)
            invariant
                at <= entries@.len(),
                forall|j: int| 0 <= j < at ==> crate::text::text_lt(#[trigger] entry_keys(entries@)[j], key@),
            decreases entries@.len() - at,
        {
            at = at + 1;
        }
        at
    }

    /// The value under `key`, if there is one.
    pub fn get(&self, key: &str) -> (r: Option<&V>)
        ensures
            r is Some <==> self@.dom().contains(key@),
            r matches Some(v) ==> *v == self@[key@],
    {
        proof {
            use_type_invariant(self);
        }
        let at: usize = Self::lower_bound(&self.entries, key);
        let ghost keys = entry_keys(self.entries@);
        if at < self.entries.len() && same_text(&self.entries[at].0, key) {
            proof {
                lemma_entry_at(self.entries@, at as int);
            }
            Some(&self.entries[at].1)
        } else {
            proof {
                if keys.contains(key@) {
                    let j = choose|j: int| 0 <= j < keys.len() && keys[j] == key@;
                    if j < at {
                        lemma_text_lt_asymmetric(keys[j], key@);
                    } else if j > at {
                        assert(crate::text::text_lt(keys[at as int], keys[j]));
                    }
                }
            }
            None
        }
    }

    pub fn contains_key(&self, key: &str) -> (r: bool)
        ensures
            r == self@.dom().contains(key@),
    {
        self.get(key).is_some()
    }

    /// Puts `value` under `key`, in place of an earlier value.
    pub fn insert(&mut self, key: String, value: V)
        ensures
            final(self)@ == old(self)@.insert(key@, value),
            final(self).listed() == with_entry(old(self).listed(), key, value),
            lists(final(self).listed(), final(self)@),
    {
        proof {
            use_type_invariant(&*self);
        }
        let mut entries: Vec<(String, V)> = Vec::new();
        std::mem::swap(&mut entries, &mut self.entries);
        let ghost before = entries@;
        let ghost keys = entry_keys(before);
        let at: usize = Self::lower_bound(&entries, &key);
        proof {
            lemma_with_entry(before, key, value, at as int);
        }
        if at < entries.len() && same_text(&entries[at].0, &key) {
            entries.set(at, (key, value));
            proof {
                lemma_ascending_distinct(keys);
                assert(entry_keys(entries@) =~= keys);
                assert forall|k: Seq<char>| #[trigger] keys.contains(k) implies entry_map(entries@)[k]
                    == entry_map(before).insert(key@, value)[k] by {
                    let j = keys.index_of(k);
                    assert(keys[at as int] == key@);
                }
                assert(entry_map(entries@) =~= entry_map(before).insert(key@, value));
            }
        } else {
            entries.insert(at, (key, value));
            proof {
                let after = entries@;
                let ks = entry_keys(after);
                assert(ks =~= keys.insert(at as int, key@));
                if at < keys.len() {
                    lemma_text_lt_total(key@, keys[at as int]);
                }
                assert forall|i: int, j: int| 0 <= i < j < ks.len() implies crate::text::text_lt(
                    #[trigger] ks[i],
                    #[trigger] ks[j],
                ) by {
                    if i < at && j < at {
                        assert(crate::text::text_lt(keys[i], keys[j]));
                    } else if i < at && j == at {
                        assert(crate::text::text_lt(keys[i], key@));
                    } else if i < at {
                        assert(crate::text::text_lt(keys[i], keys[j - 1]));
                    } else if i == at {
                        if j - 1 > at {
                            assert(crate::text::text_lt(keys[at as int], keys[j - 1]));
                            lemma_text_lt_transitive(key@, keys[at as int], keys[j - 1]);
                        }
                    } else {
                        assert(crate::text::text_lt(keys[i - 1], keys[j - 1]));
                    }
                }
                lemma_ascending_distinct(keys);
                lemma_ascending_distinct(ks);
                assert(ks[at as int] == key@);
                assert forall|k: Seq<char>| #[trigger] ks.contains(k) <==> keys.contains(k) || k == key@ by {
                    if ks.contains(k) {
                        let i = ks.index_of(k);
                        if i < at {
                            assert(keys[i] == k);
                        } else if i > at {
                            assert(keys[i - 1] == k);
                        }
                    }
                    if keys.contains(k) {
                        let i = keys.index_of(k);
                        if i < at {
                            assert(ks[i] == k);
                        } else {
                            assert(ks[i + 1] == k);
                        }
                    }
                }
                assert(!keys.contains(key@)) by {
                    if keys.contains(key@) {
                        let j = keys.index_of(key@);
                        if j < at {
                            assert(ks[j] == key@);
                        } else {
                            assert(ks[j + 1] == key@);
                        }
                    }
                }
                assert forall|k: Seq<char>| #[trigger] ks.contains(k) implies entry_map(after)[k]
                    == entry_map(before).insert(key@, value)[k] by {
                    let i = ks.index_of(k);
                    if k != key@ {
                        let j = keys.index_of(k);
                        if j < at {
                            assert(ks[j] == k);
                        } else {
                            assert(ks[j + 1] == k);
                        }
                    }
                }
                assert(entry_map(after) =~= entry_map(before).insert(key@, value));
            }
        }
        proof {
            lemma_lists(entries@);
        }
        self.entries = entries;
    }
}

impl<V: Clone> Clone for TextMap<V> {
    fn clone(&self) -> (r: Self)
        ensures
            r.listed().len() == self.listed().len(),
            forall|i: int|
                0 <= i < self.listed().len() ==> (#[trigger] r.listed()[i]).0 == self.listed()[i].0
                    && cloned::<V>(self.listed()[i].1, r.listed()[i].1),
            r.listed() =~= self.listed() ==> r@ == self@,
            lists(r.listed(), r@),
    {
        proof {
            use_type_invariant(self);
        }
        let mut entries: Vec<(String, V)> = Vec::new();
        let mut i: usize = 0;
        while i < self.entries.len()
            invariant
                i <= self.entries@.len(),
                entries@.len() == i,
                forall|j: int|
                    0 <= j < i ==> (#[trigger] entries@[j]).0 == self.entries@[j].0 && cloned::<V>(
                        self.entries@[j].1,
                        entries@[j].1,
                    ),
            decreases self.entries@.len() - i,
        {
            entries.push((self.entries[i].0.clone(), self.entries[i].1.clone()));
            i = i + 1;
        }
        proof {
            assert(entry_keys(entries@) =~= entry_keys(self.entries@));
            lemma_lists(entries@);
        }
        TextMap { entries }
    }
}

impl<V> View for TextMap<V> {
    type V = Map<Seq<char>, V>;

    closed spec fn view(&self) -> Map<Seq<char>, V> {
        entry_map(self.entries@)
    }
}

} // verus!
