//! A map keyed by names (units, machines, bus peers, cgroups) that keeps
//! its entries in insertion order.
use vstd::prelude::*;

use crate::text::str_eq;

verus! {

/// The map that a sequence of `(key, value)` pairs denotes, a later pair
/// overriding an earlier one with the same key.
pub open spec fn seq_to_map<V>(s: Seq<(Seq<char>, V)>) -> Map<Seq<char>, V>
    decreases s.len(),
{
    if s.len() == 0 {
        Map::empty()
    } else {
        seq_to_map(s.drop_last()).insert(s.last().0, s.last().1)
    }
}

/// No key occurs twice.
pub open spec fn keys_distinct<V>(s: Seq<(Seq<char>, V)>) -> bool {
    forall|i: int, j: int| 0 <= i < j < s.len() ==> #[trigger] s[i].0 != #[trigger] s[j].0
}

pub proof fn lemma_seq_to_map<V>(s: Seq<(Seq<char>, V)>)
    ensures
        seq_to_map(s).dom().finite(),
        forall|k: Seq<char>| #[trigger] seq_to_map(s).dom().contains(k) <==> exists|i: int|
            0 <= i < s.len() && #[trigger] s[i].0 == k,
        keys_distinct(s) ==> forall|i: int|
            0 <= i < s.len() ==> #[trigger] seq_to_map(s)[s[i].0] == s[i].1,
        keys_distinct(s) ==> seq_to_map(s).dom().len() == s.len(),
    decreases s.len(),
{
    if s.len() > 0 {
        let p = s.drop_last();
        lemma_seq_to_map(p);
        assert forall|k: Seq<char>| #[trigger] seq_to_map(s).dom().contains(k) <==> exists|i: int|
            0 <= i < s.len() && #[trigger] s[i].0 == k by {
            if exists|i: int| 0 <= i < s.len() && #[trigger] s[i].0 == k {
                let i = choose|i: int| 0 <= i < s.len() && #[trigger] s[i].0 == k;
                if i < s.len() - 1 {
                    assert(p[i].0 == k);
                }
            }
            if seq_to_map(p).dom().contains(k) {
                let i = choose|i: int| 0 <= i < p.len() && #[trigger] p[i].0 == k;
                assert(s[i].0 == k);
            }
        }
        if keys_distinct(s) {
            assert(keys_distinct(p));
            assert forall|i: int| 0 <= i < s.len() implies #[trigger] seq_to_map(s)[s[i].0] == s[i].1 by {
                if i < s.len() - 1 {
                    assert(p[i] == s[i]);
                    assert(s[i].0 != s[s.len() - 1].0);
                }
            }
            assert(!seq_to_map(p).dom().contains(s.last().0)) by {
                if seq_to_map(p).dom().contains(s.last().0) {
                    let i = choose|i: int| 0 <= i < p.len() && #[trigger] p[i].0 == s.last().0;
                    assert(s[i].0 == s[s.len() - 1].0);
                }
            }
        }
    }
}

/// A map from names to values, in insertion order.
#[derive(Debug)]
pub struct StrMap<V> {
    entries: Vec<(String, V)>,
}

impl<V> View for StrMap<V> {
    type V = Map<Seq<char>, V>;

    closed spec fn view(&self) -> Map<Seq<char>, V> {
        seq_to_map(self.entries@.map_values(|e: (String, V)| (e.0@, e.1)))
    }
}

impl<V> StrMap<V> {
    #[verifier::type_invariant]
    spec fn inv(&self) -> bool {
        keys_distinct(self.items())
    }

    /// The entries as `(key, value)` pairs, in insertion order.
    pub closed spec fn items(&self) -> Seq<(Seq<char>, V)> {
        self.entries@.map_values(|e: (String, V)| (e.0@, e.1))
    }

    /// The map is made of its entries.
    pub proof fn lemma_view_items(&self)
        ensures
            self@ == seq_to_map(self.items()),
    {
    }

    /// An empty map.
    pub fn new() -> (r: Self)
        ensures
            r@ == Map::<Seq<char>, V>::empty(),
            r.items().len() == 0,
    {
        let r = StrMap { entries: Vec::new() };
        proof {
            assert(r.items() =~= Seq::<(Seq<char>, V)>::empty());
        }
        r
    }

    /// The number of entries.
    ///
    /// Also states how the entries make up the map, for callers that walk
    /// them by position.
    pub fn len(&self) -> (r: usize)
        ensures
            r == self.items().len(),
            r == self@.dom().len(),
            self@.dom().finite(),
            keys_distinct(self.items()),
            forall|k: Seq<char>| #[trigger] self@.dom().contains(k) <==> exists|i: int|
                0 <= i < self.items().len() && #[trigger] self.items()[i].0 == k,
            forall|i: int| 0 <= i < self.items().len() ==> #[trigger] self@[self.items()[i].0] == self.items()[i].1,
    {
        proof {
            use_type_invariant(self);
            lemma_seq_to_map(self.items());
        }
        self.entries.len()
    }

    /// Whether the map has no entries.
    pub fn is_empty(&self) -> (r: bool)
        ensures
            r == (self.items().len() == 0),
            r == (self@.dom().len() == 0),
    {
        proof {
            use_type_invariant(self);
            lemma_seq_to_map(self.items());
        }
        self.entries.len() == 0
    }

    /// The position of `key` among the entries.
    pub fn position(&self, key: &str) -> (r: Option<usize>)
        ensures
            match r {
                Some(i) => i < self.items().len() && self.items()[i as int].0 == key@,
                None => !self@.dom().contains(key@),
            },
    {
        proof {
            use_type_invariant(self);
            lemma_seq_to_map(self.items());
        }
        let mut i: usize = 0;
        while i < self.entries.len()
            invariant
                i <= self.entries.len(),
                self.items().len() == self.entries.len(),
                forall|j: int| 0 <= j < i ==> #[trigger] self.items()[j].0 != key@,
            decreases self.entries.len() - i,
        {
            if str_eq(self.entries[i].0.as_str(), key) {
                return Some(i);
            }
            i = i + 1;
        }
        None
    }

    /// The value of `key`, if any.
    pub fn get(&self, key: &str) -> (r: Option<&V>)
        ensures
            match r {
                Some(v) => self@.dom().contains(key@) && *v == self@[key@],
                None => !self@.dom().contains(key@),
            },
    {
        proof {
            use_type_invariant(self);
            lemma_seq_to_map(self.items());
        }
        match self.position(key) {
            Some(i) => {
                proof {
                    assert(self.items()[i as int].1 == self.entries@[i as int].1);
                }
                Some(&self.entries[i].1)
            },
            None => None,
        }
    }

    /// Whether `key` has a value.
    pub fn contains_key(&self, key: &str) -> (r: bool)
        ensures
            r == self@.dom().contains(key@),
    {
        proof {
            use_type_invariant(self);
            lemma_seq_to_map(self.items());
        }
        match self.position(key) {
            Some(_) => true,
            None => false,
        }
    }

    /// The entry at position `i`.
    pub fn entry_at(&self, i: usize) -> (r: (&String, &V))
        requires
            i < self.items().len(),
        ensures
            (r.0@, *r.1) == self.items()[i as int],
    {
        let e = &self.entries[i];
        (&e.0, &e.1)
    }

    /// Set the value at position `i`; the keys and their order stay.
    pub fn set_at(&mut self, i: usize, value: V)
        requires
            i < old(self).items().len(),
        ensures
            final(self).items() == old(self).items().update(i as int, (old(self).items()[i as int].0, value)),
            final(self)@ == old(self)@.insert(old(self).items()[i as int].0, value),
    {
        proof {
            use_type_invariant(&*self);
            lemma_seq_to_map(self.items());
        }
        let key = self.entries[i].0.clone();
        let ghost before = self.items();
        let mut entries = Vec::new();
        std::mem::swap(&mut entries, &mut self.entries);
        entries.set(i, (key, value));
        proof {
            let after = entries@.map_values(|e: (String, V)| (e.0@, e.1));
            assert(after =~= before.update(i as int, (before[i as int].0, value)));
            assert(keys_distinct(after));
            lemma_seq_to_map(after);
            assert(seq_to_map(after) =~= seq_to_map(before).insert(before[i as int].0, value)) by {
                assert forall|k: Seq<char>| #[trigger] seq_to_map(after).dom().contains(k) == seq_to_map(before).insert(before[i as int].0, value).dom().contains(k) by {
                    if seq_to_map(before).dom().contains(k) {
                        let j = choose|j: int| 0 <= j < before.len() && #[trigger] before[j].0 == k;
                        assert(after[j].0 == k);
                    }
                    if seq_to_map(after).dom().contains(k) {
                        let j = choose|j: int| 0 <= j < after.len() && #[trigger] after[j].0 == k;
                        assert(before[j].0 == k);
                    }
                }
                assert forall|k: Seq<char>| #[trigger] seq_to_map(after).dom().contains(k) implies seq_to_map(after)[k] == seq_to_map(before).insert(before[i as int].0, value)[k] by {
                    let j = choose|j: int| 0 <= j < after.len() && #[trigger] after[j].0 == k;
                    assert(seq_to_map(after)[after[j].0] == after[j].1);
                    if j != i {
                        assert(before[j] == after[j]);
                        assert(seq_to_map(before)[before[j].0] == before[j].1);
                    }
                }
            }
        }
        self.entries = entries;
    }

    /// Set the value of `key`: an existing entry keeps its position, a new
    /// one goes last.
    pub fn insert(&mut self, key: String, value: V)
        ensures
            final(self)@ == old(self)@.insert(key@, value),
            old(self)@.dom().contains(key@) ==> final(self).items().len() == old(self).items().len(),
            !old(self)@.dom().contains(key@) ==> final(self).items() == old(self).items().push((key@, value)),
    {
        match self.position(key.as_str()) {
            Some(i) => {
                proof {
                    use_type_invariant(&*self);
                    lemma_seq_to_map(self.items());
                    assert(self@.dom().contains(key@));
                }
                self.set_at(i, value);
            },
            None => {
                proof {
                    use_type_invariant(&*self);
                    lemma_seq_to_map(self.items());
                }
                let ghost before = self.items();
                let mut entries = Vec::new();
                std::mem::swap(&mut entries, &mut self.entries);
                entries.push((key, value));
                proof {
                    let after = entries@.map_values(|e: (String, V)| (e.0@, e.1));
                    assert(after =~= before.push((key@, value)));
                    assert(after.drop_last() =~= before);
                    assert forall|a: int, b: int| 0 <= a < b < after.len() implies #[trigger] after[a].0 != #[trigger] after[b].0 by {
                        if b == after.len() - 1 {
                            assert(after[a] == before[a]);
                        }
                    }
                }
                self.entries = entries;
            },
        }
    }
}

} // verus!
