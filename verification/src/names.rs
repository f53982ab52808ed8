//! A set of names (units, machines, bus names): the allowlists, blocklists
//! and service lists of the configuration.
use vstd::prelude::*;

use crate::text::str_eq;

verus! {

/// A finite set of names, kept in the order they were first added.
#[derive(Debug)]
pub struct NameSet {
    names: Vec<String>,
}

impl View for NameSet {
    type V = Set<Seq<char>>;

    closed spec fn view(&self) -> Set<Seq<char>> {
        Set::new(|s: Seq<char>| exists|i: int| 0 <= i < self.names.len() && #[trigger] self.names[i]@ == s)
    }
}

impl NameSet {
    /// The empty set.
    pub fn new() -> (r: Self)
        ensures
            r@ == Set::<Seq<char>>::empty(),
    {
        let r = NameSet { names: Vec::new() };
        assert(r@ =~= Set::<Seq<char>>::empty());
        r
    }

    /// Whether `name` is in the set.
    pub fn contains(&self, name: &str) -> (r: bool)
        ensures
            r == self@.contains(name@),
    {
        let mut i: usize = 0;
        while i < self.names.len()
            invariant
                i <= self.names.len(),
                forall|j: int| 0 <= j < i ==> self.names[j]@ != name@,
            decreases self.names.len() - i,
        {
            if str_eq(self.names[i].as_str(), name) {
                assert(self.names[i as int]@ == name@);
                return true;
            }
            i = i + 1;
        }
        false
    }

    /// Add `name`; nothing changes when it is there already.
    pub fn insert(&mut self, name: String)
        ensures
            final(self)@ == old(self)@.insert(name@),
    {
        if !self.contains(name.as_str()) {
            let ghost old_names = self.names@;
            self.names.push(name);
            proof {
                let n = self.names@;
                assert forall|s: Seq<char>| #[trigger] self@.contains(s) == old(self)@.insert(name@).contains(s) by {
                    if self@.contains(s) {
                        let i = choose|i: int| 0 <= i < n.len() && #[trigger] n[i]@ == s;
                        if i < old_names.len() {
                            assert(old_names[i] == n[i]);
                        }
                    }
                    if old(self)@.contains(s) {
                        let i = choose|i: int| 0 <= i < old_names.len() && #[trigger] old_names[i]@ == s;
                        assert(n[i] == old_names[i]);
                    }
                    if s == name@ {
                        assert(n[old_names.len() as int]@ == s);
                    }
                }
                assert(self@ =~= old(self)@.insert(name@));
            }
        }
    }

    /// Whether the set has no names.
    pub fn is_empty(&self) -> (r: bool)
        ensures
            r == (self@ == Set::<Seq<char>>::empty()),
    {
        if self.names.len() == 0 {
            assert(self@ =~= Set::<Seq<char>>::empty());
            true
        } else {
            assert(self@.contains(self.names[0]@));
            false
        }
    }

    /// The set of the names in `v`.
    pub fn from_names(v: Vec<String>) -> (r: Self)
        ensures
            forall|s: Seq<char>| #[trigger] r@.contains(s) <==> exists|i: int| 0 <= i < v.len() && #[trigger] v[i]@ == s,
    {
        let mut r = NameSet::new();
        let mut i: usize = 0;
        while i < v.len()
            invariant
                i <= v.len(),
                forall|s: Seq<char>| #[trigger] r@.contains(s) <==> exists|j: int| 0 <= j < i && #[trigger] v[j]@ == s,
            decreases v.len() - i,
        {
            let name = v[i].clone();
            r.insert(name);
            proof {
                assert forall|s: Seq<char>| #[trigger] r@.contains(s) <==> exists|j: int| 0 <= j < i + 1 && #[trigger] v[j]@ == s by {
                    if s == v[i as int]@ {
                        assert(v[i as int]@ == s);
                    }
                    if exists|j: int| 0 <= j < i + 1 && #[trigger] v[j]@ == s {
                        let j = choose|j: int| 0 <= j < i + 1 && #[trigger] v[j]@ == s;
                        if j < i {
                            assert(exists|j: int| 0 <= j < i && #[trigger] v[j]@ == s);
                        }
                    }
                }
            }
            i = i + 1;
        }
        r
    }

    /// The names, each once, in the order they were first added.
    pub fn to_vec(&self) -> (r: Vec<String>)
        ensures
            forall|s: Seq<char>| #[trigger] self@.contains(s) <==> exists|i: int| 0 <= i < r.len() && #[trigger] r[i]@ == s,
    {
        let mut r: Vec<String> = Vec::new();
        let mut i: usize = 0;
        while i < self.names.len()
            invariant
                i <= self.names.len(),
                r.len() == i,
                forall|j: int| 0 <= j < i ==> #[trigger] r[j]@ == self.names[j]@,
            decreases self.names.len() - i,
        {
            r.push(self.names[i].clone());
            i = i + 1;
        }
        proof {
            assert forall|s: Seq<char>| #[trigger] self@.contains(s) <==> exists|i: int| 0 <= i < r.len() && #[trigger] r[i]@ == s by {
                if self@.contains(s) {
                    let k = choose|k: int| 0 <= k < self.names.len() && #[trigger] self.names[k]@ == s;
                    assert(r[k]@ == s);
                }
                if exists|i: int| 0 <= i < r.len() && #[trigger] r[i]@ == s {
                    let k = choose|k: int| 0 <= k < r.len() && #[trigger] r[k]@ == s;
                    assert(self.names[k]@ == s);
                }
            }
        }
        r
    }

    /// Whether every name of `self` is in `other`.
    fn subset_of(&self, other: &NameSet) -> (r: bool)
        ensures
            r == self@.subset_of(other@),
    {
        let mut i: usize = 0;
        while i < self.names.len()
            invariant
                i <= self.names.len(),
                forall|j: int| 0 <= j < i ==> other@.contains(#[trigger] self.names[j]@),
            decreases self.names.len() - i,
        {
            if !other.contains(self.names[i].as_str()) {
                assert(self@.contains(self.names[i as int]@));
                return false;
            }
            i = i + 1;
        }
        assert forall|s: Seq<char>| self@.contains(s) implies other@.contains(s) by {
            let k = choose|k: int| 0 <= k < self.names.len() && #[trigger] self.names[k]@ == s;
            assert(other@.contains(self.names[k]@));
        }
        true
    }
}

impl Clone for NameSet {
    fn clone(&self) -> (r: Self)
        ensures
            r@ == self@,
    {
        let v = self.to_vec();
        let r = NameSet { names: v };
        assert(r@ =~= self@);
        r
    }
}

impl PartialEq for NameSet {
    fn eq(&self, other: &Self) -> (r: bool) {
        let r = self.subset_of(other) && other.subset_of(self);
        proof {
            if r {
                assert(self@ =~= other@);
            }
        }
        r
    }
}

impl vstd::std_specs::cmp::PartialEqSpecImpl for NameSet {
    open spec fn obeys_eq_spec() -> bool {
        true
    }

    open spec fn eq_spec(&self, other: &NameSet) -> bool {
        self@ == other@
    }
}

impl Eq for NameSet {
}

} // verus!
