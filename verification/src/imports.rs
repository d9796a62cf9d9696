//! A set of imported API names, kept without repetition.

use vstd::prelude::*;
use vstd::string::*;

verus! {

/// The names of the APIs that a binary imports, each held once.
#[derive(Debug)]
pub struct ImportSet {
    items: Vec<String>,
}

/// The names held in a sequence of strings.
pub open spec fn names_of(v: Seq<String>) -> Seq<Seq<char>> {
    v.map_values(|s: String| s@)
}

impl View for ImportSet {
    type V = Set<Seq<char>>;

    closed spec fn view(&self) -> Set<Seq<char>> {
        names_of(self.items@).to_set()
    }
}

impl ImportSet {
    #[verifier::type_invariant]
    closed spec fn inv(self) -> bool {
        names_of(self.items@).no_duplicates()
    }

    /// An empty set.
    pub fn new() -> (s: Self)
        ensures
            s@ == Set::<Seq<char>>::empty(),
    {
        let s = ImportSet { items: Vec::new() };
        proof {
            assert(names_of(s.items@) =~= Seq::<Seq<char>>::empty());
        }
        s
    }

    /// Index of the held name equal to `name`, if any.
    fn position(&self, name: &String) -> (r: Option<usize>)
        ensures
            match r {
                Some(i) => i < self.items@.len() && self.items@[i as int]@ == name@,
                None => !names_of(self.items@).contains(name@),
            },
    {
        let n = self.items.len();
        for i in 0..n
            invariant
                n == self.items@.len(),
                forall|k: int| 0 <= k < i ==> self.items@[k]@ != name@,
        {
            if self.items[i] == *name {
                return Some(i);
            }
        }
        proof {
            if names_of(self.items@).contains(name@) {
                let k = choose|k: int|
                    0 <= k < names_of(self.items@).len() && names_of(self.items@)[k] == name@;
                assert(self.items@[k]@ == name@);
            }
        }
        None
    }

    /// Adds `name`; returns whether it was absent before.
    pub fn insert(&mut self, name: String) -> (added: bool)
        ensures
            final(self)@ == old(self)@.insert(name@),
            added == !old(self)@.contains(name@),
    {
        proof {
            use_type_invariant(&*self);
        }
        let found = self.position(&name);
        match found {
            Some(i) => {
                proof {
                    assert(names_of(self.items@)[i as int] == name@);
                    assert(self@.contains(name@));
                    assert(self@.insert(name@) =~= self@);
                }
                false
            },
            None => {
                let ghost old_names = names_of(self.items@);
                let mut items = Vec::new();
                std::mem::swap(&mut items, &mut self.items);
                items.push(name);
                proof {
                    assert(names_of(items@) =~= old_names.push(name@));
                    old_names.lemma_push_to_set_commute(name@);
                }
                self.items = items;
                true
            },
        }
    }

    /// Whether `name` is held.
    pub fn contains(&self, name: &str) -> (r: bool)
        ensures
            r == self@.contains(name@),
    {
        let key = String::from_str(name);
        let found = self.position(&key);
        proof {
            if let Some(i) = found {
                assert(names_of(self.items@)[i as int] == name@);
            }
        }
        found.is_some()
    }

    /// Number of names held.
    pub fn len(&self) -> (n: usize)
        ensures
            n == self@.len(),
    {
        proof {
            use_type_invariant(self);
            names_of(self.items@).unique_seq_to_set();
        }
        self.items.len()
    }

    /// Whether one of the held names is among `wanted`.
    pub fn any_of(&self, wanted: &Vec<String>) -> (r: bool)
        ensures
            r == exists|s: Seq<char>|
                self@.contains(s) && #[trigger] names_of(wanted@).contains(s),
    {
        let n = self.items.len();
        let m = wanted.len();
        for i in 0..n
            invariant
                n == self.items@.len(),
                m == wanted@.len(),
                forall|k: int| 0 <= k < i ==> !names_of(wanted@).contains(#[trigger] names_of(self.items@)[k]),
        {
            for j in 0..m
                invariant
                    n == self.items@.len(),
                    m == wanted@.len(),
                    i < n,
                    forall|t: int| 0 <= t < j ==> wanted@[t]@ != self.items@[i as int]@,
            {
                if self.items[i] == wanted[j] {
                    proof {
                        assert(names_of(wanted@)[j as int] == self.items@[i as int]@);
                        assert(names_of(self.items@)[i as int] == self.items@[i as int]@);
                        assert(names_of(self.items@).contains(self.items@[i as int]@));
                        assert(names_of(wanted@).contains(self.items@[i as int]@));
                        assert(self@.contains(self.items@[i as int]@));
                    }
                    return true;
                }
            }
            proof {
                assert(names_of(self.items@)[i as int] == self.items@[i as int]@);
                if names_of(wanted@).contains(self.items@[i as int]@) {
                    let t = choose|t: int| 0 <= t < names_of(wanted@).len() && names_of(wanted@)[t] == self.items@[i as int]@;
                    assert(wanted@[t]@ == self.items@[i as int]@);
                }
            }
        }
        proof {
            assert forall|s: Seq<char>| self@.contains(s) implies !#[trigger] names_of(wanted@).contains(s) by {
                let k = choose|k: int| 0 <= k < names_of(self.items@).len() && names_of(self.items@)[k] == s;
                assert(!names_of(wanted@).contains(names_of(self.items@)[k]));
            }
        }
        false
    }
}

impl Clone for ImportSet {
    fn clone(&self) -> (r: Self)
        ensures
            r@ == self@,
    {
        proof {
            use_type_invariant(self);
        }
        let items = self.items.clone();
        proof {
            assert forall|i: int| 0 <= i < items@.len() implies items@[i] == self.items@[i] by {
                assert(cloned::<String>(self.items[i], items[i]));
            }
            assert(items@ =~= self.items@);
        }
        ImportSet { items }
    }
}

} // verus!
