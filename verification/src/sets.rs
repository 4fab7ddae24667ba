//! A small set of strings backed by a vector, specified as a `Set` of the
//! elements' character sequences.  It replaces the hash sets that the
//! selection and filter state would otherwise use, so that membership and
//! mutation carry exact contracts.

use crate::strutil::str_eq;
use vstd::prelude::*;

verus! {

broadcast use vstd::prelude::Seq::lemma_push_to_set_commute;

pub struct StringSet {
    items: Vec<String>,
}

impl View for StringSet {
    type V = Set<Seq<char>>;

    closed spec fn view(&self) -> Set<Seq<char>> {
        self.items.deep_view().to_set()
    }
}

impl StringSet {
    /// The empty set.
    pub fn new() -> (r: StringSet)
        ensures
            r@ == Set::<Seq<char>>::empty(),
    {
        let r = StringSet { items: Vec::new() };
        proof {
            assert(r@ =~= Set::<Seq<char>>::empty());
        }
        r
    }

    /// Membership test.
    pub fn contains(&self, s: &str) -> (r: bool)
        ensures
            r == self@.contains(s@),
    {
        let n = self.items.len();
        let mut i: usize = 0;
        while i < n
            invariant
                n == self.items@.len(),
                i <= n,
                forall|j: int| 0 <= j < i ==> self.items.deep_view()[j] != s@,
            decreases n - i,
        {
            if str_eq(self.items[i].as_str(), s) {
                proof {
                    assert(self.items.deep_view()[i as int] == s@);
                }
                return true;
            }
            i = i + 1;
        }
        proof {
            assert(!self.items.deep_view().contains(s@));
        }
        false
    }

    /// Add one string; no effect when it is already present.
    pub fn insert(&mut self, s: String)
        ensures
            final(self)@ == old(self)@.insert(s@),
    {
        if !self.contains(s.as_str()) {
            let ghost pre = self.items.deep_view();
            self.items.push(s);
            proof {
                assert(self.items.deep_view() =~= pre.push(s@));
                assert(self@ =~= old(self)@.insert(s@));
            }
        } else {
            proof {
                assert(self@ =~= old(self)@.insert(s@));
            }
        }
    }

    /// Take one string out; no effect when it is absent.
    pub fn remove(&mut self, s: &str)
        ensures
            final(self)@ == old(self)@.remove(s@),
    {
        let n = self.items.len();
        let mut kept: Vec<String> = Vec::new();
        let mut i: usize = 0;
        while i < n
            invariant
                n == self.items@.len(),
                i <= n,
                self.items == old(self).items,
                kept.deep_view().to_set() == self.items.deep_view().subrange(
                    0,
                    i as int,
                ).to_set().remove(s@),
            decreases n - i,
        {
            let ghost pre_kept = kept.deep_view();
            let ghost pre_sub = self.items.deep_view().subrange(0, i as int);
            let item = self.items[i].clone();
            proof {
                assert(item@ == self.items.deep_view()[i as int]);
            }
            let is_match = str_eq(item.as_str(), s);
            let ghost e = self.items.deep_view()[i as int];
            if !is_match {
                kept.push(item);
                proof {
                    assert(kept.deep_view() =~= pre_kept.push(e));
                }
            }
            proof {
                assert(self.items.deep_view().subrange(0, i + 1 as int) =~= pre_sub.push(e));
                if is_match {
                    assert(pre_sub.push(e).to_set().remove(s@) =~= pre_sub.to_set().remove(s@));
                } else {
                    assert(pre_sub.push(e).to_set().remove(s@) =~= pre_sub.to_set().remove(
                        s@,
                    ).insert(e));
                }
            }
            i = i + 1;
        }
        proof {
            assert(self.items.deep_view().subrange(0, n as int) =~= self.items.deep_view());
        }
        self.items = kept;
        proof {
            assert(self@ =~= old(self)@.remove(s@));
        }
    }

    /// The elements in their storage order, free of duplicates.
    pub closed spec fn elements(&self) -> Seq<Seq<char>> {
        self.items.deep_view()
    }

    /// The storage order enumerates exactly the set.
    pub proof fn lemma_elements(&self)
        ensures
            self.elements().to_set() == self@,
    {
    }

    /// The backing vector, for iteration.
    pub fn as_vec(&self) -> (r: &Vec<String>)
        ensures
            r.deep_view() == self.elements(),
    {
        &self.items
    }

    /// Empty the set.
    pub fn clear(&mut self)
        ensures
            final(self)@ == Set::<Seq<char>>::empty(),
    {
        self.items = Vec::new();
        proof {
            assert(self@ =~= Set::<Seq<char>>::empty());
        }
    }
}

} // verus!
