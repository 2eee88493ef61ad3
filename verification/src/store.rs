//! The in-memory blob store: a mapping from non-empty names to byte
//! buffers, shared by all request handlers for the life of the process.
//!
//! The store is modelled as a `Map<Seq<char>, Seq<u8>>`; the executable
//! representation is an association vector with pairwise-distinct keys.

use vstd::prelude::*;

verus! {

/// Folds an association sequence into the map it represents.  Later
/// entries shadow earlier ones, though a well-formed store never holds
/// two entries with the same key.
pub open spec fn assoc_map(s: Seq<(String, Vec<u8>)>) -> Map<Seq<char>, Seq<u8>>
    decreases s.len(),
{
    if s.len() == 0 {
        Map::empty()
    } else {
        assoc_map(s.drop_last()).insert(s.last().0@, s.last().1@)
    }
}

pub proof fn lemma_assoc_map_contains(s: Seq<(String, Vec<u8>)>, k: Seq<char>)
    ensures
        assoc_map(s).contains_key(k) <==> exists|i: int| 0 <= i < s.len() && s[i].0@ == k,
    decreases s.len(),
{
    if s.len() > 0 {
        lemma_assoc_map_contains(s.drop_last(), k);
        if s.last().0@ == k {
            assert(s[s.len() - 1].0@ == k);
        } else if assoc_map(s).contains_key(k) {
            let i = choose|i: int| 0 <= i < s.drop_last().len() && s.drop_last()[i].0@ == k;
            assert(s[i].0@ == k);
        } else {
            assert(forall|i: int|
                0 <= i < s.len() - 1 ==> s[i] == s.drop_last()[i]);
        }
    }
}

pub proof fn lemma_assoc_map_index(s: Seq<(String, Vec<u8>)>, i: int)
    requires
        0 <= i < s.len(),
        forall|j: int| i < j < s.len() ==> s[j].0@ != s[i].0@,
    ensures
        assoc_map(s).contains_key(s[i].0@),
        assoc_map(s)[s[i].0@] == s[i].1@,
    decreases s.len(),
{
    if i < s.len() - 1 {
        assert(forall|j: int|
            i < j < s.drop_last().len() ==> s.drop_last()[j].0@ != s.drop_last()[i].0@);
        lemma_assoc_map_index(s.drop_last(), i);
        assert(s.last().0@ != s[i].0@);
    }
}

pub proof fn lemma_assoc_map_remove(s: Seq<(String, Vec<u8>)>, i: int)
    requires
        0 <= i < s.len(),
        forall|j: int| 0 <= j < s.len() && j != i ==> s[j].0@ != s[i].0@,
    ensures
        assoc_map(s.remove(i)) =~= assoc_map(s).remove(s[i].0@),
    decreases s.len(),
{
    let k = s[i].0@;
    if i == s.len() - 1 {
        assert(s.remove(i) =~= s.drop_last());
        lemma_assoc_map_contains(s.drop_last(), k);
        assert(!assoc_map(s.drop_last()).contains_key(k));
    } else {
        let t = s.drop_last();
        assert(s.remove(i).drop_last() =~= t.remove(i));
        assert(s.remove(i).last() == s.last());
        assert(forall|j: int| 0 <= j < t.len() && j != i ==> t[j].0@ != t[i].0@);
        lemma_assoc_map_remove(t, i);
        assert(s.last().0@ != k);
    }
}

/// The map from blob name to blob bytes.  A name is a non-empty
/// string; an insert replaces any prior value for its name.  One value
/// of this type is shared, behind a lock, by all request handlers.
pub struct Database {
    entries: Vec<(String, Vec<u8>)>,
}

impl View for Database {
    type V = Map<Seq<char>, Seq<u8>>;

    closed spec fn view(&self) -> Map<Seq<char>, Seq<u8>> {
        assoc_map(self.entries@)
    }
}

impl Database {
    /// Keys are pairwise distinct and non-empty.
    pub closed spec fn wf(&self) -> bool {
        &&& forall|i: int, j: int|
            0 <= i < j < self.entries@.len() ==> self.entries@[i].0@ != self.entries@[j].0@
        &&& forall|i: int| 0 <= i < self.entries@.len() ==> self.entries@[i].0@.len() > 0
    }

    /// An empty store.
    pub fn new() -> (r: Self)
        ensures
            r.wf(),
            r@ == Map::<Seq<char>, Seq<u8>>::empty(),
    {
        Database { entries: Vec::new() }
    }

    /// Returns the index of the entry with the given name, if any.
    fn find(&self, name: &String) -> (r: Option<usize>)
        ensures
            match r {
                Some(i) => i < self.entries@.len() && self.entries@[i as int].0@ == name@,
                None => forall|j: int| 0 <= j < self.entries@.len() ==> self.entries@[j].0@ != name@,
            },
    {
        let n = self.entries.len();
        let mut i: usize = 0;
        while i < n
            invariant
                i <= n,
                n == self.entries@.len(),
                forall|j: int| 0 <= j < i ==> self.entries@[j].0@ != name@,
            decreases n - i,
        {
            if self.entries[i].0 == *name {
                return Some(i);
            }
            i = i + 1;
        }
        None
    }

    /// Stores `content` under `name`, replacing any prior value.
    /// Returns the prior value when one existed — an observable
    /// distinction, not an error — and `None` on a first-time insert.
    pub fn add(&mut self, name: String, content: Vec<u8>) -> (prior: Option<Vec<u8>>)
        requires
            old(self).wf(),
            name@.len() > 0,
        ensures
            final(self).wf(),
            final(self)@ == old(self)@.insert(name@, content@),
            match prior {
                Some(p) => old(self)@.contains_key(name@) && p@ == old(self)@[name@],
                None => !old(self)@.contains_key(name@),
            },
    {
        let ghost s0 = self.entries@;
        let ghost gname = name@;
        let ghost gcontent = content@;
        match self.find(&name) {
            Some(i) => {
                proof {
                    assert(forall|j: int|
                        0 <= j < s0.len() && j != i ==> s0[j].0@ != s0[i as int].0@);
                    lemma_assoc_map_index(s0, i as int);
                    lemma_assoc_map_remove(s0, i as int);
                    lemma_assoc_map_contains(s0, gname);
                }
                let pair = self.entries.remove(i);
                self.entries.push((name, content));
                proof {
                    let ghost t = s0.remove(i as int);
                    assert(self.entries@.drop_last() =~= t);
                    assert(assoc_map(self.entries@) == assoc_map(t).insert(gname, gcontent));
                    assert(self@ =~= old(self)@.insert(gname, gcontent));
                    assert(forall|j: int| 0 <= j < t.len() ==> t[j].0@ != gname);
                    assert(forall|a: int, b: int|
                        0 <= a < b < t.len() ==> t[a].0@ != t[b].0@) by {
                        assert(forall|a: int| 0 <= a < t.len() ==> #[trigger] t[a] == (
                            if a < i as int { s0[a] } else { s0[a + 1] }));
                    }
                    assert(self.wf());
                }
                Some(pair.1)
            },
            None => {
                self.entries.push((name, content));
                proof {
                    assert(self.entries@.drop_last() =~= s0);
                    assert(assoc_map(self.entries@) == assoc_map(s0).insert(gname, gcontent));
                    lemma_assoc_map_contains(s0, gname);
                }
                None
            },
        }
    }

    /// Looks the name up and returns a copy of the stored bytes, or
    /// `None` when the name is absent.
    pub fn get(&self, name: &String) -> (r: Option<Vec<u8>>)
        requires
            self.wf(),
        ensures
            match r {
                Some(v) => self@.contains_key(name@) && v@ == self@[name@],
                None => !self@.contains_key(name@),
            },
    {
        match self.find(name) {
            Some(i) => {
                proof {
                    assert(forall|j: int|
                        (i as int) < j < self.entries@.len()
                            ==> self.entries@[j].0@ != self.entries@[i as int].0@);
                    lemma_assoc_map_index(self.entries@, i as int);
                }
                Some(vstd::slice::slice_to_vec(self.entries[i].1.as_slice()))
            },
            None => {
                proof {
                    lemma_assoc_map_contains(self.entries@, name@);
                }
                None
            },
        }
    }
}

} // verus!
