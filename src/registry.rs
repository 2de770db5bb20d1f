//! The table from session keys to the workspaces that sessions own; the
//! same string-keyed table holds other per-name values.
use vstd::prelude::*;
use crate::text::str_eq;

verus! {

/// Values by string key, workspaces by session key above all. At most one
/// value is held per key; the caller serialises access with a single lock
/// held only across each call.
pub struct Registry<W> {
    entries: Vec<(String, W)>,
    contents: Ghost<Map<Seq<char>, W>>,
}

impl<W> Registry<W> {
    /// The workspaces held, by key.
    pub closed spec fn view(&self) -> Map<Seq<char>, W> {
        self.contents@
    }

    pub closed spec fn wf(&self) -> bool {
        &&& forall|i: int, j: int|
            0 <= i < j < self.entries@.len() ==> self.entries@[i].0@ != self.entries@[j].0@
        &&& forall|i: int|
            0 <= i < self.entries@.len() ==> {
                &&& #[trigger] self.contents@.contains_key(self.entries@[i].0@)
                &&& self.contents@[self.entries@[i].0@] == self.entries@[i].1
            }
        &&& forall|k: Seq<char>|
            #[trigger] self.contents@.contains_key(k) ==> exists|i: int|
                0 <= i < self.entries@.len() && self.entries@[i].0@ == k
    }

    pub fn new() -> (r: Registry<W>)
        ensures
            r.wf(),
            r@ == Map::<Seq<char>, W>::empty(),
    {
        Registry { entries: Vec::new(), contents: Ghost(Map::empty()) }
    }

    fn position(&self, key: &str) -> (r: Option<usize>)
        requires
            self.wf(),
        ensures
            match r {
                Some(i) => {
                    &&& i < self.entries@.len()
                    &&& self.entries@[i as int].0@ == key@
                    &&& self@.contains_key(key@)
                    &&& self@[key@] == self.entries@[i as int].1
                },
                None => !self@.contains_key(key@),
            },
    {
        let mut i: usize = 0;
        while i < self.entries.len()
            invariant
                self.wf(),
                i <= self.entries@.len(),
                forall|j: int| 0 <= j < i ==> self.entries@[j].0@ != key@,
            decreases self.entries.len() - i,
        {
            if str_eq(self.entries[i].0.as_str(), key) {
                assert(self.contents@.contains_key(self.entries@[i as int].0@));
                return Some(i);
            }
            i = i + 1;
        }
        None
    }

    /// The workspace registered under `key`, if any.
    pub fn lookup(&self, key: &str) -> (r: Option<&W>)
        requires
            self.wf(),
        ensures
            match r {
                Some(w) => self@.contains_key(key@) && *w == self@[key@],
                None => !self@.contains_key(key@),
            },
    {
        match self.position(key) {
            Some(i) => Some(&self.entries[i].1),
            None => None,
        }
    }

    /// Registers `w` under `key`, handing back the workspace it displaces.
    pub fn insert(&mut self, key: String, w: W) -> (r: Option<W>)
        requires
            old(self).wf(),
        ensures
            final(self).wf(),
            final(self)@ == old(self)@.insert(key@, w),
            match r {
                Some(prev) => old(self)@.contains_key(key@) && prev == old(self)@[key@],
                None => !old(self)@.contains_key(key@),
            },
    {
        let ghost k = key@;
        match self.position(key.as_str()) {
            Some(i) => {
                let ghost old_entries = self.entries@;
                let (_, prev) = self.entries.remove(i);
                self.entries.insert(i, (key, w));
                proof {
                    self.contents@ = self.contents@.insert(k, w);
                    assert(forall|j: int| 0 <= j < self.entries@.len() && j != i
                        ==> self.entries@[j] == old_entries[j]);
                    assert forall|kk: Seq<char>| #[trigger] self.contents@.contains_key(kk)
                        implies exists|j: int| 0 <= j < self.entries@.len() && self.entries@[j].0@ == kk by {
                        if kk != k {
                            let j = choose|j: int| 0 <= j < old_entries.len() && old_entries[j].0@ == kk;
                            assert(self.entries@[j].0@ == kk);
                        } else {
                            assert(self.entries@[i as int].0@ == kk);
                        }
                    }
                }
                Some(prev)
            },
            None => {
                let ghost old_entries = self.entries@;
                self.entries.push((key, w));
                proof {
                    self.contents@ = self.contents@.insert(k, w);
                    assert forall|kk: Seq<char>| #[trigger] self.contents@.contains_key(kk)
                        implies exists|j: int| 0 <= j < self.entries@.len() && self.entries@[j].0@ == kk by {
                        if kk != k {
                            let j = choose|j: int| 0 <= j < old_entries.len() && old_entries[j].0@ == kk;
                            assert(self.entries@[j].0@ == kk);
                        } else {
                            assert(self.entries@[old_entries.len() as int].0@ == kk);
                        }
                    }
                }
                None
            },
        }
    }

    /// Evicts the workspace registered under `key`, handing it back.
    pub fn remove(&mut self, key: &str) -> (r: Option<W>)
        requires
            old(self).wf(),
        ensures
            final(self).wf(),
            final(self)@ == old(self)@.remove(key@),
            match r {
                Some(prev) => old(self)@.contains_key(key@) && prev == old(self)@[key@],
                None => !old(self)@.contains_key(key@),
            },
    {
        match self.position(key) {
            Some(i) => {
                let ghost old_entries = self.entries@;
                let (_, prev) = self.entries.remove(i);
                proof {
                    self.contents@ = self.contents@.remove(key@);
                    assert(forall|j: int| 0 <= j < i ==> self.entries@[j] == old_entries[j]);
                    assert(forall|j: int| i <= j < self.entries@.len() ==> self.entries@[j] == old_entries[j + 1]);
                    assert forall|kk: Seq<char>| #[trigger] self.contents@.contains_key(kk)
                        implies exists|j: int| 0 <= j < self.entries@.len() && self.entries@[j].0@ == kk by {
                        let j = choose|j: int| 0 <= j < old_entries.len() && old_entries[j].0@ == kk;
                        if j < i {
                            assert(self.entries@[j].0@ == kk);
                        } else {
                            assert(self.entries@[j - 1].0@ == kk);
                        }
                    }
                }
                Some(prev)
            },
            None => {
                assert(self.contents@.remove(key@) =~= self.contents@);
                None
            },
        }
    }

    /// The keys held, in the order first registered.
    pub fn keys(&self) -> (r: Vec<String>)
        requires
            self.wf(),
        ensures
            r@.len() == self@.len(),
            forall|i: int| 0 <= i < r@.len() ==> self@.contains_key(#[trigger] r@[i]@),
            forall|k: Seq<char>| #[trigger] self@.contains_key(k) ==> exists|i: int|
                0 <= i < r@.len() && r@[i]@ == k,
    {
        proof {
            self.lemma_len();
        }
        let mut r: Vec<String> = Vec::new();
        let mut i: usize = 0;
        while i < self.entries.len()
            invariant
                self.wf(),
                i <= self.entries@.len(),
                r@.len() == i,
                forall|j: int| 0 <= j < i ==> (#[trigger] r@[j])@ == self.entries@[j].0@,
            decreases self.entries.len() - i,
        {
            r.push(self.entries[i].0.clone());
            i = i + 1;
        }
        assert forall|j: int| 0 <= j < r@.len() implies self@.contains_key(#[trigger] r@[j]@) by {
            assert(self.contents@.contains_key(self.entries@[j].0@));
        }
        assert forall|k: Seq<char>| #[trigger] self@.contains_key(k) implies exists|j: int|
            0 <= j < r@.len() && r@[j]@ == k by {
            let j = choose|j: int| 0 <= j < self.entries@.len() && self.entries@[j].0@ == k;
            assert(r@[j]@ == k);
        }
        r
    }

    /// The number of workspaces held.
    pub fn len(&self) -> (r: usize)
        requires
            self.wf(),
        ensures
            r == self@.len(),
    {
        proof {
            self.lemma_len();
        }
        self.entries.len()
    }

    proof fn lemma_len(&self)
        requires
            self.wf(),
        ensures
            self.entries@.len() == self@.len(),
    {
        let keys = self.entries@.map_values(|e: (String, W)| e.0@);
        assert(keys.no_duplicates()) by {
            assert forall|i: int, j: int| 0 <= i < keys.len() && 0 <= j < keys.len() && i != j
                implies keys[i] != keys[j] by {
                if i < j {
                } else {
                }
            }
        }
        assert(keys.to_set() =~= self@.dom()) by {
            assert forall|k: Seq<char>| self@.dom().contains(k) implies keys.to_set().contains(k) by {
                let j = choose|j: int| 0 <= j < self.entries@.len() && self.entries@[j].0@ == k;
                assert(keys[j] == k);
            }
            assert forall|k: Seq<char>| keys.to_set().contains(k) implies self@.dom().contains(k) by {
                let j = choose|j: int| 0 <= j < keys.len() && keys[j] == k;
                assert(self.contents@.contains_key(self.entries@[j].0@));
            }
        }
        keys.unique_seq_to_set();
    }
}

/// A session key resolves to the workspace registered under it, whatever
/// other sessions register afterwards: the key the first record of a
/// generation run carries finds that run's workspace in a later fix run.
pub proof fn lemma_session_key_resolves<W>(
    before: Map<Seq<char>, W>,
    key: Seq<char>,
    w: W,
    others: Seq<(Seq<char>, W)>,
)
    requires
        forall|i: int| 0 <= i < others.len() ==> (#[trigger] others[i]).0 != key,
    ensures
        fold_inserts(before.insert(key, w), others).contains_key(key),
        fold_inserts(before.insert(key, w), others)[key] == w,
    decreases others.len(),
{
    if others.len() > 0 {
        let rest = others.drop_last();
        assert forall|i: int| 0 <= i < rest.len() implies (#[trigger] rest[i]).0 != key by {
            assert(rest[i] == others[i]);
        }
        lemma_session_key_resolves(before, key, w, rest);
        assert(others.last().0 != key);
    }
}

/// The table after registering `entries` in order.
pub open spec fn fold_inserts<W>(m: Map<Seq<char>, W>, entries: Seq<(Seq<char>, W)>) -> Map<Seq<char>, W>
    decreases entries.len(),
{
    if entries.len() == 0 {
        m
    } else {
        fold_inserts(m, entries.drop_last()).insert(entries.last().0, entries.last().1)
    }
}

} // verus!
