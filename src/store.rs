//! A path-addressed key-value store: each entry is kept under its ICS-24 path.
use vstd::prelude::*;

use crate::identifiers::str_eq;

verus! {

/// Entries keyed by path; at most one entry per path.
pub struct PathMap<V> {
    keys: Vec<String>,
    vals: Vec<V>,
    m: Ghost<Map<Seq<char>, V>>,
}

impl<V> View for PathMap<V> {
    type V = Map<Seq<char>, V>;

    closed spec fn view(&self) -> Map<Seq<char>, V> {
        self.m@
    }
}

impl<V> PathMap<V> {
    /// The entries are exactly the pairs of `keys` and `vals`, one per path.
    pub closed spec fn wf(&self) -> bool {
        &&& self.keys@.len() == self.vals@.len()
        &&& forall|i: int|
            0 <= i < self.keys@.len() ==> #[trigger] self.m@.contains_key(self.keys@[i]@)
                && self.m@[self.keys@[i]@] == self.vals@[i]
        &&& forall|k: Seq<char>|
            #[trigger] self.m@.contains_key(k) ==> exists|i: int|
                0 <= i < self.keys@.len() && #[trigger] self.keys@[i]@ == k
        &&& forall|i: int, j: int|
            0 <= i < self.keys@.len() && 0 <= j < self.keys@.len() && i != j
                ==> self.keys@[i]@ != self.keys@[j]@
    }

    pub fn new() -> (r: PathMap<V>)
        ensures
            r.wf(),
            r@ == Map::<Seq<char>, V>::empty(),
    {
        PathMap { keys: Vec::new(), vals: Vec::new(), m: Ghost(Map::empty()) }
    }

    fn find(&self, key: &str) -> (r: Option<usize>)
        requires
            self.wf(),
        ensures
            match r {
                Some(i) => i < self.keys@.len() && self.keys@[i as int]@ == key@,
                None => !self@.contains_key(key@),
            },
    {
        let mut i: usize = 0;
        while i < self.keys.len()
            invariant
                self.wf(),
                i <= self.keys@.len(),
                forall|j: int| 0 <= j < i ==> self.keys@[j]@ != key@,
            decreases self.keys@.len() - i,
        {
            if str_eq(self.keys[i].as_str(), key) {
                return Some(i);
            }
            i = i + 1;
        }
        None
    }

    /// Every path that holds an entry, once each.
    pub fn key_list(&self) -> (r: &Vec<String>)
        requires
            self.wf(),
        ensures
            forall|i: int| 0 <= i < r@.len() ==> #[trigger] self@.contains_key(r@[i]@),
            forall|k: Seq<char>| #[trigger]
                self@.contains_key(k) ==> exists|i: int| 0 <= i < r@.len() && #[trigger] r@[i]@ == k,
            forall|i: int, j: int|
                0 <= i < r@.len() && 0 <= j < r@.len() && i != j ==> r@[i]@ != r@[j]@,
    {
        &self.keys
    }

    /// The entry under `key`, if any.
    pub fn get(&self, key: &str) -> (r: Option<&V>)
        requires
            self.wf(),
        ensures
            match r {
                Some(v) => self@.contains_key(key@) && *v == self@[key@],
                None => !self@.contains_key(key@),
            },
    {
        match self.find(key) {
            Some(i) => {
                assert(self.m@.contains_key(self.keys@[i as int]@));
                Some(&self.vals[i])
            },
            None => None,
        }
    }

    /// Whether an entry is kept under `key`.
    pub fn contains(&self, key: &str) -> (r: bool)
        requires
            self.wf(),
        ensures
            r == self@.contains_key(key@),
    {
        self.find(key).is_some()
    }

    /// Puts `value` under `key`, replacing what was there.
    pub fn set(&mut self, key: String, value: V)
        requires
            old(self).wf(),
        ensures
            final(self).wf(),
            final(self)@ == old(self)@.insert(key@, value),
    {
        match self.find(key.as_str()) {
            Some(i) => {
                let ghost k = key@;
                self.vals.set(i, value);
                self.m = Ghost(self.m@.insert(k, value));
                assert forall|j: int| 0 <= j < self.keys@.len() implies #[trigger] self.m@.contains_key(
                    self.keys@[j]@,
                ) && self.m@[self.keys@[j]@] == self.vals@[j] by {
                    if j != i {
                        assert(old(self).m@.contains_key(old(self).keys@[j]@));
                        assert(self.keys@[j]@ != k);
                    }
                }
                assert forall|k2: Seq<char>| #[trigger] self.m@.contains_key(k2) implies exists|
                    j: int,
                | 0 <= j < self.keys@.len() && #[trigger] self.keys@[j]@ == k2 by {
                    if k2 == k {
                        assert(self.keys@[i as int]@ == k2);
                    } else {
                        assert(old(self).m@.contains_key(k2));
                        let j = choose|j: int|
                            0 <= j < old(self).keys@.len() && #[trigger] old(self).keys@[j]@ == k2;
                        assert(self.keys@[j]@ == k2);
                    }
                }
            },
            None => {
                let ghost k = key@;
                let ghost n = self.keys@.len();
                self.keys.push(key);
                self.vals.push(value);
                self.m = Ghost(self.m@.insert(k, value));
                assert(self.keys@[n as int]@ == k);
                assert forall|k2: Seq<char>| #[trigger] self.m@.contains_key(k2) implies exists|
                    j: int,
                | 0 <= j < self.keys@.len() && #[trigger] self.keys@[j]@ == k2 by {
                    if k2 == k {
                        assert(self.keys@[n as int]@ == k2);
                    } else {
                        assert(old(self).m@.contains_key(k2));
                        let j = choose|j: int|
                            0 <= j < old(self).keys@.len() && #[trigger] old(self).keys@[j]@ == k2;
                        assert(self.keys@[j]@ == k2);
                    }
                }
            },
        }
    }

    /// Removes the entry under `key`, if any.
    pub fn remove(&mut self, key: &str)
        requires
            old(self).wf(),
        ensures
            final(self).wf(),
            final(self)@ == old(self)@.remove(key@),
    {
        match self.find(key) {
            Some(i) => {
                let ghost k = key@;
                let ghost old_keys = self.keys@;
                assert(i < old_keys.len());
                self.keys.swap_remove(i);
                self.vals.swap_remove(i);
                self.m = Ghost(self.m@.remove(k));
                let ghost last = (old_keys.len() - 1) as int;
                assert forall|j: int| 0 <= j < self.keys@.len() implies #[trigger] self.m@.contains_key(
                    self.keys@[j]@,
                ) && self.m@[self.keys@[j]@] == self.vals@[j] by {
                    let oj = if j == i { last } else { j };
                    assert(self.keys@[j] == old_keys[oj]);
                    assert(self.vals@[j] == old(self).vals@[oj]);
                    assert(old(self).m@.contains_key(old_keys[oj]@));
                    assert(oj != i);
                    assert(old_keys[oj]@ != k);
                }
                assert forall|k2: Seq<char>| #[trigger] self.m@.contains_key(k2) implies exists|
                    j: int,
                | 0 <= j < self.keys@.len() && #[trigger] self.keys@[j]@ == k2 by {
                    assert(old(self).m@.contains_key(k2));
                    let j = choose|j: int|
                        0 <= j < old_keys.len() && #[trigger] old_keys[j]@ == k2;
                    if j == last {
                        assert(self.keys@[i as int]@ == k2);
                    } else {
                        assert(self.keys@[j]@ == k2);
                    }
                }
                assert forall|a: int, b: int|
                    0 <= a < self.keys@.len() && 0 <= b < self.keys@.len() && a != b
                        implies self.keys@[a]@ != self.keys@[b]@ by {
                    let oa = if a == i { last } else { a };
                    let ob = if b == i { last } else { b };
                    assert(self.keys@[a] == old_keys[oa]);
                    assert(self.keys@[b] == old_keys[ob]);
                }
            },
            None => {
                assert(self.m@.remove(key@) =~= self.m@);
            },
        }
    }
}

} // verus!
