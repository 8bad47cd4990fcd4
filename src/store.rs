use vstd::prelude::*;

verus! {

/// One key-value record.
pub struct Kv {
    pub key: String,
    pub value: String,
}

/// The keys of a list of strings, as character sequences.
pub open spec fn key_views(keys: Seq<String>) -> Seq<Seq<char>> {
    keys.map_values(|s: String| s@)
}

/// The in-memory key-value map: a list of records whose keys are unique.
pub struct Store {
    entries: Vec<Kv>,
    contents: Ghost<Map<Seq<char>, Seq<char>>>,
}

impl View for Store {
    type V = Map<Seq<char>, Seq<char>>;

    closed spec fn view(&self) -> Map<Seq<char>, Seq<char>> {
        self.contents@
    }
}

impl Store {
    /// Keys are unique, and the records are exactly the entries of the map.
    pub closed spec fn wf(&self) -> bool {
        &&& forall|i: int, j: int|
            0 <= i < j < self.entries@.len() ==> #[trigger] self.entries@[i].key@
                != #[trigger] self.entries@[j].key@
        &&& forall|i: int|
            0 <= i < self.entries@.len() ==> self.contents@.dom().contains(
                (#[trigger] self.entries@[i]).key@,
            ) && self.contents@[self.entries@[i].key@] == self.entries@[i].value@
        &&& forall|k: Seq<char>|
            #[trigger] self.contents@.dom().contains(k) ==> exists|i: int|
                0 <= i < self.entries@.len() && (#[trigger] self.entries@[i]).key@ == k
    }

    /// An empty store.
    pub fn new() -> (r: Store)
        ensures
            r.wf(),
            r@ == Map::<Seq<char>, Seq<char>>::empty(),
    {
        Store { entries: Vec::new(), contents: Ghost(Map::empty()) }
    }

    /// The position of the record with this key, if there is one.
    fn find(&self, key: &String) -> (r: Option<usize>)
        requires
            self.wf(),
        ensures
            match r {
                Some(i) => i < self.entries@.len() && self.entries@[i as int].key@ == key@,
                None => !self@.dom().contains(key@),
            },
    {
        let mut i: usize = 0;
        while i < self.entries.len()
            invariant
                self.wf(),
                i <= self.entries@.len(),
                forall|j: int| 0 <= j < i ==> (#[trigger] self.entries@[j]).key@ != key@,
            decreases self.entries@.len() - i,
        {
            if self.entries[i].key == *key {
                return Some(i);
            }
            i = i + 1;
        }
        None
    }

    /// The value stored under `key`, if any.
    pub fn get(&self, key: &String) -> (r: Option<String>)
        requires
            self.wf(),
        ensures
            match r {
                Some(v) => self@.dom().contains(key@) && v@ == self@[key@],
                None => !self@.dom().contains(key@),
            },
    {
        match self.find(key) {
            Some(i) => Some(self.entries[i].value.clone()),
            None => None,
        }
    }

    /// Stores `value` under `key`, replacing any earlier value.
    pub fn set(&mut self, key: String, value: String)
        requires
            old(self).wf(),
        ensures
            final(self).wf(),
            final(self)@ == old(self)@.insert(key@, value@),
    {
        let ghost k = key@;
        let ghost v = value@;
        let idx: usize = match self.find(&key) {
            Some(i) => {
                self.entries.set(i, Kv { key, value });
                i
            },
            None => {
                self.entries.push(Kv { key, value });
                (self.entries.len() - 1) as usize
            },
        };
        assert(self.entries@[idx as int].key@ == k);
        self.contents = Ghost(self.contents@.insert(k, v));
        assert forall|kk: Seq<char>| #[trigger] self.contents@.dom().contains(kk) implies exists|
            i: int,
        | 0 <= i < self.entries@.len() && (#[trigger] self.entries@[i]).key@ == kk by {
            if kk != k {
                let i = choose|i: int|
                    0 <= i < old(self).entries@.len() && (#[trigger] old(self).entries@[i]).key@
                        == kk;
                assert(self.entries@[i] == old(self).entries@[i]);
            } else {
                assert(0 <= idx < self.entries@.len() && self.entries@[idx as int].key@ == kk);
            }
        }
    }

    /// Removes the record with this key, if any; tells whether there was one.
    fn remove(&mut self, key: &String) -> (found: bool)
        requires
            old(self).wf(),
        ensures
            final(self).wf(),
            final(self)@ == old(self)@.remove(key@),
            found == old(self)@.dom().contains(key@),
    {
        match self.find(key) {
            Some(i) => {
                let ghost pre = self.entries@;
                let last: usize = (self.entries.len() - 1) as usize;
                self.entries.swap_remove(i);
                self.contents = Ghost(self.contents@.remove(key@));
                assert forall|kk: Seq<char>| #[trigger]
                    self.contents@.dom().contains(kk) implies exists|j: int|
                    0 <= j < self.entries@.len() && (#[trigger] self.entries@[j]).key@ == kk by {
                    let j = choose|j: int|
                        0 <= j < pre.len() && (#[trigger] pre[j]).key@ == kk;
                    if j == last as int {
                        assert(self.entries@[i as int] == pre[j]);
                    } else {
                        assert(self.entries@[j] == pre[j]);
                    }
                }
                assert forall|a: int, b: int|
                    0 <= a < b < self.entries@.len() implies #[trigger] self.entries@[a].key@
                    != #[trigger] self.entries@[b].key@ by {
                    let pa = if a == i as int { last as int } else { a };
                    let pb = if b == i as int { last as int } else { b };
                    assert(self.entries@[a] == pre[pa]);
                    assert(self.entries@[b] == pre[pb]);
                    assert(pre[pa].key@ != pre[pb].key@ || pa == pb);
                }
                assert forall|a: int| 0 <= a < self.entries@.len() implies self.contents@.dom().contains(
                    (#[trigger] self.entries@[a]).key@,
                ) && self.contents@[self.entries@[a].key@] == self.entries@[a].value@ by {
                    let pa = if a == i as int { last as int } else { a };
                    assert(self.entries@[a] == pre[pa]);
                    assert(pre[pa].key@ != pre[i as int].key@);
                }
                true
            },
            None => {
                assert(self.contents@.remove(key@) =~= self.contents@);
                false
            },
        }
    }

    /// Removes every listed key that is present, and returns how many were
    /// removed: the number of distinct listed keys that were present.
    pub fn delete(&mut self, keys: &Vec<String>) -> (count: u64)
        requires
            old(self).wf(),
        ensures
            final(self).wf(),
            final(self)@ == old(self)@.remove_keys(key_views(keys@).to_set()),
            count == key_views(keys@).to_set().intersect(old(self)@.dom()).len(),
    {
        let ghost m0 = self@;
        let ghost kv = key_views(keys@);
        let mut count: u64 = 0;
        let mut i: usize = 0;
        proof {
            assert(kv.take(0).to_set() =~= Set::<Seq<char>>::empty());
            assert(m0.remove_keys(Set::empty()) =~= m0);
            assert(Set::<Seq<char>>::empty().intersect(m0.dom()) =~= Set::empty());
        }
        while i < keys.len()
            invariant
                self.wf(),
                i <= keys@.len(),
                kv == key_views(keys@),
                count <= i,
                self@ == m0.remove_keys(kv.take(i as int).to_set()),
                count == kv.take(i as int).to_set().intersect(m0.dom()).len(),
            decreases keys@.len() - i,
        {
            let ghost before = kv.take(i as int).to_set();
            let ghost k = kv[i as int];
            proof {
                assert(kv.take(i as int + 1) =~= kv.take(i as int) + seq![k]);
                Seq::<Seq<char>>::lemma_to_set_insert_commutes(kv.take(i as int), k);
                vstd::seq_lib::seq_to_set_is_finite(kv.take(i as int));
            }
            let found = self.remove(&keys[i]);
            proof {
                let after = before.insert(k);
                assert(self@ =~= m0.remove_keys(after));
                if found {
                    assert(before.intersect(m0.dom()).insert(k) =~= after.intersect(m0.dom()));
                    assert(!before.intersect(m0.dom()).contains(k));
                } else {
                    assert(before.intersect(m0.dom()) =~= after.intersect(m0.dom()));
                }
            }
            if found {
                count = count + 1;
            }
            i = i + 1;
        }
        proof {
            assert(kv.take(keys@.len() as int) =~= kv);
        }
        count
    }
}

} // verus!
