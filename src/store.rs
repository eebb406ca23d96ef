use vstd::prelude::*;

verus! {

/// A map from string keys to small copyable values, kept as parallel vectors with distinct keys.
pub struct KeyedStore<V> {
    keys: Vec<String>,
    values: Vec<V>,
    model: Ghost<Map<Seq<char>, V>>,
}

impl<V> View for KeyedStore<V> {
    type V = Map<Seq<char>, V>;

    closed spec fn view(&self) -> Map<Seq<char>, V> {
        self.model@
    }
}

impl<V: Copy> KeyedStore<V> {
    /// The keys are distinct and each one's value is the model's.
    pub closed spec fn wf(&self) -> bool {
        &&& self.keys.len() == self.values.len()
        &&& forall|i: int, j: int|
            0 <= i < j < self.keys.len() ==> self.keys[i]@ != self.keys[j]@
        &&& forall|i: int|
            0 <= i < self.keys.len() ==> #[trigger] self.model@.contains_key(self.keys[i]@)
                && self.model@[self.keys[i]@] == self.values[i]
        &&& forall|k: Seq<char>|
            #[trigger] self.model@.contains_key(k) ==> exists|i: int|
                0 <= i < self.keys.len() && self.keys[i]@ == k
    }

    pub fn new() -> (r: KeyedStore<V>)
        ensures
            r.wf(),
            r@ == Map::<Seq<char>, V>::empty(),
    {
        KeyedStore { keys: Vec::new(), values: Vec::new(), model: Ghost(Map::empty()) }
    }

    fn find(&self, key: &String) -> (r: Option<usize>)
        requires
            self.wf(),
        ensures
            match r {
                Some(i) => i < self.keys.len() && self.keys[i as int]@ == key@,
                None => !self@.contains_key(key@),
            },
    {
        let mut i: usize = 0;
        while i < self.keys.len()
            invariant
                self.wf(),
                i <= self.keys.len(),
                forall|k: int| 0 <= k < i ==> self.keys[k]@ != key@,
            decreases self.keys.len() - i,
        {
            if self.keys[i] == *key {
                return Some(i);
            }
            i = i + 1;
        }
        None
    }

    /// The value stored under `key`, if any.
    pub fn get(&self, key: &String) -> (r: Option<V>)
        requires
            self.wf(),
        ensures
            r == if self@.contains_key(key@) {
                Some(self@[key@])
            } else {
                None
            },
    {
        match self.find(key) {
            Some(i) => Some(self.values[i]),
            None => None,
        }
    }

    /// Stores `v` under `key`, replacing any value there.
    pub fn set(&mut self, key: &String, v: V)
        requires
            old(self).wf(),
        ensures
            final(self).wf(),
            final(self)@ == old(self)@.insert(key@, v),
    {
        match self.find(key) {
            Some(i) => {
                self.values.set(i, v);
                self.model = Ghost(self.model@.insert(key@, v));
                assert forall|k: Seq<char>| #[trigger] self.model@.contains_key(k) implies exists|
                    j: int,
                | 0 <= j < self.keys.len() && self.keys[j]@ == k by {
                    if k != key@ {
                        assert(old(self).model@.contains_key(k));
                        let j = choose|j: int| 0 <= j < self.keys.len() && old(self).keys[j]@ == k;
                        assert(self.keys[j]@ == k);
                    } else {
                        assert(self.keys[i as int]@ == k);
                    }
                }
                assert forall|j: int| 0 <= j < self.keys.len() implies #[trigger] self.model@.contains_key(
                    self.keys[j]@,
                ) && self.model@[self.keys[j]@] == self.values[j] by {
                    if j != i {
                        assert(old(self).model@.contains_key(old(self).keys[j]@));
                    }
                }
            },
            None => {
                let ghost n = self.keys.len() as int;
                self.keys.push(key.clone());
                self.values.push(v);
                self.model = Ghost(self.model@.insert(key@, v));
                assert forall|k: Seq<char>| #[trigger] self.model@.contains_key(k) implies exists|
                    j: int,
                | 0 <= j < self.keys.len() && self.keys[j]@ == k by {
                    if k != key@ {
                        assert(old(self).model@.contains_key(k));
                        let j = choose|j: int| 0 <= j < n && old(self).keys[j]@ == k;
                        assert(self.keys[j]@ == k);
                    } else {
                        assert(self.keys[n]@ == k);
                    }
                }
                assert forall|a: int, b: int| 0 <= a < b < self.keys.len() implies self.keys[a]@
                    != self.keys[b]@ by {
                    if b == n {
                        assert(old(self).model@.contains_key(old(self).keys[a]@));
                    }
                }
            },
        }
    }
}

} // verus!
