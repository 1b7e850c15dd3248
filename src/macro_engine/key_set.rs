use crate::config::hero::Key;
use vstd::prelude::*;

verus! {

/// A finite set of keys, held as a list without repetitions.
#[derive(Debug)]
pub struct KeySet {
    keys: Vec<Key>,
}

impl View for KeySet {
    type V = Set<Key>;

    closed spec fn view(&self) -> Set<Key> {
        self.keys@.to_set()
    }
}

impl KeySet {
    pub closed spec fn wf(&self) -> bool {
        self.keys@.no_duplicates()
    }

    pub fn new() -> (r: KeySet)
        ensures
            r.wf(),
            r@ == Set::<Key>::empty(),
    {
        let r = KeySet { keys: Vec::new() };
        assert(r@ =~= Set::<Key>::empty());
        r
    }

    fn position(&self, key: Key) -> (r: Option<usize>)
        ensures
            match r {
                Some(i) => i < self.keys@.len() && self.keys@[i as int] == key,
                None => !self.keys@.contains(key),
            },
    {
        let mut i: usize = 0;
        while i < self.keys.len()
            invariant
                i <= self.keys@.len(),
                forall|j: int| 0 <= j < i ==> self.keys@[j] != key,
            decreases self.keys.len() - i,
        {
            if self.keys[i] == key {
                return Some(i);
            }
            i = i + 1;
        }
        None
    }

    pub fn contains(&self, key: Key) -> (r: bool)
        ensures
            r == self@.contains(key),
    {
        self.position(key).is_some()
    }

    pub fn insert(&mut self, key: Key)
        requires
            old(self).wf(),
        ensures
            final(self).wf(),
            final(self)@ == old(self)@.insert(key),
    {
        if self.position(key).is_none() {
            let ghost before = self.keys@;
            self.keys.push(key);
            proof {
                assert forall|k: Key| #[trigger] self.keys@.contains(k) <==> before.contains(k) || k == key by {
                    if self.keys@.contains(k) {
                        let j = choose|j: int| 0 <= j < self.keys@.len() && self.keys@[j] == k;
                        if j < before.len() {
                            assert(before[j] == k);
                        }
                    }
                    if before.contains(k) {
                        let j = choose|j: int| 0 <= j < before.len() && before[j] == k;
                        assert(self.keys@[j] == k);
                    }
                    if k == key {
                        assert(self.keys@[before.len() as int] == k);
                    }
                }
            }
        }
        assert(self@ =~= old(self)@.insert(key));
    }

    /// Takes `key` out of the set; says whether it was there.
    pub fn remove(&mut self, key: Key) -> (r: bool)
        requires
            old(self).wf(),
        ensures
            final(self).wf(),
            final(self)@ == old(self)@.remove(key),
            r == old(self)@.contains(key),
    {
        match self.position(key) {
            Some(i) => {
                let ghost before = self.keys@;
                self.keys.remove(i);
                proof {
                    assert(self.keys@ == before.remove(i as int));
                    assert forall|k: Key| #[trigger] self.keys@.contains(k) <==> before.contains(k) && k != key by {
                        if self.keys@.contains(k) {
                            let j = choose|j: int| 0 <= j < self.keys@.len() && self.keys@[j] == k;
                            if j < i {
                                assert(before[j] == k);
                            } else {
                                assert(before[j + 1] == k);
                            }
                        }
                        if before.contains(k) && k != key {
                            let j = choose|j: int| 0 <= j < before.len() && before[j] == k;
                            if j < i {
                                assert(self.keys@[j] == k);
                            } else {
                                assert(j != i);
                                assert(self.keys@[j - 1] == k);
                            }
                        }
                    }
                }
                assert(self@ =~= old(self)@.remove(key));
                true
            },
            None => {
                assert(self@ =~= old(self)@.remove(key));
                false
            },
        }
    }
}

} // verus!
