use crate::config::hero::Key;
use crate::macro_engine::key_set::KeySet;
use vstd::prelude::*;

verus! {

/// Which keys are held down right now. A key never reported is up.
#[derive(Debug)]
pub struct KeyEventProcessor {
    key_states: KeySet,
}

/// Every key of `keys` is in `down`.
pub open spec fn all_down(down: Set<Key>, keys: Seq<Key>) -> bool {
    forall|i: int| 0 <= i < keys.len() ==> down.contains(#[trigger] keys[i])
}

impl View for KeyEventProcessor {
    type V = Set<Key>;

    closed spec fn view(&self) -> Set<Key> {
        self.key_states@
    }
}

impl KeyEventProcessor {
    pub closed spec fn wf(&self) -> bool {
        self.key_states.wf()
    }

    /// A tracker in which every key is up.
    pub fn new() -> (r: KeyEventProcessor)
        ensures
            r.wf(),
            r@ == Set::<Key>::empty(),
    {
        KeyEventProcessor { key_states: KeySet::new() }
    }

    /// Records the latest state of `key`; the last write wins.
    pub fn set_key_state(&mut self, key: Key, is_down: bool)
        requires
            old(self).wf(),
        ensures
            final(self).wf(),
            final(self)@ == (if is_down {
                old(self)@.insert(key)
            } else {
                old(self)@.remove(key)
            }),
    {
        if is_down {
            self.key_states.insert(key);
        } else {
            self.key_states.remove(key);
        }
    }

    pub fn is_key_down(&self, key: &Key) -> (r: bool)
        ensures
            r == self@.contains(*key),
    {
        self.key_states.contains(*key)
    }

    /// Whether every key of `keys` is held; true of no keys at all.
    pub fn are_keys_down(&self, keys: &[Key]) -> (r: bool)
        ensures
            r == all_down(self@, keys@),
    {
        let mut i: usize = 0;
        while i < keys.len()
            invariant
                i <= keys@.len(),
                all_down(self@, keys@.subrange(0, i as int)),
            decreases keys.len() - i,
        {
            if !self.is_key_down(&keys[i]) {
                assert(!self@.contains(keys@[i as int]));
                return false;
            }
            assert(all_down(self@, keys@.subrange(0, i + 1))) by {
                assert forall|j: int| 0 <= j < i + 1 implies self@.contains(
                    #[trigger] keys@.subrange(0, i + 1)[j],
                ) by {
                    if j < i {
                        assert(keys@.subrange(0, i + 1)[j] == keys@.subrange(0, i as int)[j]);
                    }
                }
            }
            i = i + 1;
        }
        assert(keys@.subrange(0, i as int) =~= keys@);
        true
    }
}

} // verus!
