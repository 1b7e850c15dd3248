use crate::config::hero::Key;
use crate::macro_engine::key_set::KeySet;
use vstd::prelude::*;

verus! {

/// Keys whose next release is to be swallowed. Membership, not a count: a
/// key blocked twice before its release is swallowed once.
#[derive(Debug)]
pub struct SuppressionSet {
    blocked: KeySet,
}

impl View for SuppressionSet {
    type V = Set<Key>;

    closed spec fn view(&self) -> Set<Key> {
        self.blocked@
    }
}

impl SuppressionSet {
    pub closed spec fn wf(&self) -> bool {
        self.blocked.wf()
    }

    pub fn new() -> (r: SuppressionSet)
        ensures
            r.wf(),
            r@ == Set::<Key>::empty(),
    {
        SuppressionSet { blocked: KeySet::new() }
    }

    /// Adds every key of `keys`.
    pub fn block(&mut self, keys: &[Key])
        requires
            old(self).wf(),
        ensures
            final(self).wf(),
            final(self)@ == old(self)@.union(keys@.to_set()),
    {
        let mut i: usize = 0;
        while i < keys.len()
            invariant
                i <= keys@.len(),
                self.wf(),
                self@ == old(self)@.union(keys@.subrange(0, i as int).to_set()),
            decreases keys.len() - i,
        {
            self.blocked.insert(keys[i]);
            assert(keys@.subrange(0, i + 1).to_set() =~= keys@.subrange(0, i as int).to_set().insert(
                keys@[i as int],
            )) by {
                assert forall|k: Key| #[trigger] keys@.subrange(0, i + 1).contains(k) <==> keys@.subrange(0, i as int).contains(k) || k == keys@[i as int] by {
                    let s1 = keys@.subrange(0, i + 1);
                    let s0 = keys@.subrange(0, i as int);
                    if s1.contains(k) {
                        let j = choose|j: int| 0 <= j < s1.len() && s1[j] == k;
                        if j < i {
                            assert(s0[j] == k);
                        }
                    }
                    if s0.contains(k) {
                        let j = choose|j: int| 0 <= j < s0.len() && s0[j] == k;
                        assert(s1[j] == k);
                    }
                    if k == keys@[i as int] {
                        assert(s1[i as int] == k);
                    }
                }
            }
            assert(self@ =~= old(self)@.union(keys@.subrange(0, i + 1).to_set()));
            i = i + 1;
        }
        assert(keys@.subrange(0, i as int) =~= keys@);
    }

    pub fn is_blocked(&self, key: Key) -> (r: bool)
        ensures
            r == self@.contains(key),
    {
        self.blocked.contains(key)
    }

    /// Swallows the release of `key` once: true, and `key` leaves the set, if
    /// it was blocked; false otherwise.
    pub fn consume_if_blocked(&mut self, key: Key) -> (r: bool)
        requires
            old(self).wf(),
        ensures
            final(self).wf(),
            r == old(self)@.contains(key),
            final(self)@ == old(self)@.remove(key),
    {
        self.blocked.remove(key)
    }
}

} // verus!
