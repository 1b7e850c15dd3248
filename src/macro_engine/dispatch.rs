use crate::config::hero::{ActionView, ComboAction};
use vstd::prelude::*;

verus! {

/// How many action lists wait at most by default.
pub const DEFAULT_QUEUE_CAPACITY: usize = 32;

/// The last `n` elements of `s`, or all of it if it is shorter.
pub open spec fn keep_last<A>(s: Seq<A>, n: nat) -> Seq<A> {
    if s.len() <= n {
        s
    } else {
        s.subrange(s.len() - n, s.len() as int)
    }
}

/// The queue after `a` is submitted: a full queue first drops its oldest.
pub open spec fn queue_push<A>(q: Seq<A>, a: A, capacity: nat) -> Seq<A> {
    if q.len() >= capacity {
        q.drop_first().push(a)
    } else {
        q.push(a)
    }
}

/// The queue after each of `items` is submitted in turn.
pub open spec fn queue_push_all<A>(q: Seq<A>, items: Seq<A>, capacity: nat) -> Seq<A>
    decreases items.len(),
{
    if items.len() == 0 {
        q
    } else {
        queue_push_all(queue_push(q, items[0], capacity), items.drop_first(), capacity)
    }
}

/// A bounded first-in first-out queue of action lists waiting to be run.
#[derive(Debug)]
pub struct DispatchQueue {
    pending: Vec<ComboAction>,
    capacity: usize,
}

impl View for DispatchQueue {
    type V = Seq<ActionView>;

    closed spec fn view(&self) -> Seq<ActionView> {
        self.pending@.map_values(|a: ComboAction| a@)
    }
}

impl DispatchQueue {
    pub closed spec fn spec_capacity(&self) -> nat {
        self.capacity as nat
    }

    pub open spec fn wf(&self) -> bool {
        1 <= self.spec_capacity() && self@.len() <= self.spec_capacity()
    }

    /// An empty queue holding at most `capacity` lists.
    pub fn new(capacity: usize) -> (r: DispatchQueue)
        requires
            capacity >= 1,
        ensures
            r.wf(),
            r@ == Seq::<ActionView>::empty(),
            r.spec_capacity() == capacity,
    {
        let r = DispatchQueue { pending: Vec::new(), capacity };
        assert(r@ =~= Seq::<ActionView>::empty());
        r
    }

    pub fn capacity(&self) -> (r: usize)
        ensures
            r == self.spec_capacity(),
    {
        self.capacity
    }

    pub fn len(&self) -> (r: usize)
        ensures
            r == self@.len(),
    {
        self.pending.len()
    }

    /// Submits `action`; when the queue is full its oldest entry is dropped
    /// first, and the result says so.
    pub fn enqueue(&mut self, action: ComboAction) -> (dropped: bool)
        requires
            old(self).wf(),
        ensures
            final(self).wf(),
            final(self).spec_capacity() == old(self).spec_capacity(),
            final(self)@ == queue_push(old(self)@, action@, old(self).spec_capacity()),
            dropped == (old(self)@.len() >= old(self).spec_capacity()),
    {
        let ghost before = self.pending@;
        let ghost a = action@;
        let dropped = self.pending.len() >= self.capacity;
        if dropped {
            self.pending.remove(0);
            assert(self.pending@ == before.subrange(1, before.len() as int));
        }
        self.pending.push(action);
        assert(self@ =~= queue_push(old(self)@, a, self.capacity as nat));
        dropped
    }

    /// Hands out the oldest waiting list, if any.
    pub fn pop(&mut self) -> (r: Option<ComboAction>)
        requires
            old(self).wf(),
        ensures
            final(self).wf(),
            final(self).spec_capacity() == old(self).spec_capacity(),
            match r {
                Some(a) => old(self)@.len() > 0 && a@ == old(self)@[0] && final(self)@
                    == old(self)@.drop_first(),
                None => old(self)@.len() == 0 && final(self)@ == old(self)@,
            },
    {
        if self.pending.len() == 0 {
            return None;
        }
        let ghost before = self@;
        let a = self.pending.remove(0);
        assert(self@ =~= before.drop_first());
        Some(a)
    }
}

/// Submitting lists one after another to a queue of capacity `capacity`
/// leaves the last `capacity` of everything submitted, in submission order:
/// older lists are the ones dropped.
pub proof fn lemma_queue_keeps_latest<A>(q: Seq<A>, items: Seq<A>, capacity: nat)
    requires
        capacity >= 1,
        q.len() <= capacity,
    ensures
        queue_push_all(q, items, capacity) == keep_last(q + items, capacity),
    decreases items.len(),
{
    if items.len() == 0 {
        assert(q + items =~= q);
    } else {
        let s = q.push(items[0]);
        let rest = items.drop_first();
        let q1 = queue_push(q, items[0], capacity);
        lemma_queue_keeps_latest(q1, rest, capacity);
        assert(s + rest =~= q + items);
        if s.len() <= capacity {
            assert(q1 == s);
        } else {
            assert(q1 + rest =~= (s + rest).drop_first());
            assert(keep_last(q1 + rest, capacity) =~= keep_last(s + rest, capacity));
        }
    }
}

} // verus!
