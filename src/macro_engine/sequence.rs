use crate::config::hero::Key;
use vstd::prelude::*;

verus! {

/// How long a key press stays in the window by default, in milliseconds.
pub const DEFAULT_RETENTION_MS: u64 = 1000;

/// Timestamps never decrease from front to back.
pub open spec fn time_ordered(s: Seq<(Key, u64)>) -> bool {
    forall|i: int, j: int| 0 <= i <= j < s.len() ==> s[i].1 <= s[j].1
}

/// Drops entries from the front for as long as the front entry is more than
/// `retention` milliseconds older than `now`.
pub open spec fn drop_stale(s: Seq<(Key, u64)>, now: u64, retention: u64) -> Seq<(Key, u64)>
    decreases s.len(),
{
    if s.len() > 0 && now - s[0].1 > retention {
        drop_stale(s.drop_first(), now, retention)
    } else {
        s
    }
}

/// The window after a press of `key` at `now`.
pub open spec fn window_push(s: Seq<(Key, u64)>, key: Key, now: u64, retention: u64) -> Seq<
    (Key, u64),
> {
    drop_stale(s.push((key, now)), now, retention)
}

/// Whether a press at `now` keeps the window in time order.
pub open spec fn in_time_order(s: Seq<(Key, u64)>, now: u64) -> bool {
    s.len() > 0 ==> s.last().1 <= now
}

/// Recent key presses, oldest first, each with its timestamp in milliseconds.
#[derive(Debug)]
pub struct SequenceWindow {
    entries: Vec<(Key, u64)>,
    retention_ms: u64,
}

impl View for SequenceWindow {
    type V = Seq<(Key, u64)>;

    closed spec fn view(&self) -> Seq<(Key, u64)> {
        self.entries@
    }
}

impl SequenceWindow {
    pub closed spec fn retention(&self) -> u64 {
        self.retention_ms
    }

    pub open spec fn wf(&self) -> bool {
        time_ordered(self@)
    }

    /// An empty window that keeps presses for `retention_ms` milliseconds.
    pub fn new(retention_ms: u64) -> (r: SequenceWindow)
        ensures
            r.wf(),
            r@ == Seq::<(Key, u64)>::empty(),
            r.retention() == retention_ms,
    {
        SequenceWindow { entries: Vec::new(), retention_ms }
    }

    pub fn retention_ms(&self) -> (r: u64)
        ensures
            r == self.retention(),
    {
        self.retention_ms
    }

    /// The timestamp of the newest entry, if any.
    pub fn latest_timestamp(&self) -> (r: Option<u64>)
        ensures
            r == (if self@.len() > 0 {
                Some(self@.last().1)
            } else {
                None::<u64>
            }),
    {
        if self.entries.len() > 0 {
            Some(self.entries[self.entries.len() - 1].1)
        } else {
            None
        }
    }

    /// The entries, oldest first.
    pub fn snapshot(&self) -> (r: &Vec<(Key, u64)>)
        ensures
            r@ == self@,
    {
        &self.entries
    }

    /// Records a press of `key` at `now`, then forgets every press more than
    /// the retention older than `now`.
    pub fn push(&mut self, key: Key, now: u64)
        requires
            old(self).wf(),
            in_time_order(old(self)@, now),
        ensures
            final(self).wf(),
            final(self).retention() == old(self).retention(),
            final(self)@ == window_push(old(self)@, key, now, old(self).retention()),
    {
        let ghost ret = self.retention_ms;
        self.entries.push((key, now));
        let ghost pushed = self.entries@;
        proof {
            lemma_push_in_time_order(old(self)@, key, now);
        }
        assert(pushed.subrange(0, pushed.len() as int) =~= pushed);
        let mut k: usize = 0;
        while k < self.entries.len() && now - self.entries[k].1 > self.retention_ms
            invariant
                self.entries@ == pushed,
                self.retention_ms == ret,
                k <= pushed.len(),
                time_ordered(pushed),
                forall|j: int| 0 <= j < pushed.len() ==> #[trigger] pushed[j].1 <= now,
                drop_stale(pushed, now, ret) == drop_stale(
                    pushed.subrange(k as int, pushed.len() as int),
                    now,
                    ret,
                ),
            decreases pushed.len() - k,
        {
            assert(pushed.subrange(k as int, pushed.len() as int).drop_first() =~= pushed.subrange(
                k + 1,
                pushed.len() as int,
            ));
            k = k + 1;
        }
        let kept = self.entries.split_off(k);
        self.entries = kept;
    }
}

/// Appending a press no older than the newest entry keeps the window in
/// time order, with every entry at or before the new press.
pub proof fn lemma_push_in_time_order(s: Seq<(Key, u64)>, key: Key, now: u64)
    requires
        time_ordered(s),
        in_time_order(s, now),
    ensures
        time_ordered(s.push((key, now))),
        forall|j: int| 0 <= j < s.len() + 1 ==> #[trigger] s.push((key, now))[j].1 <= now,
{
    let pushed = s.push((key, now));
    assert forall|i: int, j: int| 0 <= i <= j < pushed.len() implies pushed[i].1 <= pushed[j].1 by {
        if j < s.len() {
            assert(pushed[i] == s[i] && pushed[j] == s[j]);
        } else if i < s.len() {
            assert(s[i].1 <= s.last().1);
        }
    }
    assert forall|j: int| 0 <= j < pushed.len() implies #[trigger] pushed[j].1 <= now by {
        assert(pushed[j].1 <= pushed[s.len() as int].1);
    }
}

/// After a press at `now`, every entry left in a time-ordered window is at
/// most the retention older than `now`: an older press takes part in no
/// later match, whatever the trigger's own time window.
pub proof fn lemma_pruned_entries_are_recent(s: Seq<(Key, u64)>, now: u64, retention: u64)
    requires
        time_ordered(s),
    ensures
        forall|i: int|
            0 <= i < drop_stale(s, now, retention).len() ==> now - #[trigger] drop_stale(
                s,
                now,
                retention,
            )[i].1 <= retention,
        time_ordered(drop_stale(s, now, retention)),
    decreases s.len(),
{
    if s.len() > 0 && now - s[0].1 > retention {
        lemma_pruned_entries_are_recent(s.drop_first(), now, retention);
    } else if s.len() > 0 {
        assert forall|i: int| 0 <= i < s.len() implies now - #[trigger] s[i].1 <= retention by {
            assert(s[0].1 <= s[i].1);
        }
    }
}

} // verus!
