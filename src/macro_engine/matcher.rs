use crate::config::hero::{ComboTrigger, ComboView, HeroConfig, Key, TriggerView};
use crate::macro_engine::event_processor::{all_down, KeyEventProcessor};
use crate::macro_engine::sequence::{time_ordered, SequenceWindow};
use vstd::prelude::*;

verus! {

/// The last `sequence.len()` presses of `window` are `sequence`, in order,
/// and lie at most `time_window` milliseconds apart from first to last.
pub open spec fn sequence_matches(sequence: Seq<Key>, time_window: u64, window: Seq<(Key, u64)>) -> bool {
    let n = sequence.len();
    let w = window.len();
    &&& n <= w
    &&& forall|i: int| 0 <= i < n ==> #[trigger] window[w - n + i].0 == sequence[i]
    &&& n > 0 ==> window[w - 1].1 - window[w - n].1 <= time_window
}

/// A trigger without a time window asks that all its keys be held; one with
/// a time window asks that the latest presses be its sequence.
pub open spec fn trigger_matches(t: TriggerView, down: Set<Key>, window: Seq<(Key, u64)>) -> bool {
    match t.time_window {
        None => all_down(down, t.sequence),
        Some(tw) => sequence_matches(t.sequence, tw, window),
    }
}

/// The first combo at `i` or after whose trigger matches.
pub open spec fn first_match_from(
    combos: Seq<ComboView>,
    down: Set<Key>,
    window: Seq<(Key, u64)>,
    i: int,
) -> Option<int>
    decreases combos.len() - i,
{
    if i < 0 || i >= combos.len() {
        None
    } else if trigger_matches(combos[i].trigger, down, window) {
        Some(i)
    } else {
        first_match_from(combos, down, window, i + 1)
    }
}

/// The first combo, in declaration order, whose trigger matches.
pub open spec fn first_match(combos: Seq<ComboView>, down: Set<Key>, window: Seq<(Key, u64)>) -> Option<int> {
    first_match_from(combos, down, window, 0)
}

/// Whether `trigger` is met by the held keys and the recent presses.
#[verifier::loop_isolation(false)]
pub fn check_combo_trigger(
    trigger: &ComboTrigger,
    keys: &KeyEventProcessor,
    window: &SequenceWindow,
) -> (r: bool)
    requires
        window.wf(),
    ensures
        r == trigger_matches(trigger@, keys@, window@),
{
    match trigger.time_window {
        None => keys.are_keys_down(trigger.sequence.as_slice()),
        Some(time_window) => {
            let entries = window.snapshot();
            let n = trigger.sequence.len();
            let w = entries.len();
            if w < n {
                return false;
            }
            let mut i: usize = 0;
            while i < n
                invariant
                    i <= n,
                    n == trigger.sequence@.len(),
                    w == entries@.len(),
                    n <= w,
                    forall|j: int| 0 <= j < i ==> #[trigger] entries@[w - n + j].0 == trigger.sequence@[j],
                decreases n - i,
            {
                if entries[w - n + i].0 != trigger.sequence[i] {
                    assert(entries@[w - n + i as int].0 != trigger.sequence@[i as int]);
                    return false;
                }
                i = i + 1;
            }
            if n == 0 {
                return true;
            }
            assert(time_ordered(entries@));
            assert(entries@[w - n].1 <= entries@[w - 1].1);
            entries[w - 1].1 - entries[w - n].1 <= time_window
        },
    }
}

/// The position of the first combo of `config`, in declaration order, whose
/// trigger is met.
pub fn find_matching_combo(
    config: &HeroConfig,
    keys: &KeyEventProcessor,
    window: &SequenceWindow,
) -> (r: Option<usize>)
    requires
        window.wf(),
    ensures
        match r {
            Some(i) => i < config.combos@.len() && first_match(config@.combos, keys@, window@) == Some(
                i as int,
            ),
            None => first_match(config@.combos, keys@, window@) == None::<int>,
        },
{
    let ghost combos = config@.combos;
    let mut i: usize = 0;
    while i < config.combos.len()
        invariant
            i <= config.combos@.len(),
            combos == config@.combos,
            window.wf(),
            first_match(combos, keys@, window@) == first_match_from(combos, keys@, window@, i as int),
        decreases config.combos.len() - i,
    {
        if check_combo_trigger(&config.combos[i].trigger, keys, window) {
            return Some(i);
        }
        i = i + 1;
    }
    None
}

/// What the first match is: a matching combo before which none matches, or
/// none at all when no combo matches.
pub proof fn lemma_first_match_from(
    combos: Seq<ComboView>,
    down: Set<Key>,
    window: Seq<(Key, u64)>,
    i: int,
)
    requires
        0 <= i,
    ensures
        match first_match_from(combos, down, window, i) {
            Some(k) => i <= k < combos.len() && trigger_matches(combos[k].trigger, down, window)
                && forall|j: int| i <= j < k ==> !trigger_matches(#[trigger] combos[j].trigger, down, window),
            None => forall|j: int| i <= j < combos.len() ==> !trigger_matches(#[trigger] combos[j].trigger, down, window),
        },
    decreases combos.len() - i,
{
    if i < combos.len() && !trigger_matches(combos[i].trigger, down, window) {
        lemma_first_match_from(combos, down, window, i + 1);
    }
}

/// Of two combos whose triggers are both met, the one declared first is the
/// one chosen, or one declared earlier still; the later one never is.
pub proof fn lemma_first_declared_wins(
    combos: Seq<ComboView>,
    down: Set<Key>,
    window: Seq<(Key, u64)>,
    i: int,
    j: int,
)
    requires
        0 <= i < j < combos.len(),
        trigger_matches(combos[i].trigger, down, window),
        trigger_matches(combos[j].trigger, down, window),
    ensures
        first_match(combos, down, window) is Some,
        first_match(combos, down, window).unwrap() <= i,
        first_match(combos, down, window) != Some(j),
{
    lemma_first_match_from(combos, down, window, 0);
}

/// A trigger without a time window looks at the held keys alone: the order in
/// which they were pressed and the recent presses play no part, and releasing
/// any of its keys ends the match.
pub proof fn lemma_simultaneous_order_independent(
    t: TriggerView,
    down: Set<Key>,
    a: Key,
    b: Key,
    w1: Seq<(Key, u64)>,
    w2: Seq<(Key, u64)>,
)
    requires
        t.time_window is None,
    ensures
        trigger_matches(t, down.insert(a).insert(b), w1) == trigger_matches(
            t,
            down.insert(b).insert(a),
            w2,
        ),
        forall|i: int|
            0 <= i < t.sequence.len() ==> !trigger_matches(
                t,
                down.remove(#[trigger] t.sequence[i]),
                w1,
            ),
{
    assert(down.insert(a).insert(b) =~= down.insert(b).insert(a));
}

} // verus!
