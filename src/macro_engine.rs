pub mod combo;
pub mod dispatch;
pub mod event_processor;
pub mod key_set;
pub mod matcher;
pub mod sequence;
pub mod suppression;
pub mod timing;

use crate::config::hero::{ActionView, ComboAction, HeroConfig, Key};
use crate::heroes::{
    hotkey_index, profile_index, profile_names, register, string_views, HeroRegistry, RegistryView,
};
use crate::macro_engine::dispatch::{queue_push, DispatchQueue, DEFAULT_QUEUE_CAPACITY};
use crate::macro_engine::event_processor::KeyEventProcessor;
use crate::macro_engine::matcher::{find_matching_combo, first_match};
use crate::macro_engine::sequence::{
    in_time_order, lemma_pruned_entries_are_recent, lemma_push_in_time_order, time_ordered,
    window_push, SequenceWindow, DEFAULT_RETENTION_MS,
};
use crate::macro_engine::suppression::SuppressionSet;
use vstd::prelude::*;

verus! {

/// The whole detection state, as values.
pub struct EngineView {
    pub profiles: RegistryView,
    pub active: Seq<char>,
    pub down: Set<Key>,
    pub window: Seq<(Key, u64)>,
    pub retention: u64,
    pub blocked: Set<Key>,
    pub pending: Seq<ActionView>,
    pub capacity: nat,
}

impl EngineView {
    pub open spec fn wf(self) -> bool {
        &&& time_ordered(self.window)
        &&& self.capacity >= 1
        &&& self.pending.len() <= self.capacity
    }
}

/// The state of a fresh engine.
pub open spec fn initial(
    profiles: RegistryView,
    active: Seq<char>,
    retention: u64,
    capacity: nat,
) -> EngineView {
    EngineView {
        profiles,
        active,
        down: Set::empty(),
        window: Seq::empty(),
        retention,
        blocked: Set::empty(),
        pending: Seq::empty(),
        capacity,
    }
}

/// One key event: the next state, and whether the event is swallowed.
///
/// The key's held state is updated first. A release is swallowed exactly when
/// the key was blocked, and unblocks it. A press of a profile's hotkey makes
/// that profile active and is swallowed. Any other press enters the window;
/// then the first combo of the active profile whose trigger is met queues its
/// action list, blocks its keys, and decides by its `block_original`.
pub open spec fn step(m: EngineView, key: Key, is_down: bool, now: u64) -> (EngineView, bool) {
    if !is_down {
        (
            EngineView { down: m.down.remove(key), blocked: m.blocked.remove(key), ..m },
            m.blocked.contains(key),
        )
    } else {
        let down = m.down.insert(key);
        match hotkey_index(m.profiles, key) {
            Some(h) => (EngineView { down, active: m.profiles[h].0, ..m }, true),
            None => {
                let window = window_push(m.window, key, now, m.retention);
                let pressed = EngineView { down, window, ..m };
                match profile_index(m.profiles, m.active) {
                    None => (pressed, false),
                    Some(p) => match first_match(m.profiles[p].1.combos, down, window) {
                        None => (pressed, false),
                        Some(c) => {
                            let combo = m.profiles[p].1.combos[c];
                            (
                                EngineView {
                                    blocked: m.blocked.union(combo.trigger.block_keys),
                                    pending: queue_push(m.pending, combo.action, m.capacity),
                                    ..pressed
                                },
                                combo.action.block_original,
                            )
                        },
                    },
                }
            },
        }
    }
}

/// A run of events from `m`: the final state and each event's decision.
pub open spec fn run(m: EngineView, events: Seq<(Key, bool, u64)>) -> (EngineView, Seq<bool>)
    decreases events.len(),
{
    if events.len() == 0 {
        (m, Seq::empty())
    } else {
        let (m1, r) = step(m, events[0].0, events[0].1, events[0].2);
        let (last, rs) = run(m1, events.drop_first());
        (last, seq![r] + rs)
    }
}

/// Turns key events into decisions: which events to swallow and which action
/// lists to run.
#[derive(Debug)]
pub struct MacroEngine {
    hero_registry: HeroRegistry,
    active_hero: String,
    event_processor: KeyEventProcessor,
    key_sequence: SequenceWindow,
    blocked_keys: SuppressionSet,
    dispatch: DispatchQueue,
}

impl View for MacroEngine {
    type V = EngineView;

    closed spec fn view(&self) -> EngineView {
        EngineView {
            profiles: self.hero_registry@,
            active: self.active_hero@,
            down: self.event_processor@,
            window: self.key_sequence@,
            retention: self.key_sequence.retention(),
            blocked: self.blocked_keys@,
            pending: self.dispatch@,
            capacity: self.dispatch.spec_capacity(),
        }
    }
}

impl MacroEngine {
    pub closed spec fn wf(&self) -> bool {
        &&& self.event_processor.wf()
        &&& self.key_sequence.wf()
        &&& self.blocked_keys.wf()
        &&& self.dispatch.wf()
    }

    /// An engine with the default retention and queue capacity, in which
    /// `active_hero` is the active profile.
    pub fn new(hero_registry: HeroRegistry, active_hero: String) -> (r: MacroEngine)
        ensures
            r.wf(),
            r@.wf(),
            r@ == initial(
                hero_registry@,
                active_hero@,
                DEFAULT_RETENTION_MS,
                DEFAULT_QUEUE_CAPACITY as nat,
            ),
    {
        Self::with_limits(hero_registry, active_hero, DEFAULT_RETENTION_MS, DEFAULT_QUEUE_CAPACITY)
    }

    /// An engine that keeps presses for `retention_ms` milliseconds and at
    /// most `queue_capacity` pending action lists.
    pub fn with_limits(
        hero_registry: HeroRegistry,
        active_hero: String,
        retention_ms: u64,
        queue_capacity: usize,
    ) -> (r: MacroEngine)
        requires
            queue_capacity >= 1,
        ensures
            r.wf(),
            r@.wf(),
            r@ == initial(hero_registry@, active_hero@, retention_ms, queue_capacity as nat),
    {
        MacroEngine {
            hero_registry,
            active_hero,
            event_processor: KeyEventProcessor::new(),
            key_sequence: SequenceWindow::new(retention_ms),
            blocked_keys: SuppressionSet::new(),
            dispatch: DispatchQueue::new(queue_capacity),
        }
    }

    /// Whether an event at `now` keeps the events in time order.
    pub open spec fn accepts_time(&self, now: u64) -> bool {
        in_time_order(self@.window, now)
    }

    /// The time of the newest press in the window; an event may not be
    /// earlier.
    pub fn latest_timestamp(&self) -> (r: Option<u64>)
        ensures
            r == (if self@.window.len() > 0 {
                Some(self@.window.last().1)
            } else {
                None::<u64>
            }),
    {
        self.key_sequence.latest_timestamp()
    }

    /// Handles a press (`is_down`) or release of `key` at `now` milliseconds;
    /// the result says whether the event is to be swallowed.
    pub fn process_key_event(&mut self, key: Key, is_down: bool, now: u64) -> (suppress: bool)
        requires
            old(self).wf(),
            old(self).accepts_time(now),
        ensures
            final(self).wf(),
            final(self)@.wf(),
            (final(self)@, suppress) == step(old(self)@, key, is_down, now),
    {
        self.event_processor.set_key_state(key, is_down);
        if !is_down {
            return self.blocked_keys.consume_if_blocked(key);
        }
        if self.check_hero_switch_hotkey(key) {
            return true;
        }
        self.key_sequence.push(key, now);
        match self.hero_registry.get_hero(self.active_hero.as_str()) {
            None => false,
            Some(config) => match find_matching_combo(config, &self.event_processor, &self.key_sequence) {
                None => false,
                Some(c) => {
                    let combo = &config.combos[c];
                    assert(config@.combos[c as int] == combo@);
                    self.blocked_keys.block(combo.trigger.block_keys.as_slice());
                    self.dispatch.enqueue(combo.action.duplicate());
                    combo.action.block_original
                },
            },
        }
    }

    /// Makes the first profile whose hotkey is `key` the active one; says
    /// whether there was one.
    fn check_hero_switch_hotkey(&mut self, key: Key) -> (r: bool)
        ensures
            r == (hotkey_index(old(self)@.profiles, key) is Some),
            final(self)@ == (match hotkey_index(old(self)@.profiles, key) {
                Some(h) => EngineView { active: old(self)@.profiles[h].0, ..old(self)@ },
                None => old(self)@,
            }),
            final(self).wf() == old(self).wf(),
    {
        match self.hero_registry.hotkey_hero(key) {
            Some(name) => {
                self.active_hero = name;
                true
            },
            None => false,
        }
    }

    /// Hands the oldest pending action list to whoever runs them.
    pub fn take_next_action(&mut self) -> (r: Option<ComboAction>)
        requires
            old(self).wf(),
        ensures
            final(self).wf(),
            match r {
                Some(a) => {
                    &&& old(self)@.pending.len() > 0
                    &&& a@ == old(self)@.pending[0]
                    &&& final(self)@ == (EngineView {
                        pending: old(self)@.pending.drop_first(),
                        ..old(self)@
                    })
                },
                None => old(self)@.pending.len() == 0 && final(self)@ == old(self)@,
            },
    {
        self.dispatch.pop()
    }

    /// Registers `config` as `name`, replacing a profile of that name.
    pub fn register_profile(&mut self, name: &str, config: HeroConfig)
        requires
            old(self).wf(),
        ensures
            final(self).wf(),
            final(self)@ == (EngineView {
                profiles: register(old(self)@.profiles, name@, config@),
                ..old(self)@
            }),
    {
        self.hero_registry.register_hero(name, config);
    }

    /// The registered profile names, in registration order.
    pub fn list_profile_names(&self) -> (r: Vec<String>)
        ensures
            string_views(r@) == profile_names(self@.profiles),
    {
        self.hero_registry.get_hero_names()
    }

    /// Makes `name` the active profile if it is registered; otherwise nothing
    /// changes and the result is false.
    pub fn switch_profile(&mut self, name: &str) -> (r: bool)
        requires
            old(self).wf(),
        ensures
            final(self).wf(),
            r == (profile_index(old(self)@.profiles, name@) is Some),
            final(self)@ == (if r {
                EngineView { active: name@, ..old(self)@ }
            } else {
                old(self)@
            }),
    {
        if self.hero_registry.get_hero(name).is_some() {
            self.active_hero = name.to_owned();
            true
        } else {
            false
        }
    }

    /// The name of the active profile.
    pub fn current_profile(&self) -> (r: String)
        ensures
            r@ == self@.active,
    {
        self.active_hero.clone()
    }
}

/// A blocked key's next release is swallowed and unblocks it; a second
/// release right after is not swallowed.
pub proof fn lemma_suppression_exactly_once(m: EngineView, key: Key, t1: u64, t2: u64)
    requires
        m.blocked.contains(key),
    ensures
        step(m, key, false, t1).1,
        !step(m, key, false, t1).0.blocked.contains(key),
        !step(step(m, key, false, t1).0, key, false, t2).1,
{
}

/// After a press that is no hotkey, every press left in the window is at
/// most the retention older than it, so an older press takes part in no
/// match from then on, whatever the trigger's own time window.
pub proof fn lemma_window_holds_recent_presses(m: EngineView, key: Key, now: u64)
    requires
        m.wf(),
        in_time_order(m.window, now),
        hotkey_index(m.profiles, key) is None,
    ensures
        forall|i: int|
            0 <= i < step(m, key, true, now).0.window.len() ==> now - (#[trigger] step(
                m,
                key,
                true,
                now,
            ).0.window[i]).1 <= m.retention,
{
    lemma_push_in_time_order(m.window, key, now);
    lemma_pruned_entries_are_recent(m.window.push((key, now)), now, m.retention);
}

/// Each event keeps the state well formed, when events come in time order.
pub proof fn lemma_step_preserves_wf(m: EngineView, key: Key, is_down: bool, now: u64)
    requires
        m.wf(),
        in_time_order(m.window, now),
    ensures
        step(m, key, is_down, now).0.wf(),
{
    lemma_push_in_time_order(m.window, key, now);
    lemma_pruned_entries_are_recent(m.window.push((key, now)), now, m.retention);
}

/// A press of a profile's hotkey makes that profile active and is swallowed;
/// pressing it again changes nothing and is swallowed again.
pub proof fn lemma_hotkey_switch_idempotent(m: EngineView, key: Key, t1: u64, t2: u64)
    requires
        hotkey_index(m.profiles, key) is Some,
    ensures
        step(m, key, true, t1).1,
        step(m, key, true, t1).0.active == m.profiles[hotkey_index(m.profiles, key).unwrap()].0,
        step(step(m, key, true, t1).0, key, true, t2) == (step(m, key, true, t1).0, true),
{
    let m1 = step(m, key, true, t1).0;
    assert(m1.down.insert(key) =~= m1.down);
}

/// Replaying the same events from the same state gives the same decisions,
/// the same queued action lists and the same final state.
pub proof fn lemma_replay_deterministic(
    m1: EngineView,
    m2: EngineView,
    events: Seq<(Key, bool, u64)>,
)
    requires
        m1 == m2,
    ensures
        run(m1, events) == run(m2, events),
{
}

} // verus!
