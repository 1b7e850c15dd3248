use vstd::prelude::*;

verus! {

/// A physical key, identified by what it is and nothing else.
#[derive(Clone, Copy, Debug, PartialEq, Eq, Hash, PartialOrd, Ord, Structural)]
pub enum Key {
    Character(char),
    Escape,
    Tab,
    CapsLock,
    Shift,
    Control,
    Alt,
    Space,
    Enter,
    F1,
    F2,
    F3,
    F4,
    F5,
    F6,
    F7,
    F8,
    F9,
    F10,
    F11,
    F12,
}

#[derive(Clone, Copy, Debug, PartialEq, Eq, Hash, Structural)]
pub enum MouseButton {
    Left,
    Right,
    Middle,
}

/// One step of a scripted output.
#[derive(Clone, Copy, Debug, PartialEq, Eq, Structural)]
pub enum KeyAction {
    /// Press and release a key.
    Press(Key),
    /// Press a key and keep it held.
    Down(Key),
    /// Release a key.
    Up(Key),
    /// Wait for the given number of milliseconds.
    Delay(u64),
    /// Move the pointer by an offset, click, and move it back.
    MouseClick(i32, i32, MouseButton),
}

/// What an action list means: its steps, and whether the key that fired it
/// is swallowed.
pub struct ActionView {
    pub steps: Seq<KeyAction>,
    pub block_original: bool,
}

/// An ordered script of output steps.
#[derive(Debug)]
pub struct ComboAction {
    pub keys: Vec<KeyAction>,
    pub block_original: bool,
}

impl View for ComboAction {
    type V = ActionView;

    open spec fn view(&self) -> ActionView {
        ActionView { steps: self.keys@, block_original: self.block_original }
    }
}

impl ComboAction {
    /// A copy of this action list.
    pub fn duplicate(&self) -> (r: ComboAction)
        ensures
            r@ == self@,
    {
        ComboAction { keys: copy_actions(&self.keys), block_original: self.block_original }
    }
}

/// What a trigger means.
pub struct TriggerView {
    pub sequence: Seq<Key>,
    pub time_window: Option<u64>,
    pub block_keys: Set<Key>,
}

/// The condition under which a combo fires.
///
/// Without a time window every key of `sequence` must be held at once; with
/// one, the most recent presses must be exactly `sequence`, in order, within
/// `time_window` milliseconds from first to last. `block_keys` is read as a
/// set: the order and repetitions of its elements carry no meaning.
#[derive(Debug)]
pub struct ComboTrigger {
    pub sequence: Vec<Key>,
    pub time_window: Option<u64>,
    pub block_keys: Vec<Key>,
}

impl View for ComboTrigger {
    type V = TriggerView;

    open spec fn view(&self) -> TriggerView {
        TriggerView {
            sequence: self.sequence@,
            time_window: self.time_window,
            block_keys: self.block_keys@.to_set(),
        }
    }
}

/// What a named combo means.
pub struct ComboView {
    pub name: Seq<char>,
    pub trigger: TriggerView,
    pub action: ActionView,
}

/// A named trigger together with the actions it fires.
#[derive(Debug)]
pub struct Combo {
    pub name: String,
    pub trigger: ComboTrigger,
    pub action: ComboAction,
}

impl View for Combo {
    type V = ComboView;

    open spec fn view(&self) -> ComboView {
        ComboView { name: self.name@, trigger: self.trigger@, action: self.action@ }
    }
}

/// What a profile means: its name, its combos in declaration order and its
/// switching hotkey.
pub struct ProfileView {
    pub name: Seq<char>,
    pub combos: Seq<ComboView>,
    pub hotkey: Option<Seq<Key>>,
}

/// A named set of combos with an optional hotkey that makes it active.
#[derive(Debug)]
pub struct HeroConfig {
    pub name: String,
    /// Combos in the order in which they were first declared; the first that
    /// matches wins.
    pub combos: Vec<Combo>,
    pub hotkey: Option<Vec<Key>>,
}

pub open spec fn hotkey_view(h: Option<Vec<Key>>) -> Option<Seq<Key>> {
    match h {
        Some(v) => Some(v@),
        None => None,
    }
}

impl View for HeroConfig {
    type V = ProfileView;

    open spec fn view(&self) -> ProfileView {
        ProfileView {
            name: self.name@,
            combos: self.combos@.map_values(|c: Combo| c@),
            hotkey: hotkey_view(self.hotkey),
        }
    }
}

/// The position of the first combo called `name`, if any.
pub open spec fn combo_index_from(combos: Seq<ComboView>, name: Seq<char>, i: int) -> Option<int>
    decreases combos.len() - i,
{
    if i < 0 || i >= combos.len() {
        None
    } else if combos[i].name == name {
        Some(i)
    } else {
        combo_index_from(combos, name, i + 1)
    }
}

pub open spec fn combo_index(combos: Seq<ComboView>, name: Seq<char>) -> Option<int> {
    combo_index_from(combos, name, 0)
}

/// Adding a combo replaces the one of the same name where it stood, or else
/// appends it.
pub open spec fn upsert_combo(combos: Seq<ComboView>, c: ComboView) -> Seq<ComboView> {
    match combo_index(combos, c.name) {
        Some(i) => combos.update(i, c),
        None => combos.push(c),
    }
}

pub fn copy_actions(steps: &Vec<KeyAction>) -> (r: Vec<KeyAction>)
    ensures
        r@ == steps@,
{
    let mut r: Vec<KeyAction> = Vec::new();
    let mut i: usize = 0;
    while i < steps.len()
        invariant
            i <= steps.len(),
            r@ == steps@.subrange(0, i as int),
        decreases steps.len() - i,
    {
        r.push(steps[i]);
        i = i + 1;
    }
    assert(r@ =~= steps@);
    r
}

impl HeroConfig {
    /// An empty profile called `name`, without a hotkey.
    pub fn new(name: &str) -> (r: HeroConfig)
        ensures
            r@.name == name@,
            r@.combos == Seq::<ComboView>::empty(),
            r@.hotkey == None::<Seq<Key>>,
    {
        let r = HeroConfig { name: name.to_owned(), combos: Vec::new(), hotkey: None };
        assert(r@.combos =~= Seq::<ComboView>::empty());
        r
    }

    /// Declares the combo `name`; one of that name already present is
    /// replaced in place.
    #[verifier::loop_isolation(false)]
    pub fn add_combo(
        &mut self,
        name: &str,
        sequence: Vec<Key>,
        actions: Vec<KeyAction>,
        time_window: Option<u64>,
        block_original: bool,
        block_keys: Vec<Key>,
    )
        ensures
            final(self)@.name == old(self)@.name,
            final(self)@.hotkey == old(self)@.hotkey,
            final(self)@.combos == upsert_combo(
                old(self)@.combos,
                ComboView {
                    name: name@,
                    trigger: TriggerView {
                        sequence: sequence@,
                        time_window,
                        block_keys: block_keys@.to_set(),
                    },
                    action: ActionView { steps: actions@, block_original },
                },
            ),
    {
        let trigger = ComboTrigger { sequence, time_window, block_keys };
        let action = ComboAction { keys: actions, block_original };
        let combo = Combo { name: name.to_owned(), trigger, action };
        let ghost old_combos = self@.combos;
        let mut i: usize = 0;
        while i < self.combos.len()
            invariant
                i <= self.combos.len(),
                self@.combos == old_combos,
                self.name == old(self).name,
                self.hotkey == old(self).hotkey,
                combo_index(old_combos, combo@.name) == combo_index_from(
                    old_combos,
                    combo@.name,
                    i as int,
                ),
            decreases self.combos.len() - i,
        {
            if self.combos[i].name == combo.name {
                let ghost c = combo@;
                assert(old_combos[i as int].name == c.name);
                assert(combo_index(old_combos, c.name) == Some(i as int));
                self.combos.set(i, combo);
                assert(self@.combos =~= old_combos.update(i as int, c));
                return;
            }
            i = i + 1;
        }
        let ghost c = combo@;
        self.combos.push(combo);
        assert(self@.combos =~= old_combos.push(c));
    }

    /// Makes `keys` the hotkey of this profile.
    pub fn set_hotkey(&mut self, keys: Vec<Key>)
        ensures
            final(self)@.name == old(self)@.name,
            final(self)@.combos == old(self)@.combos,
            final(self)@.hotkey == Some(keys@),
    {
        self.hotkey = Some(keys);
    }
}

} // verus!
