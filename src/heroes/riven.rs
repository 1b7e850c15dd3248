use crate::config::hero::{ActionView, ComboView, HeroConfig, Key, KeyAction, MouseButton, TriggerView};
use vstd::prelude::*;

verus! {

/// Q on its own: press Q, wait 50 ms, right-click 10 px to the right to
/// cancel the animation; Q itself still goes through.
pub open spec fn q_cancel_combo() -> ComboView {
    ComboView {
        name: "q_cancel"@,
        trigger: TriggerView {
            sequence: seq![Key::Character('q')],
            time_window: None,
            block_keys: Seq::<Key>::empty().to_set(),
        },
        action: ActionView {
            steps: seq![
                KeyAction::Press(Key::Character('q')),
                KeyAction::Delay(50),
                KeyAction::MouseClick(10, 0, MouseButton::Right),
            ],
            block_original: false,
        },
    }
}

/// The Riven profile: one combo, switched to with F2.
pub fn create_config() -> (r: HeroConfig)
    ensures
        r@.name == "riven"@,
        r@.combos == seq![q_cancel_combo()],
        r@.hotkey == Some(seq![Key::F2]),
{
    let mut config = HeroConfig::new("riven");
    let sequence = vec![Key::Character('q')];
    let steps = vec![
        KeyAction::Press(Key::Character('q')),
        KeyAction::Delay(50),
        KeyAction::MouseClick(10, 0, MouseButton::Right),
    ];
    let block_keys: Vec<Key> = Vec::new();
    assert(sequence@ =~= seq![Key::Character('q')]);
    assert(steps@ =~= q_cancel_combo().action.steps);
    assert(block_keys@ =~= Seq::<Key>::empty());
    config.add_combo("q_cancel", sequence, steps, None, false, block_keys);
    assert(config@.combos =~~= seq![q_cancel_combo()]);
    config.set_hotkey(vec![Key::F2]);
    assert(config@.hotkey.unwrap() =~= seq![Key::F2]);
    config
}

} // verus!
