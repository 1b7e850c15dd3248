use crate::config::hero::{combo_index, combo_index_from, ActionView, ComboView, HeroConfig, Key, KeyAction, TriggerView};
use vstd::prelude::*;

verus! {

/// E, then R within 150 ms: cast Q and R, and swallow the R.
pub open spec fn eqr_combo() -> ComboView {
    ComboView {
        name: "eqr_combo"@,
        trigger: TriggerView {
            sequence: seq![Key::Character('e'), Key::Character('r')],
            time_window: Some(150),
            block_keys: seq![Key::Character('r')].to_set(),
        },
        action: ActionView {
            steps: seq![KeyAction::Press(Key::Character('q')), KeyAction::Press(Key::Character('r'))],
            block_original: true,
        },
    }
}

/// E, then D within 300 ms: cast Q and D, and swallow the D.
pub open spec fn eqd_combo() -> ComboView {
    ComboView {
        name: "eqd_combo"@,
        trigger: TriggerView {
            sequence: seq![Key::Character('e'), Key::Character('d')],
            time_window: Some(300),
            block_keys: seq![Key::Character('d')].to_set(),
        },
        action: ActionView {
            steps: seq![KeyAction::Press(Key::Character('q')), KeyAction::Press(Key::Character('d'))],
            block_original: true,
        },
    }
}

/// The Yasuo profile: its two combos in this order, switched to with F1.
pub fn create_config() -> (r: HeroConfig)
    ensures
        r@.name == "yasuo"@,
        r@.combos == seq![eqr_combo(), eqd_combo()],
        r@.hotkey == Some(seq![Key::F1]),
{
    let mut config = HeroConfig::new("yasuo");
    let sequence = vec![Key::Character('e'), Key::Character('r')];
    let steps = vec![KeyAction::Press(Key::Character('q')), KeyAction::Press(Key::Character('r'))];
    let block_keys = vec![Key::Character('r')];
    assert(sequence@ =~= eqr_combo().trigger.sequence);
    assert(steps@ =~= eqr_combo().action.steps);
    assert(block_keys@ =~= seq![Key::Character('r')]);
    config.add_combo("eqr_combo", sequence, steps, Some(150), true, block_keys);
    assert(config@.combos =~~= seq![eqr_combo()]);
    proof {
        reveal_strlit("eqr_combo");
        reveal_strlit("eqd_combo");
        assert("eqr_combo"@[2] != "eqd_combo"@[2]);
        assert(combo_index_from(config@.combos, "eqd_combo"@, 1) == None::<int>);
        assert(combo_index(config@.combos, "eqd_combo"@) == None::<int>);
    }
    let sequence = vec![Key::Character('e'), Key::Character('d')];
    let steps = vec![KeyAction::Press(Key::Character('q')), KeyAction::Press(Key::Character('d'))];
    let block_keys = vec![Key::Character('d')];
    assert(sequence@ =~= eqd_combo().trigger.sequence);
    assert(steps@ =~= eqd_combo().action.steps);
    assert(block_keys@ =~= seq![Key::Character('d')]);
    config.add_combo("eqd_combo", sequence, steps, Some(300), true, block_keys);
    assert(config@.combos =~~= seq![eqr_combo(), eqd_combo()]);
    config.set_hotkey(vec![Key::F1]);
    assert(config@.hotkey.unwrap() =~= seq![Key::F1]);
    config
}

} // verus!
