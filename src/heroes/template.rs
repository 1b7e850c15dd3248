use crate::config::hero::{ComboView, HeroConfig, Key};
use vstd::prelude::*;

verus! {

/// A profile called `name` with no combos, switched to with F1.
pub fn create_empty_config(name: &str) -> (r: HeroConfig)
    ensures
        r@.name == name@,
        r@.combos == Seq::<ComboView>::empty(),
        r@.hotkey == Some(seq![Key::F1]),
{
    let mut config = HeroConfig::new(name);
    config.set_hotkey(vec![Key::F1]);
    assert(config@.hotkey.unwrap() =~= seq![Key::F1]);
    config
}

} // verus!
