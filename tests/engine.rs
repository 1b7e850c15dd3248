use lol_macro::config::hero::{HeroConfig, Key, KeyAction};
use lol_macro::heroes::{riven, yasuo, HeroRegistry};
use lol_macro::macro_engine::MacroEngine;

fn ch(c: char) -> Key {
    Key::Character(c)
}

fn engine_with(configs: Vec<HeroConfig>, active: &str) -> MacroEngine {
    let mut registry = HeroRegistry::new();
    for config in configs {
        let name = config.name.clone();
        registry.register_hero(&name, config);
    }
    MacroEngine::new(registry, active.to_string())
}

fn simultaneous_profile() -> HeroConfig {
    let mut config = HeroConfig::new("duo");
    config.add_combo(
        "ab",
        vec![ch('a'), ch('b')],
        vec![KeyAction::Press(ch('x'))],
        None,
        true,
        vec![],
    );
    config
}

fn sequential_profile(window_ms: u64) -> HeroConfig {
    let mut config = HeroConfig::new("seq");
    config.add_combo(
        "er",
        vec![ch('e'), ch('r')],
        vec![KeyAction::Press(ch('q')), KeyAction::Press(ch('r'))],
        Some(window_ms),
        true,
        vec![ch('r')],
    );
    config
}

#[test]
fn simultaneous_match_a_then_b() {
    let mut engine = engine_with(vec![simultaneous_profile()], "duo");
    assert!(!engine.process_key_event(ch('a'), true, 0));
    assert!(engine.process_key_event(ch('b'), true, 10));
    let action = engine.take_next_action().expect("queued");
    assert_eq!(action.keys, vec![KeyAction::Press(ch('x'))]);
}

#[test]
fn simultaneous_match_b_then_a() {
    let mut engine = engine_with(vec![simultaneous_profile()], "duo");
    assert!(!engine.process_key_event(ch('b'), true, 0));
    assert!(engine.process_key_event(ch('a'), true, 10));
    assert!(engine.take_next_action().is_some());
}

#[test]
fn simultaneous_no_match_after_release() {
    let mut engine = engine_with(vec![simultaneous_profile()], "duo");
    assert!(!engine.process_key_event(ch('a'), true, 0));
    assert!(!engine.process_key_event(ch('a'), false, 5));
    assert!(!engine.process_key_event(ch('b'), true, 10));
    assert!(engine.take_next_action().is_none());
}

#[test]
fn sequential_match_within_window() {
    let mut engine = engine_with(vec![sequential_profile(150)], "seq");
    assert!(!engine.process_key_event(ch('e'), true, 0));
    assert!(engine.process_key_event(ch('r'), true, 120));
    let action = engine.take_next_action().expect("queued");
    assert_eq!(action.keys, vec![KeyAction::Press(ch('q')), KeyAction::Press(ch('r'))]);
    assert!(action.block_original);
}

#[test]
fn sequential_no_match_outside_window() {
    let mut engine = engine_with(vec![sequential_profile(150)], "seq");
    assert!(!engine.process_key_event(ch('e'), true, 0));
    assert!(!engine.process_key_event(ch('r'), true, 200));
    assert!(engine.take_next_action().is_none());
}

#[test]
fn sequential_needs_contiguous_order() {
    let mut engine = engine_with(vec![sequential_profile(150)], "seq");
    assert!(!engine.process_key_event(ch('r'), true, 0));
    assert!(!engine.process_key_event(ch('e'), true, 10));
    assert!(!engine.process_key_event(ch('w'), true, 20));
    assert!(!engine.process_key_event(ch('r'), true, 30));
}

#[test]
fn suppression_is_exactly_once() {
    let mut engine = engine_with(vec![sequential_profile(150)], "seq");
    engine.process_key_event(ch('e'), true, 0);
    assert!(engine.process_key_event(ch('r'), true, 120));
    assert!(engine.process_key_event(ch('r'), false, 130));
    assert!(!engine.process_key_event(ch('r'), false, 140));
}

#[test]
fn release_of_unblocked_key_passes() {
    let mut engine = engine_with(vec![sequential_profile(150)], "seq");
    engine.process_key_event(ch('e'), true, 0);
    assert!(!engine.process_key_event(ch('e'), false, 10));
}

#[test]
fn pruned_press_takes_no_part_in_match() {
    let mut registry = HeroRegistry::new();
    registry.register_hero("seq", sequential_profile(5000));
    let mut engine = MacroEngine::with_limits(registry, "seq".to_string(), 1000, 8);
    assert!(!engine.process_key_event(ch('e'), true, 0));
    assert!(!engine.process_key_event(ch('r'), true, 1001));
    assert!(engine.take_next_action().is_none());
}

#[test]
fn press_at_retention_edge_still_matches() {
    let mut registry = HeroRegistry::new();
    registry.register_hero("seq", sequential_profile(5000));
    let mut engine = MacroEngine::with_limits(registry, "seq".to_string(), 1000, 8);
    assert!(!engine.process_key_event(ch('e'), true, 0));
    assert!(engine.process_key_event(ch('r'), true, 1000));
}

fn tie_profile() -> HeroConfig {
    let mut config = HeroConfig::new("tie");
    config.add_combo("first", vec![ch('a')], vec![KeyAction::Press(ch('1'))], None, false, vec![]);
    config.add_combo("second", vec![ch('a')], vec![KeyAction::Press(ch('2'))], None, true, vec![]);
    config
}

#[test]
fn first_declared_trigger_wins() {
    for _ in 0..5 {
        let mut engine = engine_with(vec![tie_profile()], "tie");
        assert!(!engine.process_key_event(ch('a'), true, 0));
        let action = engine.take_next_action().expect("queued");
        assert_eq!(action.keys, vec![KeyAction::Press(ch('1'))]);
        assert!(engine.take_next_action().is_none());
    }
}

#[test]
fn hotkey_switches_profile() {
    let mut engine = engine_with(vec![yasuo::create_config(), riven::create_config()], "yasuo");
    assert!(engine.process_key_event(Key::F2, true, 0));
    assert_eq!(engine.current_profile(), "riven");
    assert!(engine.process_key_event(Key::F2, true, 10));
    assert_eq!(engine.current_profile(), "riven");
    assert!(engine.take_next_action().is_none());
}

#[test]
fn hotkey_press_does_not_enter_window() {
    let mut config = sequential_profile(150);
    config.set_hotkey(vec![ch('e')]);
    let mut engine = engine_with(vec![config], "seq");
    assert!(engine.process_key_event(ch('e'), true, 0));
    assert!(!engine.process_key_event(ch('r'), true, 10));
    assert_eq!(engine.latest_timestamp(), Some(10));
}

#[test]
fn first_registered_hotkey_wins() {
    let mut engine = engine_with(vec![yasuo::create_config(), riven::create_config()], "riven");
    assert!(engine.process_key_event(Key::F1, true, 0));
    assert_eq!(engine.current_profile(), "yasuo");
}

#[test]
fn riven_combo_does_not_block() {
    let mut engine = engine_with(vec![riven::create_config()], "riven");
    assert!(!engine.process_key_event(ch('q'), true, 0));
    let action = engine.take_next_action().expect("queued");
    assert_eq!(action.keys.len(), 3);
    assert!(!action.block_original);
}

#[test]
fn yasuo_eqd_combo_fires() {
    let mut engine = engine_with(vec![yasuo::create_config()], "yasuo");
    assert!(!engine.process_key_event(ch('e'), true, 0));
    assert!(engine.process_key_event(ch('d'), true, 250));
    let action = engine.take_next_action().expect("queued");
    assert_eq!(action.keys, vec![KeyAction::Press(ch('q')), KeyAction::Press(ch('d'))]);
    assert!(engine.process_key_event(ch('d'), false, 260));
}

#[test]
fn unknown_active_profile_never_matches() {
    let mut engine = engine_with(vec![simultaneous_profile()], "default");
    assert!(!engine.process_key_event(ch('a'), true, 0));
    assert!(!engine.process_key_event(ch('b'), true, 1));
    assert!(engine.take_next_action().is_none());
}

#[test]
fn switch_profile_by_name() {
    let mut engine = engine_with(vec![yasuo::create_config(), riven::create_config()], "yasuo");
    assert!(engine.switch_profile("riven"));
    assert_eq!(engine.current_profile(), "riven");
    assert!(!engine.switch_profile("teemo"));
    assert_eq!(engine.current_profile(), "riven");
}

#[test]
fn profile_names_in_registration_order() {
    let mut engine = engine_with(vec![yasuo::create_config(), riven::create_config()], "yasuo");
    engine.register_profile("ahri", HeroConfig::new("ahri"));
    engine.register_profile("yasuo", HeroConfig::new("yasuo"));
    assert_eq!(engine.list_profile_names(), vec!["yasuo", "riven", "ahri"]);
}

#[test]
fn queue_overflow_drops_oldest() {
    let mut registry = HeroRegistry::new();
    let mut config = HeroConfig::new("keys");
    config.add_combo("a", vec![ch('a')], vec![KeyAction::Press(ch('1'))], None, false, vec![]);
    config.add_combo("b", vec![ch('b')], vec![KeyAction::Press(ch('2'))], None, false, vec![]);
    config.add_combo("c", vec![ch('c')], vec![KeyAction::Press(ch('3'))], None, false, vec![]);
    registry.register_hero("keys", config);
    let mut engine = MacroEngine::with_limits(registry, "keys".to_string(), 1000, 2);
    engine.process_key_event(ch('a'), true, 0);
    engine.process_key_event(ch('a'), false, 1);
    engine.process_key_event(ch('b'), true, 2);
    engine.process_key_event(ch('b'), false, 3);
    engine.process_key_event(ch('c'), true, 4);
    assert_eq!(engine.take_next_action().unwrap().keys, vec![KeyAction::Press(ch('2'))]);
    assert_eq!(engine.take_next_action().unwrap().keys, vec![KeyAction::Press(ch('3'))]);
    assert!(engine.take_next_action().is_none());
}

#[test]
fn replay_is_deterministic() {
    let events = vec![
        (ch('e'), true, 0u64),
        (ch('r'), true, 100),
        (ch('r'), false, 150),
        (ch('r'), false, 160),
        (Key::F2, true, 170),
        (ch('q'), true, 200),
        (ch('q'), false, 250),
        (Key::F1, true, 300),
        (ch('e'), true, 400),
        (ch('d'), true, 500),
        (ch('d'), false, 510),
    ];
    let mut runs = Vec::new();
    for _ in 0..2 {
        let mut engine = engine_with(vec![yasuo::create_config(), riven::create_config()], "yasuo");
        let mut decisions = Vec::new();
        for &(key, down, t) in &events {
            decisions.push(engine.process_key_event(key, down, t));
        }
        let mut dispatched = Vec::new();
        while let Some(action) = engine.take_next_action() {
            dispatched.push(action.keys);
        }
        runs.push((decisions, dispatched));
    }
    assert_eq!(runs[0], runs[1]);
    assert_eq!(
        runs[0].0,
        vec![false, true, true, false, true, false, false, true, false, true, true]
    );
    assert_eq!(runs[0].1.len(), 3);
}
