use lol_macro::actions::{plan_actions, typeable, Output, SETTLE_DELAY_MS};
use lol_macro::config::hero::{Key, KeyAction, MouseButton};

#[test]
fn press_is_down_settle_up() {
    let k = Key::Character('q');
    assert_eq!(
        plan_actions(&vec![KeyAction::Press(k)]),
        vec![Output::KeyDown(k), Output::Pause(SETTLE_DELAY_MS), Output::KeyUp(k)]
    );
    assert_eq!(SETTLE_DELAY_MS, 50);
}

#[test]
fn steps_expand_in_order() {
    let plan = plan_actions(&vec![
        KeyAction::Down(Key::Shift),
        KeyAction::Delay(30),
        KeyAction::MouseClick(10, -5, MouseButton::Right),
        KeyAction::Up(Key::Shift),
    ]);
    assert_eq!(
        plan,
        vec![
            Output::KeyDown(Key::Shift),
            Output::Pause(30),
            Output::Click(10, -5, MouseButton::Right),
            Output::KeyUp(Key::Shift),
        ]
    );
}

#[test]
fn empty_list_does_nothing() {
    assert!(plan_actions(&vec![]).is_empty());
}

#[test]
fn typeable_characters() {
    assert!(typeable('a') && typeable('Z') && typeable('0') && typeable('9'));
    assert!(!typeable(' ') && !typeable('\0') && !typeable('é') && !typeable('['));
}
