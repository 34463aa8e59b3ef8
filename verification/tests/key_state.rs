use chess_thing::input::{
    ActionCode, Binding, Button, ComboToAction, KeyCombo, KeyInputState, MOD_ALT, MOD_CTRL,
    MOD_NONE, MOD_SHIFT,
};

const KEY_D: Button = Button::Keyboard(33);
const KEY_LEFT: Button = Button::Keyboard(75);
const KEY_LALT: Button = Button::Keyboard(105);

fn bindings() -> ComboToAction {
    ComboToAction(vec![
        Binding { combo: KeyCombo(MOD_ALT, KEY_D), actions: vec![ActionCode::Shoot] },
        Binding { combo: KeyCombo(MOD_NONE, KEY_LEFT), actions: vec![ActionCode::TurnLeft] },
        Binding {
            combo: KeyCombo(MOD_SHIFT | MOD_CTRL, Button::Mouse(0)),
            actions: vec![ActionCode::Click, ActionCode::CameraUp, ActionCode::Click],
        },
        Binding { combo: KeyCombo(MOD_ALT, KEY_D), actions: vec![ActionCode::CameraDown] },
    ])
}

fn held(state: &KeyInputState) -> Vec<ActionCode> {
    let mut v: Vec<ActionCode> = state.held_actions().clone();
    v.sort_by_key(|a| format!("{:?}", a));
    v
}

#[test]
fn a_combination_resolves_to_its_first_binding() {
    let table = bindings();
    assert_eq!(
        table.resolve_key_combo(&KeyCombo(MOD_ALT, KEY_D)),
        Some(&vec![ActionCode::Shoot])
    );
    assert_eq!(
        table.resolve_key_combo(&KeyCombo(MOD_NONE, KEY_LEFT)),
        Some(&vec![ActionCode::TurnLeft])
    );
    assert_eq!(table.resolve_key_combo(&KeyCombo(MOD_NONE, KEY_D)), None);
    assert_eq!(table.resolve_key_combo(&KeyCombo(MOD_ALT, Button::Nothing)), None);
    assert_eq!(ComboToAction(Vec::new()).resolve_key_combo(&KeyCombo(0, KEY_D)), None);
}

#[test]
fn a_new_state_holds_nothing() {
    let mut s = KeyInputState::new(bindings());
    assert!(s.held_actions().is_empty());
    assert_eq!(s.pressed_mods(), 0);
    assert!(!s.is_pressed(KEY_D));
    s.fixed_update();
    assert!(s.held_actions().is_empty());
}

#[test]
fn press_and_release_track_buttons_and_modifiers() {
    let mut s = KeyInputState::new(bindings());
    s.press(KEY_LALT, MOD_ALT);
    s.press(KEY_D, MOD_NONE);
    s.press(KEY_D, MOD_NONE);
    assert!(s.is_pressed(KEY_LALT));
    assert!(s.is_pressed(KEY_D));
    assert_eq!(s.pressed_mods(), MOD_ALT);
    s.release(KEY_D, MOD_NONE);
    assert!(!s.is_pressed(KEY_D));
    assert_eq!(s.pressed_mods(), MOD_ALT);
    s.release(KEY_LALT, MOD_ALT);
    assert!(!s.is_pressed(KEY_LALT));
    assert_eq!(s.pressed_mods(), 0);
    s.release(KEY_LALT, MOD_ALT);
    assert_eq!(s.pressed_mods(), 0);
}

#[test]
fn a_combination_that_is_down_holds_its_actions() {
    let mut s = KeyInputState::new(bindings());
    s.press(KEY_D, MOD_NONE);
    s.fixed_update();
    assert!(s.held_actions().is_empty());
    s.press(KEY_LALT, MOD_ALT);
    s.fixed_update();
    assert_eq!(held(&s), vec![ActionCode::CameraDown, ActionCode::Shoot]);
}

#[test]
fn actions_stay_held_until_button_and_modifier_are_both_up() {
    let mut s = KeyInputState::new(bindings());
    s.press(KEY_LALT, MOD_ALT);
    s.press(KEY_D, MOD_NONE);
    s.fixed_update();
    s.release(KEY_D, MOD_NONE);
    s.fixed_update();
    assert_eq!(held(&s), vec![ActionCode::CameraDown, ActionCode::Shoot]);
    s.press(KEY_D, MOD_NONE);
    s.release(KEY_LALT, MOD_ALT);
    s.fixed_update();
    assert_eq!(held(&s), vec![ActionCode::CameraDown, ActionCode::Shoot]);
    s.release(KEY_D, MOD_NONE);
    s.fixed_update();
    assert!(s.held_actions().is_empty());
}

#[test]
fn a_combination_without_modifiers_is_never_let_go() {
    let mut s = KeyInputState::new(bindings());
    s.press(KEY_LEFT, MOD_NONE);
    s.fixed_update();
    assert_eq!(held(&s), vec![ActionCode::TurnLeft]);
    s.release(KEY_LEFT, MOD_NONE);
    s.fixed_update();
    assert_eq!(held(&s), vec![ActionCode::TurnLeft]);
}

#[test]
fn every_modifier_of_a_combination_must_be_down() {
    let mut s = KeyInputState::new(bindings());
    s.press(Button::Mouse(0), MOD_NONE);
    s.press(Button::Keyboard(1), MOD_SHIFT);
    s.fixed_update();
    assert!(s.held_actions().is_empty());
    s.press(Button::Keyboard(2), MOD_CTRL);
    s.fixed_update();
    assert_eq!(held(&s), vec![ActionCode::CameraUp, ActionCode::Click]);
    assert_eq!(s.held_actions().len(), 2);
    s.fixed_update();
    assert_eq!(s.held_actions().len(), 2);
}
