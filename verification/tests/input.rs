use icarus::input::{ButtonId, InputState, KeyId};

#[test]
fn default_state_is_idle() {
    let s = InputState::default();
    assert!(!s.is_key_down(KeyId::W));
    assert!(!s.was_key_pressed(KeyId::W));
    assert!(!s.was_key_released(KeyId::W));
    assert!(!s.is_button_down(ButtonId::Left));
    assert!(!s.was_button_pressed(ButtonId::Left));
    assert!(!s.was_button_released(ButtonId::Left));
}

#[test]
fn key_press_then_release_in_one_frame() {
    let mut s = InputState::default();
    s.set_key(KeyId::Esc, true);
    assert!(s.is_key_down(KeyId::Esc));
    assert!(s.was_key_pressed(KeyId::Esc));
    assert!(!s.was_key_released(KeyId::Esc));
    assert!(!s.is_key_down(KeyId::A));
    s.set_key(KeyId::Esc, false);
    assert!(!s.is_key_down(KeyId::Esc));
    assert!(!s.was_key_pressed(KeyId::Esc));
    assert!(s.was_key_released(KeyId::Esc));
    assert_eq!(s.keys[KeyId::Esc as usize].half_transitions, 2);
}

#[test]
fn reset_keeps_held_keys_and_clears_transitions() {
    let mut s = InputState::default();
    s.set_key(KeyId::Left, true);
    s.set_button(ButtonId::Right, true, 10, -5);
    s.reset_transitions();
    assert!(s.is_key_down(KeyId::Left));
    assert!(!s.was_key_pressed(KeyId::Left));
    assert!(s.is_button_down(ButtonId::Right));
    assert!(!s.was_button_pressed(ButtonId::Right));
    assert_eq!(s.buttons[ButtonId::Right as usize].x, 10);
    assert_eq!(s.buttons[ButtonId::Right as usize].y, -5);
    assert_eq!(s.buttons[ButtonId::Right as usize].half_transitions, 0);
}

#[test]
fn button_press_and_release() {
    let mut s = InputState::default();
    s.set_button(ButtonId::Middle, true, 3, 4);
    assert!(s.was_button_pressed(ButtonId::Middle));
    s.set_button(ButtonId::Middle, false, 5, 6);
    assert!(s.was_button_released(ButtonId::Middle));
    assert!(!s.is_button_down(ButtonId::Middle));
    assert_eq!(s.buttons[ButtonId::Middle as usize].x, 5);
    assert!(!s.is_button_down(ButtonId::Left));
}

#[test]
fn key_and_button_indices() {
    assert_eq!(KeyId::Any.index(), 0);
    assert_eq!(KeyId::Right.index(), 10);
    assert_eq!(ButtonId::Middle.index(), 3);
}
