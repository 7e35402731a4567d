use icarus::input::{ButtonId, InputState, KeyId};
use icarus::platform::{handle_platform_event, key_for_keysym, Config, PlatformEvent};

#[test]
fn key_symbols() {
    assert!(matches!(key_for_keysym(0xff1b), Some(KeyId::Esc)));
    assert!(matches!(key_for_keysym(0x77), Some(KeyId::W)));
    assert!(matches!(key_for_keysym(0xff53), Some(KeyId::Right)));
    assert!(key_for_keysym(0x41).is_none());
    assert!(key_for_keysym(0xff0d).is_none());
}

#[test]
fn key_events_count_for_any_key_too() {
    let mut input = InputState::default();
    let (mut w, mut h) = (800, 600);
    handle_platform_event(&mut input, &mut w, &mut h, PlatformEvent::Key { keysym: 0x61, is_down: true });
    assert!(input.was_key_pressed(KeyId::A));
    assert!(input.was_key_pressed(KeyId::Any));
    handle_platform_event(&mut input, &mut w, &mut h, PlatformEvent::Key { keysym: 0x7a, is_down: true });
    assert_eq!(input.keys[KeyId::Any as usize].half_transitions, 2);
    assert!(!input.is_key_down(KeyId::D));
    handle_platform_event(&mut input, &mut w, &mut h, PlatformEvent::Key { keysym: 0x61, is_down: false });
    assert!(input.was_key_released(KeyId::A));
    assert_eq!((w, h), (800, 600));
}

#[test]
fn button_events() {
    let mut input = InputState::default();
    let (mut w, mut h) = (800, 600);
    handle_platform_event(&mut input, &mut w, &mut h, PlatformEvent::Button { button: 3, is_down: true, x: 7, y: 9 });
    assert!(input.was_button_pressed(ButtonId::Right));
    assert_eq!((input.buttons[ButtonId::Right as usize].x, input.buttons[ButtonId::Right as usize].y), (7, 9));
    handle_platform_event(&mut input, &mut w, &mut h, PlatformEvent::Button { button: 4, is_down: true, x: 0, y: 0 });
    assert!(!input.is_button_down(ButtonId::Left));
    assert!(!input.is_button_down(ButtonId::Middle));
}

#[test]
fn configure_records_the_size() {
    let mut input = InputState::default();
    let (mut w, mut h) = (800, 600);
    handle_platform_event(&mut input, &mut w, &mut h, PlatformEvent::Configure { width: 1024, height: 768 });
    assert_eq!((w, h), (1024, 768));
    handle_platform_event(&mut input, &mut w, &mut h, PlatformEvent::Other);
    assert_eq!((w, h), (1024, 768));
}

#[test]
fn config_holds_size_and_title() {
    let c = Config { width: 1600, height: 900, app_name: String::from("Tetris") };
    assert_eq!((c.width, c.height, c.app_name.as_str()), (1600, 900, "Tetris"));
}
