use icarus::vk_example_base::{
    event_kind, handle_event, Buttons, EventAction, Settings, WindowEvent, WindowEventKind,
    WindowState,
};

fn state() -> WindowState {
    WindowState {
        quit: false,
        paused: false,
        prepared: true,
        width: 1280,
        height: 720,
        dest_width: 1280,
        dest_height: 720,
        mouse_buttons: Buttons::default(),
        settings: Settings::default(),
        keys_left: false,
        keys_right: false,
        keys_up: false,
        keys_down: false,
        wm_delete_window: 77,
    }
}

#[test]
fn event_kinds_ignore_the_sent_bit() {
    assert_eq!(event_kind(33), WindowEventKind::ClientMessage);
    assert_eq!(event_kind(33 | 0x80), WindowEventKind::ClientMessage);
    assert_eq!(event_kind(6), WindowEventKind::MotionNotify);
    assert_eq!(event_kind(4), WindowEventKind::ButtonPress);
    assert_eq!(event_kind(5), WindowEventKind::ButtonRelease);
    assert_eq!(event_kind(2), WindowEventKind::KeyPress);
    assert_eq!(event_kind(3), WindowEventKind::KeyRelease);
    assert_eq!(event_kind(17), WindowEventKind::DestroyNotify);
    assert_eq!(event_kind(22), WindowEventKind::ConfigureNotify);
    assert_eq!(event_kind(12), WindowEventKind::Other);
}

#[test]
fn close_message_and_escape_quit() {
    let mut s = state();
    assert_eq!(handle_event(&mut s, WindowEvent::ClientMessage { data0: 5 }), EventAction::Nothing);
    assert!(!s.quit);
    handle_event(&mut s, WindowEvent::ClientMessage { data0: 77 });
    assert!(s.quit);
    let mut s = state();
    handle_event(&mut s, WindowEvent::KeyPress { detail: 9 });
    assert!(!s.quit);
    handle_event(&mut s, WindowEvent::KeyRelease { detail: 9 });
    assert!(s.quit);
    let mut s = state();
    handle_event(&mut s, WindowEvent::DestroyNotify);
    assert!(s.quit);
}

#[test]
fn mouse_buttons_and_motion() {
    let mut s = state();
    handle_event(&mut s, WindowEvent::ButtonPress { detail: 1 });
    handle_event(&mut s, WindowEvent::ButtonPress { detail: 3 });
    assert_eq!(s.mouse_buttons, Buttons { left: true, right: true, middle: false });
    handle_event(&mut s, WindowEvent::ButtonRelease { detail: 1 });
    assert_eq!(s.mouse_buttons, Buttons { left: false, right: true, middle: false });
    assert_eq!(
        handle_event(&mut s, WindowEvent::MotionNotify { x: -3, y: 40 }),
        EventAction::MouseMove { x: -3, y: 40 }
    );
}

#[test]
fn keys_steer_pause_and_hide_overlay() {
    let mut s = state();
    handle_event(&mut s, WindowEvent::KeyPress { detail: 25 });
    handle_event(&mut s, WindowEvent::KeyPress { detail: 38 });
    assert!(s.keys_up && s.keys_left && !s.keys_down && !s.keys_right);
    handle_event(&mut s, WindowEvent::KeyRelease { detail: 25 });
    assert!(!s.keys_up && s.keys_left);
    handle_event(&mut s, WindowEvent::KeyPress { detail: 33 });
    assert!(s.paused);
    handle_event(&mut s, WindowEvent::KeyPress { detail: 33 });
    assert!(!s.paused);
    assert!(s.settings.overlay);
    handle_event(&mut s, WindowEvent::KeyPress { detail: 67 });
    assert!(!s.settings.overlay);
    handle_event(&mut s, WindowEvent::KeyPress { detail: 67 });
    assert!(!s.settings.overlay);
}

#[test]
fn new_sizes_resize_a_prepared_window() {
    let mut s = state();
    assert_eq!(handle_event(&mut s, WindowEvent::ConfigureNotify { width: 1280, height: 720 }), EventAction::Nothing);
    assert_eq!(handle_event(&mut s, WindowEvent::ConfigureNotify { width: 800, height: 600 }), EventAction::Resize);
    assert_eq!((s.dest_width, s.dest_height), (800, 600));
    assert_eq!(handle_event(&mut s, WindowEvent::ConfigureNotify { width: 0, height: 600 }), EventAction::Nothing);
    assert_eq!((s.dest_width, s.dest_height), (0, 600));
    let mut s = state();
    s.prepared = false;
    assert_eq!(handle_event(&mut s, WindowEvent::ConfigureNotify { width: 800, height: 600 }), EventAction::Nothing);
    assert_eq!((s.dest_width, s.dest_height), (1280, 720));
}
