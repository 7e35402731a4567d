//! What the game window does with the X events it receives: keys and mouse
//! buttons go into the input state, and a new size is recorded. The events
//! themselves are read from the X server by the program around the library.
use vstd::prelude::*;
use crate::input::{ButtonId, ButtonState, InputState, KeyId, KeyState};

verus! {

/// How a game window is opened: its size and its title.
pub struct Config {
    pub width: u32,
    pub height: u32,
    pub app_name: String,
}

/// An X event, with the fields that the window reads from it.
#[derive(Debug, Copy, Clone, PartialEq, Eq, Structural)]
pub enum PlatformEvent {
    /// A key, by its key symbol, went down or up.
    Key { keysym: u64, is_down: bool },
    /// A mouse button (1 left, 2 middle, 3 right) went down or up at (`x`, `y`).
    Button { button: u32, is_down: bool, x: i32, y: i32 },
    /// The window now has this size.
    Configure { width: i32, height: i32 },
    /// Anything else.
    Other,
}

/// The key that an X key symbol stands for, among those the input state
/// tracks: Escape, the letters A, D, P, S and W, and the four arrows.
pub open spec fn spec_key_for_keysym(keysym: u64) -> Option<KeyId> {
    if keysym == 0xff1b {
        Some(KeyId::Esc)
    } else if keysym == 0x61 {
        Some(KeyId::A)
    } else if keysym == 0x64 {
        Some(KeyId::D)
    } else if keysym == 0x70 {
        Some(KeyId::P)
    } else if keysym == 0x73 {
        Some(KeyId::S)
    } else if keysym == 0x77 {
        Some(KeyId::W)
    } else if keysym == 0xff54 {
        Some(KeyId::Down)
    } else if keysym == 0xff52 {
        Some(KeyId::Up)
    } else if keysym == 0xff51 {
        Some(KeyId::Left)
    } else if keysym == 0xff53 {
        Some(KeyId::Right)
    } else {
        None
    }
}

/// The key that an X key symbol stands for, if the input state tracks it.
pub fn key_for_keysym(keysym: u64) -> (k: Option<KeyId>)
    ensures
        k == spec_key_for_keysym(keysym),
{
    match keysym {
        0xff1b => Some(KeyId::Esc),
        0x61 => Some(KeyId::A),
        0x64 => Some(KeyId::D),
        0x70 => Some(KeyId::P),
        0x73 => Some(KeyId::S),
        0x77 => Some(KeyId::W),
        0xff54 => Some(KeyId::Down),
        0xff52 => Some(KeyId::Up),
        0xff51 => Some(KeyId::Left),
        0xff53 => Some(KeyId::Right),
        _ => None,
    }
}

/// The mouse button that an X button number stands for: 1 left, 2 middle, 3 right.
pub open spec fn spec_button_for(button: u32) -> Option<ButtonId> {
    if button == 1 {
        Some(ButtonId::Left)
    } else if button == 3 {
        Some(ButtonId::Right)
    } else if button == 2 {
        Some(ButtonId::Middle)
    } else {
        None
    }
}

/// The keys after key `i` went down or up once more.
pub open spec fn key_went(keys: Seq<KeyState>, i: int, is_down: bool) -> Seq<KeyState> {
    keys.update(i, KeyState { is_down, half_transitions: (keys[i].half_transitions + 1) as u32 })
}

/// The buttons after button `i` went down or up once more at (`x`, `y`).
pub open spec fn button_went(buttons: Seq<ButtonState>, i: int, is_down: bool, x: i32, y: i32) -> Seq<
    ButtonState,
> {
    buttons.update(
        i,
        ButtonState { is_down, x, y, half_transitions: (buttons[i].half_transitions + 1) as u32 },
    )
}

/// The transition counts that an event adds to stay within range.
pub open spec fn event_fits(input: InputState, event: PlatformEvent) -> bool {
    match event {
        PlatformEvent::Key { keysym, .. } => {
            &&& input.keys@[KeyId::Any.spec_index() as int].half_transitions < u32::MAX
            &&& spec_key_for_keysym(keysym) matches Some(k) ==> input.keys@[k.spec_index() as int].half_transitions
                < u32::MAX
        },
        PlatformEvent::Button { button, .. } => spec_button_for(button) matches Some(b)
            ==> input.buttons@[b.spec_index() as int].half_transitions < u32::MAX,
        _ => true,
    }
}

/// Takes an X event into the input state and the window size: a key event
/// counts for the "any key" entry and for the key it stands for, a button
/// event for the button it stands for, and a configure event records the
/// window's new size.
pub fn handle_platform_event(
    input: &mut InputState,
    window_width: &mut u32,
    window_height: &mut u32,
    event: PlatformEvent,
)
    requires
        event_fits(*old(input), event),
    ensures
        match event {
            PlatformEvent::Key { keysym, is_down } => {
                let any = key_went(old(input).keys@, KeyId::Any.spec_index() as int, is_down);
                &&& final(input).keys@ == match spec_key_for_keysym(keysym) {
                    Some(k) => key_went(any, k.spec_index() as int, is_down),
                    None => any,
                }
                &&& final(input).buttons@ == old(input).buttons@
                &&& *final(window_width) == *old(window_width)
                &&& *final(window_height) == *old(window_height)
            },
            PlatformEvent::Button { button, is_down, x, y } => {
                &&& final(input).buttons@ == match spec_button_for(button) {
                    Some(b) => button_went(old(input).buttons@, b.spec_index() as int, is_down, x, y),
                    None => old(input).buttons@,
                }
                &&& final(input).keys@ == old(input).keys@
                &&& *final(window_width) == *old(window_width)
                &&& *final(window_height) == *old(window_height)
            },
            PlatformEvent::Configure { width, height } => {
                &&& *final(window_width) == width as u32
                &&& *final(window_height) == height as u32
                &&& final(input).keys@ == old(input).keys@
                &&& final(input).buttons@ == old(input).buttons@
            },
            PlatformEvent::Other => {
                &&& final(input).keys@ == old(input).keys@
                &&& final(input).buttons@ == old(input).buttons@
                &&& *final(window_width) == *old(window_width)
                &&& *final(window_height) == *old(window_height)
            },
        },
{
    match event {
        PlatformEvent::Key { keysym, is_down } => {
            input.set_key(KeyId::Any, is_down);
            match key_for_keysym(keysym) {
                Some(k) => {
                    assert(k.spec_index() != KeyId::Any.spec_index());
                    input.set_key(k, is_down);
                },
                None => {},
            }
        },
        PlatformEvent::Button { button, is_down, x, y } => {
            match button {
                1 => input.set_button(ButtonId::Left, is_down, x, y),
                3 => input.set_button(ButtonId::Right, is_down, x, y),
                2 => input.set_button(ButtonId::Middle, is_down, x, y),
                _ => {},
            }
        },
        PlatformEvent::Configure { width, height } => {
            if width as u32 != *window_width || height as u32 != *window_height {
                *window_width = width as u32;
                *window_height = height as u32;
            }
        },
        PlatformEvent::Other => {},
    }
}

} // verus!
