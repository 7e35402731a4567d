use vstd::prelude::*;

verus! {

/// The keys the framework tracks; `KeyCount` is their number, not a key.
#[derive(Copy, Clone, Debug)]
pub enum KeyId {
    Any,
    Esc,
    A,
    D,
    P,
    S,
    W,
    Down,
    Up,
    Left,
    Right,
    KeyCount,
}

/// The number of tracked keys.
pub const KEY_COUNT: usize = 11;

/// The number of tracked mouse buttons.
pub const BUTTON_COUNT: usize = 4;

impl KeyId {
    /// The key's slot in the key table (its discriminant).
    pub open spec fn spec_index(self) -> nat {
        match self {
            KeyId::Any => 0,
            KeyId::Esc => 1,
            KeyId::A => 2,
            KeyId::D => 3,
            KeyId::P => 4,
            KeyId::S => 5,
            KeyId::W => 6,
            KeyId::Down => 7,
            KeyId::Up => 8,
            KeyId::Left => 9,
            KeyId::Right => 10,
            KeyId::KeyCount => 11,
        }
    }

    /// The key's slot in the key table (its discriminant).
    pub fn index(self) -> (i: usize)
        ensures
            i == self.spec_index(),
    {
        match self {
            KeyId::Any => 0,
            KeyId::Esc => 1,
            KeyId::A => 2,
            KeyId::D => 3,
            KeyId::P => 4,
            KeyId::S => 5,
            KeyId::W => 6,
            KeyId::Down => 7,
            KeyId::Up => 8,
            KeyId::Left => 9,
            KeyId::Right => 10,
            KeyId::KeyCount => 11,
        }
    }
}

/// Whether a key is held and how often it changed since the last reset.
#[derive(Copy, Clone, Debug)]
pub struct KeyState {
    pub is_down: bool,
    pub half_transitions: u32,
}

/// The mouse buttons the framework tracks; `ButtonCount` is their number.
#[derive(Copy, Clone, Debug)]
pub enum ButtonId {
    Any,
    Left,
    Right,
    Middle,
    ButtonCount,
}

impl ButtonId {
    /// The button's slot in the button table (its discriminant).
    pub open spec fn spec_index(self) -> nat {
        match self {
            ButtonId::Any => 0,
            ButtonId::Left => 1,
            ButtonId::Right => 2,
            ButtonId::Middle => 3,
            ButtonId::ButtonCount => 4,
        }
    }

    /// The button's slot in the button table (its discriminant).
    pub fn index(self) -> (i: usize)
        ensures
            i == self.spec_index(),
    {
        match self {
            ButtonId::Any => 0,
            ButtonId::Left => 1,
            ButtonId::Right => 2,
            ButtonId::Middle => 3,
            ButtonId::ButtonCount => 4,
        }
    }
}

/// Whether a button is held, where it last changed, and how often it changed.
#[derive(Copy, Clone, Debug)]
pub struct ButtonState {
    pub is_down: bool,
    pub x: i32,
    pub y: i32,
    pub half_transitions: u32,
}

/// The state of every tracked key and mouse button.
#[derive(Debug)]
pub struct InputState {
    pub keys: [KeyState; 11],
    pub buttons: [ButtonState; 4],
}

/// A key that was pressed during the frame: it is down and changed at least once.
pub open spec fn key_pressed(k: KeyState) -> bool {
    k.is_down && k.half_transitions >= 1
}

/// A key that was released during the frame: it is up and changed at least once.
pub open spec fn key_released(k: KeyState) -> bool {
    !k.is_down && k.half_transitions >= 1
}

/// A button that was pressed during the frame.
pub open spec fn button_pressed(b: ButtonState) -> bool {
    b.is_down && b.half_transitions >= 1
}

/// A button that was released during the frame.
pub open spec fn button_released(b: ButtonState) -> bool {
    !b.is_down && b.half_transitions >= 1
}

impl Default for InputState {
    fn default() -> (s: Self)
        ensures
            forall|i: int|
                0 <= i < KEY_COUNT ==> !(#[trigger] s.keys@[i]).is_down && s.keys@[i].half_transitions
                    == 0,
            forall|i: int|
                0 <= i < BUTTON_COUNT ==> !(#[trigger] s.buttons@[i]).is_down && s.buttons@[i].x == 0
                    && s.buttons@[i].y == 0 && s.buttons@[i].half_transitions == 0,
    {
        let k = KeyState { is_down: false, half_transitions: 0 };
        let b = ButtonState { is_down: false, x: 0, y: 0, half_transitions: 0 };
        InputState { keys: [k, k, k, k, k, k, k, k, k, k, k], buttons: [b, b, b, b] }
    }
}

impl InputState {
    /// Clears the transition counts of every key and button; what is held stays held.
    pub fn reset_transitions(&mut self)
        ensures
            forall|i: int|
                0 <= i < KEY_COUNT ==> (#[trigger] final(self).keys@[i]).is_down == old(
                    self,
                ).keys@[i].is_down && final(self).keys@[i].half_transitions == 0,
            forall|i: int|
                0 <= i < BUTTON_COUNT ==> (#[trigger] final(self).buttons@[i]) == (ButtonState {
                    half_transitions: 0,
                    ..old(self).buttons@[i]
                }),
    {
        let mut i: usize = 0;
        while i < KEY_COUNT
            invariant
                0 <= i <= KEY_COUNT,
                self.buttons@ == old(self).buttons@,
                forall|j: int|
                    0 <= j < i ==> (#[trigger] self.keys@[j]).is_down == old(self).keys@[j].is_down
                        && self.keys@[j].half_transitions == 0,
                forall|j: int| i <= j < KEY_COUNT ==> #[trigger] self.keys@[j] == old(self).keys@[j],
            decreases KEY_COUNT - i,
        {
            let k = self.keys[i];
            self.keys.set(i, KeyState { is_down: k.is_down, half_transitions: 0 });
            i += 1;
        }
        let mut i: usize = 0;
        while i < BUTTON_COUNT
            invariant
                0 <= i <= BUTTON_COUNT,
                forall|j: int|
                    0 <= j < KEY_COUNT ==> (#[trigger] self.keys@[j]).is_down == old(
                        self,
                    ).keys@[j].is_down && self.keys@[j].half_transitions == 0,
                forall|j: int|
                    0 <= j < i ==> (#[trigger] self.buttons@[j]) == (ButtonState {
                        half_transitions: 0,
                        ..old(self).buttons@[j]
                    }),
                forall|j: int|
                    i <= j < BUTTON_COUNT ==> #[trigger] self.buttons@[j] == old(self).buttons@[j],
            decreases BUTTON_COUNT - i,
        {
            let b = self.buttons[i];
            self.buttons.set(
                i,
                ButtonState { is_down: b.is_down, x: b.x, y: b.y, half_transitions: 0 },
            );
            i += 1;
        }
    }

    /// Records that `key` went down or up: one more half transition.
    pub fn set_key(&mut self, key: KeyId, is_down: bool)
        requires
            key.spec_index() < KEY_COUNT,
            old(self).keys@[key.spec_index() as int].half_transitions < u32::MAX,
        ensures
            final(self).keys@ == old(self).keys@.update(
                key.spec_index() as int,
                KeyState {
                    is_down,
                    half_transitions: (old(self).keys@[key.spec_index() as int].half_transitions
                        + 1) as u32,
                },
            ),
            final(self).buttons@ == old(self).buttons@,
    {
        let i = key.index();
        let k = self.keys[i];
        self.keys.set(i, KeyState { is_down, half_transitions: k.half_transitions + 1 });
    }

    /// Records that `button` went down or up at (`x`, `y`): one more half transition.
    pub fn set_button(&mut self, button: ButtonId, is_down: bool, x: i32, y: i32)
        requires
            button.spec_index() < BUTTON_COUNT,
            old(self).buttons@[button.spec_index() as int].half_transitions < u32::MAX,
        ensures
            final(self).buttons@ == old(self).buttons@.update(
                button.spec_index() as int,
                ButtonState {
                    is_down,
                    x,
                    y,
                    half_transitions: (old(self).buttons@[button.spec_index() as int].half_transitions
                        + 1) as u32,
                },
            ),
            final(self).keys@ == old(self).keys@,
    {
        let i = button.index();
        let b = self.buttons[i];
        self.buttons.set(
            i,
            ButtonState { is_down, x, y, half_transitions: b.half_transitions + 1 },
        );
    }

    pub fn is_key_down(&self, id: KeyId) -> (r: bool)
        requires
            id.spec_index() < KEY_COUNT,
        ensures
            r == self.keys@[id.spec_index() as int].is_down,
    {
        self.keys[id.index()].is_down
    }

    pub fn was_key_pressed(&self, id: KeyId) -> (r: bool)
        requires
            id.spec_index() < KEY_COUNT,
        ensures
            r == key_pressed(self.keys@[id.spec_index() as int]),
    {
        let key = self.keys[id.index()];
        key.is_down && key.half_transitions >= 1
    }

    pub fn was_key_released(&self, id: KeyId) -> (r: bool)
        requires
            id.spec_index() < KEY_COUNT,
        ensures
            r == key_released(self.keys@[id.spec_index() as int]),
    {
        let key = self.keys[id.index()];
        !key.is_down && key.half_transitions >= 1
    }

    pub fn is_button_down(&self, id: ButtonId) -> (r: bool)
        requires
            id.spec_index() < BUTTON_COUNT,
        ensures
            r == self.buttons@[id.spec_index() as int].is_down,
    {
        self.buttons[id.index()].is_down
    }

    pub fn was_button_pressed(&self, id: ButtonId) -> (r: bool)
        requires
            id.spec_index() < BUTTON_COUNT,
        ensures
            r == button_pressed(self.buttons@[id.spec_index() as int]),
    {
        let button = self.buttons[id.index()];
        button.is_down && button.half_transitions >= 1
    }

    pub fn was_button_released(&self, id: ButtonId) -> (r: bool)
        requires
            id.spec_index() < BUTTON_COUNT,
        ensures
            r == button_released(self.buttons@[id.spec_index() as int]),
    {
        let button = self.buttons[id.index()];
        !button.is_down && button.half_transitions >= 1
    }
}

/// A key recorded as going down reads as down and as pressed, one recorded
/// as going up reads as released, and every other key reads as before.
pub proof fn lemma_set_key_reads(keys: Seq<KeyState>, i: int, is_down: bool, j: int)
    requires
        0 <= i < keys.len(),
        0 <= j < keys.len(),
        keys[i].half_transitions < u32::MAX,
    ensures
        ({
            let after = keys.update(
                i,
                KeyState { is_down, half_transitions: (keys[i].half_transitions + 1) as u32 },
            );
            &&& after[i].is_down == is_down
            &&& key_pressed(after[i]) == is_down
            &&& key_released(after[i]) == !is_down
            &&& j != i ==> after[j] == keys[j]
        }),
{
}

/// A button recorded as going down reads as down and as pressed, one
/// recorded as going up reads as released, and every other button reads as before.
pub proof fn lemma_set_button_reads(buttons: Seq<ButtonState>, i: int, is_down: bool, x: i32, y: i32, j: int)
    requires
        0 <= i < buttons.len(),
        0 <= j < buttons.len(),
        buttons[i].half_transitions < u32::MAX,
    ensures
        ({
            let after = buttons.update(
                i,
                ButtonState { is_down, x, y, half_transitions: (buttons[i].half_transitions + 1) as u32 },
            );
            &&& after[i].is_down == is_down
            &&& button_pressed(after[i]) == is_down
            &&& button_released(after[i]) == !is_down
            &&& j != i ==> after[j] == buttons[j]
        }),
{
}

/// Once the transitions are reset, no key or button reads as pressed or
/// released, and what was held still reads as held.
pub proof fn lemma_reset_reads(k: KeyState, b: ButtonState)
    ensures
        !key_pressed(KeyState { half_transitions: 0, ..k }),
        !key_released(KeyState { half_transitions: 0, ..k }),
        (KeyState { half_transitions: 0, ..k }).is_down == k.is_down,
        !button_pressed(ButtonState { half_transitions: 0, ..b }),
        !button_released(ButtonState { half_transitions: 0, ..b }),
        (ButtonState { half_transitions: 0, ..b }).is_down == b.is_down,
{
}

} // verus!
