//! The platform-independent parts of the Vulkan example framework: command
//! line options, settings, and what the example window does on each event.
//! The swapchain itself is kept in `swapchain`.
use vstd::prelude::*;
use crate::text::{parse_i32, parsed_i32};
use crate::blender::str_eq;
pub use crate::swapchain::{SwapChainBuffer, VulkanSwapChain};

verus! {

/// What an example renders each frame and does when the view changes.
pub trait Render {
    fn render(&mut self);

    fn view_changed(&mut self);
}

/// Which mouse buttons are held.
#[derive(Debug, Copy, Clone, PartialEq, Eq, Structural)]
pub struct Buttons {
    pub left: bool,
    pub right: bool,
    pub middle: bool,
}

impl Default for Buttons {
    fn default() -> (b: Self)
        ensures
            !b.left && !b.right && !b.middle,
    {
        Buttons { left: false, right: false, middle: false }
    }
}

/// The example's switches.
#[derive(Debug, Copy, Clone, PartialEq, Eq, Structural)]
pub struct Settings {
    pub validation: bool,
    pub fullscreen: bool,
    pub vsync: bool,
    pub overlay: bool,
}

impl Default for Settings {
    /// Everything off but the overlay.
    fn default() -> (s: Self)
        ensures
            !s.validation && !s.fullscreen && !s.vsync && s.overlay,
    {
        Settings { validation: false, fullscreen: false, vsync: false, overlay: true }
    }
}

/// The kinds of window-system event that the example reacts to.
#[derive(Debug, Copy, Clone, PartialEq, Eq, Structural)]
pub enum WindowEventKind {
    ClientMessage,
    MotionNotify,
    ButtonPress,
    ButtonRelease,
    KeyPress,
    KeyRelease,
    DestroyNotify,
    ConfigureNotify,
    Other,
}

/// The kind of an X event from its response type, whose top bit (set on
/// events that another client sent) is ignored.
pub open spec fn spec_event_kind(response_type: u8) -> WindowEventKind {
    let t = response_type % 128;
    if t == 33 {
        WindowEventKind::ClientMessage
    } else if t == 6 {
        WindowEventKind::MotionNotify
    } else if t == 4 {
        WindowEventKind::ButtonPress
    } else if t == 5 {
        WindowEventKind::ButtonRelease
    } else if t == 2 {
        WindowEventKind::KeyPress
    } else if t == 3 {
        WindowEventKind::KeyRelease
    } else if t == 17 {
        WindowEventKind::DestroyNotify
    } else if t == 22 {
        WindowEventKind::ConfigureNotify
    } else {
        WindowEventKind::Other
    }
}

/// The kind of an X event from its response type.
pub fn event_kind(response_type: u8) -> (k: WindowEventKind)
    ensures
        k == spec_event_kind(response_type),
{
    let t = response_type & 0x7f;
    assert(t == response_type % 128) by (bit_vector)
        requires
            t == response_type & 0x7f,
    ;
    match t {
        33 => WindowEventKind::ClientMessage,
        6 => WindowEventKind::MotionNotify,
        4 => WindowEventKind::ButtonPress,
        5 => WindowEventKind::ButtonRelease,
        2 => WindowEventKind::KeyPress,
        3 => WindowEventKind::KeyRelease,
        17 => WindowEventKind::DestroyNotify,
        22 => WindowEventKind::ConfigureNotify,
        _ => WindowEventKind::Other,
    }
}

/// A window-system event with the fields the example reads from it.
#[derive(Debug, Copy, Clone, PartialEq, Eq, Structural)]
pub enum WindowEvent {
    /// A message from the window manager, with its first data word.
    ClientMessage { data0: u32 },
    /// The pointer moved to (`x`, `y`).
    MotionNotify { x: i16, y: i16 },
    /// A mouse button (1 left, 2 middle, 3 right) went down.
    ButtonPress { detail: u8 },
    /// A mouse button went up.
    ButtonRelease { detail: u8 },
    /// A key, by its key code, went down.
    KeyPress { detail: u8 },
    /// A key went up.
    KeyRelease { detail: u8 },
    /// The window was destroyed.
    DestroyNotify,
    /// The window now has this size.
    ConfigureNotify { width: u16, height: u16 },
    /// Anything else.
    Other,
}

/// What the example's window keeps track of between events.
#[derive(Debug, Copy, Clone, PartialEq, Eq, Structural)]
pub struct WindowState {
    pub quit: bool,
    pub paused: bool,
    pub prepared: bool,
    pub width: u32,
    pub height: u32,
    pub dest_width: u32,
    pub dest_height: u32,
    pub mouse_buttons: Buttons,
    pub settings: Settings,
    pub keys_left: bool,
    pub keys_right: bool,
    pub keys_up: bool,
    pub keys_down: bool,
    /// The atom by which the window manager asks the window to close.
    pub wm_delete_window: u32,
}

/// What is left to do after an event.
#[derive(Debug, Copy, Clone, PartialEq, Eq, Structural)]
pub enum EventAction {
    Nothing,
    /// Move the camera for the pointer now at (`x`, `y`).
    MouseMove { x: i32, y: i32 },
    /// Rebuild the swapchain and framebuffers for the new size.
    Resize,
}

/// Mouse button `detail` (1 left, 2 middle, 3 right) went down or up.
pub open spec fn after_button(b: Buttons, detail: u8, down: bool) -> Buttons {
    Buttons {
        left: if detail == 1 { down } else { b.left },
        middle: if detail == 2 { down } else { b.middle },
        right: if detail == 3 { down } else { b.right },
    }
}

/// Key `detail` went down: W, S, A and D (codes 25, 39, 38, 40) steer the
/// camera, P (33) pauses or resumes, F1 (67) turns the overlay off.
pub open spec fn after_key_press(s: WindowState, detail: u8) -> WindowState {
    if detail == 25 {
        WindowState { keys_up: true, ..s }
    } else if detail == 39 {
        WindowState { keys_down: true, ..s }
    } else if detail == 38 {
        WindowState { keys_left: true, ..s }
    } else if detail == 40 {
        WindowState { keys_right: true, ..s }
    } else if detail == 33 {
        WindowState { paused: !s.paused, ..s }
    } else if detail == 67 {
        WindowState { settings: Settings { overlay: false, ..s.settings }, ..s }
    } else {
        s
    }
}

/// Key `detail` went up: W, S, A and D stop steering, Esc (9) quits.
pub open spec fn after_key_release(s: WindowState, detail: u8) -> WindowState {
    if detail == 25 {
        WindowState { keys_up: false, ..s }
    } else if detail == 39 {
        WindowState { keys_down: false, ..s }
    } else if detail == 38 {
        WindowState { keys_left: false, ..s }
    } else if detail == 40 {
        WindowState { keys_right: false, ..s }
    } else if detail == 9 {
        WindowState { quit: true, ..s }
    } else {
        s
    }
}

/// The window got a new size: a prepared window whose size changed records
/// it, and is resized when the size is not empty.
pub open spec fn after_configure(s: WindowState, width: u16, height: u16) -> (WindowState, EventAction) {
    if s.prepared && (width as u32 != s.width || height as u32 != s.height) {
        (
            WindowState { dest_width: width as u32, dest_height: height as u32, ..s },
            if width > 0 && height > 0 { EventAction::Resize } else { EventAction::Nothing },
        )
    } else {
        (s, EventAction::Nothing)
    }
}

/// The window's state after an event, and what is left to do: the close
/// message quits; pointer motion is handed on; buttons and keys as in
/// `after_button`, `after_key_press` and `after_key_release`; destroying the
/// window quits; a new size as in `after_configure`.
pub open spec fn after_event(s: WindowState, e: WindowEvent) -> (WindowState, EventAction) {
    match e {
        WindowEvent::ClientMessage { data0 } => (
            if data0 == s.wm_delete_window { WindowState { quit: true, ..s } } else { s },
            EventAction::Nothing,
        ),
        WindowEvent::MotionNotify { x, y } => (s, EventAction::MouseMove { x: x as i32, y: y as i32 }),
        WindowEvent::ButtonPress { detail } => (
            WindowState { mouse_buttons: after_button(s.mouse_buttons, detail, true), ..s },
            EventAction::Nothing,
        ),
        WindowEvent::ButtonRelease { detail } => (
            WindowState { mouse_buttons: after_button(s.mouse_buttons, detail, false), ..s },
            EventAction::Nothing,
        ),
        WindowEvent::KeyPress { detail } => (after_key_press(s, detail), EventAction::Nothing),
        WindowEvent::KeyRelease { detail } => (after_key_release(s, detail), EventAction::Nothing),
        WindowEvent::DestroyNotify => (WindowState { quit: true, ..s }, EventAction::Nothing),
        WindowEvent::ConfigureNotify { width, height } => after_configure(s, width, height),
        WindowEvent::Other => (s, EventAction::Nothing),
    }
}

fn set_button(buttons: &mut Buttons, detail: u8, down: bool)
    ensures
        *final(buttons) == after_button(*old(buttons), detail, down),
{
    if detail == 1 {
        buttons.left = down;
    }
    if detail == 2 {
        buttons.middle = down;
    }
    if detail == 3 {
        buttons.right = down;
    }
}

fn press_key(state: &mut WindowState, detail: u8)
    ensures
        *final(state) == after_key_press(*old(state), detail),
{
    match detail {
        25 => state.keys_up = true,
        39 => state.keys_down = true,
        38 => state.keys_left = true,
        40 => state.keys_right = true,
        33 => state.paused = !state.paused,
        67 => {
            if state.settings.overlay {
                state.settings.overlay = !state.settings.overlay;
            }
        },
        _ => {},
    }
}

fn release_key(state: &mut WindowState, detail: u8)
    ensures
        *final(state) == after_key_release(*old(state), detail),
{
    match detail {
        25 => state.keys_up = false,
        39 => state.keys_down = false,
        38 => state.keys_left = false,
        40 => state.keys_right = false,
        9 => state.quit = true,
        _ => {},
    }
}

fn configure(state: &mut WindowState, width: u16, height: u16) -> (a: EventAction)
    ensures
        (*final(state), a) == after_configure(*old(state), width, height),
{
    if state.prepared && (width as u32 != state.width || height as u32 != state.height) {
        state.dest_width = width as u32;
        state.dest_height = height as u32;
        if state.dest_width > 0 && state.dest_height > 0 {
            return EventAction::Resize;
        }
    }
    EventAction::Nothing
}

/// Updates the window's state for an event and says what is left to do
/// (see `after_event`).
pub fn handle_event(state: &mut WindowState, event: WindowEvent) -> (a: EventAction)
    ensures
        (*final(state), a) == after_event(*old(state), event),
{
    match event {
        WindowEvent::ClientMessage { data0 } => {
            if data0 == state.wm_delete_window {
                state.quit = true;
            }
            EventAction::Nothing
        },
        WindowEvent::MotionNotify { x, y } => EventAction::MouseMove { x: x as i32, y: y as i32 },
        WindowEvent::ButtonPress { detail } => {
            set_button(&mut state.mouse_buttons, detail, true);
            EventAction::Nothing
        },
        WindowEvent::ButtonRelease { detail } => {
            set_button(&mut state.mouse_buttons, detail, false);
            EventAction::Nothing
        },
        WindowEvent::KeyPress { detail } => {
            press_key(state, detail);
            EventAction::Nothing
        },
        WindowEvent::KeyRelease { detail } => {
            release_key(state, detail);
            EventAction::Nothing
        },
        WindowEvent::DestroyNotify => {
            state.quit = true;
            EventAction::Nothing
        },
        WindowEvent::ConfigureNotify { width, height } => configure(state, width, height),
        WindowEvent::Other => EventAction::Nothing,
    }
}

/// How the camera moves.
#[derive(PartialEq, Eq, Structural)]
pub enum CameraType {
    LookAt,
    FirstPerson,
}

impl Default for CameraType {
    fn default() -> (c: Self)
        ensures
            c == CameraType::LookAt,
    {
        CameraType::LookAt
    }
}

/// The directory that holds the examples' assets.
pub fn get_asset_path() -> (s: String)
    ensures
        s@ == "/home/alex/dev/SaschaWillemsVulkan/data/"@,
{
    "/home/alex/dev/SaschaWillemsVulkan/data/".to_owned()
}

/// A command line option: the switches that name it, its value, whether it
/// takes one, its help text, and whether it was given.
pub struct CommandLineOption {
    pub commands: Vec<String>,
    pub value: String,
    pub has_value: bool,
    pub help: String,
    pub set: bool,
}

/// An option as plain values.
pub struct OptionView {
    pub commands: Seq<Seq<char>>,
    pub value: Seq<char>,
    pub has_value: bool,
    pub help: Seq<char>,
    pub set: bool,
}

impl View for CommandLineOption {
    type V = OptionView;

    open spec fn view(&self) -> OptionView {
        OptionView {
            commands: self.commands@.map_values(|c: String| c@),
            value: self.value@,
            has_value: self.has_value,
            help: self.help@,
            set: self.set,
        }
    }
}

/// The named options, each name once.
pub struct CommandLineParser {
    options: Vec<(String, CommandLineOption)>,
}

/// The options as (name, option) pairs.
pub open spec fn entries(v: Seq<(String, CommandLineOption)>) -> Seq<(Seq<char>, OptionView)> {
    v.map_values(|e: (String, CommandLineOption)| (e.0@, e.1@))
}

/// The index of the entry named `name` at or after `i`.
pub open spec fn entry_index_from(es: Seq<(Seq<char>, OptionView)>, name: Seq<char>, i: int) -> Option<
    int,
>
    decreases es.len() - i,
{
    if i < 0 || i >= es.len() {
        None
    } else if es[i].0 == name {
        Some(i)
    } else {
        entry_index_from(es, name, i + 1)
    }
}

/// The option named `name`, if there is one.
pub open spec fn option_named(es: Seq<(Seq<char>, OptionView)>, name: Seq<char>) -> Option<OptionView> {
    match entry_index_from(es, name, 0) {
        Some(i) => Some(es[i].1),
        None => None,
    }
}

/// No name occurs twice.
pub open spec fn distinct_names(es: Seq<(Seq<char>, OptionView)>) -> bool {
    forall|i: int, j: int| 0 <= i < j < es.len() ==> es[i].0 != es[j].0
}

proof fn lemma_entry_index(es: Seq<(Seq<char>, OptionView)>, name: Seq<char>, k: int)
    requires
        0 <= k <= es.len(),
    ensures
        match entry_index_from(es, name, k) {
            Some(i) => k <= i < es.len() && es[i].0 == name && forall|j: int|
                k <= j < i ==> es[j].0 != name,
            None => forall|j: int| k <= j < es.len() ==> es[j].0 != name,
        },
    decreases es.len() - k,
{
    if k < es.len() && es[k].0 != name {
        lemma_entry_index(es, name, k + 1);
    }
}

/// With distinct names, the option named like entry `i` is entry `i`'s option.
proof fn lemma_option_at(es: Seq<(Seq<char>, OptionView)>, i: int)
    requires
        distinct_names(es),
        0 <= i < es.len(),
    ensures
        option_named(es, es[i].0) == Some(es[i].1),
{
    lemma_entry_index(es, es[i].0, 0);
}

/// No entry has the name: no option.
proof fn lemma_option_absent(es: Seq<(Seq<char>, OptionView)>, name: Seq<char>)
    requires
        forall|j: int| 0 <= j < es.len() ==> es[j].0 != name,
    ensures
        option_named(es, name) is None,
{
    lemma_entry_index(es, name, 0);
}

/// Reading the arguments from index `i` for the switch `c` of an option with
/// the given `set` flag and `value`: each occurrence sets the option, and for
/// an option that takes a value the following argument becomes its value;
/// an empty value asks for the help text and ends the search for this switch.
/// The result is the new flag, the new value, and whether help was asked for.
pub open spec fn command_scan(
    args: Seq<Seq<char>>,
    c: Seq<char>,
    has_value: bool,
    i: int,
    set: bool,
    value: Seq<char>,
) -> (bool, Seq<char>, bool)
    decreases args.len() - i,
{
    if i < 0 || i >= args.len() {
        (set, value, false)
    } else if args[i] == c {
        if has_value {
            let v = if args.len() > i + 1 { args[i + 1] } else { value };
            if v.len() == 0 {
                (true, v, true)
            } else {
                command_scan(args, c, has_value, i + 1, true, v)
            }
        } else {
            command_scan(args, c, has_value, i + 1, true, value)
        }
    } else {
        command_scan(args, c, has_value, i + 1, set, value)
    }
}

/// Reading the arguments for the first `k` switches of an option, one after the other.
pub open spec fn commands_scan(
    args: Seq<Seq<char>>,
    cmds: Seq<Seq<char>>,
    has_value: bool,
    k: nat,
    set: bool,
    value: Seq<char>,
) -> (bool, Seq<char>, bool)
    decreases k,
{
    if k == 0 {
        (set, value, false)
    } else {
        let before = commands_scan(args, cmds, has_value, (k - 1) as nat, set, value);
        let step = command_scan(args, cmds[k - 1], has_value, 0, before.0, before.1);
        (step.0, step.1, before.2 || step.2)
    }
}

proof fn lemma_scan_keeps_set(args: Seq<Seq<char>>, c: Seq<char>, has_value: bool, i: int, value: Seq<char>)
    requires
        0 <= i,
    ensures
        command_scan(args, c, has_value, i, true, value).0,
    decreases args.len() - i,
{
    if i < args.len() {
        if args[i] == c && has_value {
            let v = if args.len() > i + 1 { args[i + 1] } else { value };
            if v.len() != 0 {
                lemma_scan_keeps_set(args, c, has_value, i + 1, v);
            }
        } else {
            lemma_scan_keeps_set(args, c, has_value, i + 1, value);
        }
    }
}

proof fn lemma_scan_finds(args: Seq<Seq<char>>, c: Seq<char>, has_value: bool, i: int, set: bool, value: Seq<char>, j: int)
    requires
        0 <= i <= j < args.len(),
        args[j] == c,
    ensures
        command_scan(args, c, has_value, i, set, value).0,
    decreases args.len() - i,
{
    if args[i] == c {
        if has_value {
            let v = if args.len() > i + 1 { args[i + 1] } else { value };
            if v.len() != 0 {
                lemma_scan_keeps_set(args, c, has_value, i + 1, v);
            }
        } else {
            lemma_scan_keeps_set(args, c, has_value, i + 1, value);
        }
    } else {
        lemma_scan_finds(args, c, has_value, i + 1, set, value, j);
    }
}

proof fn lemma_scan_absent(args: Seq<Seq<char>>, c: Seq<char>, has_value: bool, i: int, set: bool, value: Seq<char>)
    requires
        0 <= i,
        forall|k: int| i <= k < args.len() ==> args[k] != c,
    ensures
        command_scan(args, c, has_value, i, set, value) == (set, value, false),
    decreases args.len() - i,
{
    if i < args.len() {
        lemma_scan_absent(args, c, has_value, i + 1, set, value);
    }
}

proof fn lemma_commands_find(
    args: Seq<Seq<char>>,
    cmds: Seq<Seq<char>>,
    has_value: bool,
    k: nat,
    set: bool,
    value: Seq<char>,
    m: int,
    j: int,
)
    requires
        0 <= m < k,
        0 <= j < args.len(),
        args[j] == cmds[m],
    ensures
        commands_scan(args, cmds, has_value, k, set, value).0,
    decreases k,
{
    let before = commands_scan(args, cmds, has_value, (k - 1) as nat, set, value);
    if m == k - 1 {
        lemma_scan_finds(args, cmds[k - 1], has_value, 0, before.0, before.1, j);
    } else {
        lemma_commands_find(args, cmds, has_value, (k - 1) as nat, set, value, m, j);
        lemma_scan_keeps_set(args, cmds[k - 1], has_value, 0, before.1);
    }
}

proof fn lemma_commands_absent(
    args: Seq<Seq<char>>,
    cmds: Seq<Seq<char>>,
    has_value: bool,
    k: nat,
    set: bool,
    value: Seq<char>,
)
    requires
        k <= cmds.len(),
        forall|m: int, j: int| 0 <= m < k && 0 <= j < args.len() ==> args[j] != cmds[m],
    ensures
        commands_scan(args, cmds, has_value, k, set, value) == (set, value, false),
    decreases k,
{
    if k > 0 {
        lemma_commands_absent(args, cmds, has_value, (k - 1) as nat, set, value);
        lemma_scan_absent(args, cmds[k - 1], has_value, 0, set, value);
    }
}

/// Giving one of an option's switches on the command line sets the option.
pub proof fn lemma_switch_sets_option(o: OptionView, args: Seq<Seq<char>>, force: bool, m: int, j: int)
    requires
        0 <= m < o.commands.len(),
        0 <= j < args.len(),
        args[j] == o.commands[m],
    ensures
        after_parse(o, args, force).set,
{
    lemma_commands_find(args, o.commands, o.has_value, o.commands.len(), o.set, o.value, m, j);
}

/// An option none of whose switches is given keeps its value and its flag
/// (only the help option can still be set, when another option asks for
/// help), and asks for no help itself.
pub proof fn lemma_absent_option_unchanged(o: OptionView, args: Seq<Seq<char>>, force: bool)
    requires
        forall|m: int, j: int| 0 <= m < o.commands.len() && 0 <= j < args.len() ==> args[j] != o.commands[m],
    ensures
        after_parse(o, args, force).value == o.value,
        after_parse(o, args, force).set == (o.set || force),
        !option_scan(o, args).2,
{
    lemma_commands_absent(args, o.commands, o.has_value, o.commands.len(), o.set, o.value);
}

/// Every switch of `o`, where `o` takes a value, is followed by a non-empty
/// argument.
pub open spec fn values_given(o: OptionView, args: Seq<Seq<char>>) -> bool {
    o.has_value ==> forall|m: int, j: int|
        0 <= m < o.commands.len() && 0 <= j < args.len() && #[trigger] args[j] == #[trigger] o.commands[m]
            ==> j + 1 < args.len() && args[j + 1].len() > 0
}

proof fn lemma_scan_no_help(args: Seq<Seq<char>>, c: Seq<char>, has_value: bool, i: int, set: bool, value: Seq<char>)
    requires
        0 <= i,
        has_value ==> forall|j: int|
            i <= j < args.len() && #[trigger] args[j] == c ==> j + 1 < args.len() && args[j + 1].len() > 0,
    ensures
        !command_scan(args, c, has_value, i, set, value).2,
    decreases args.len() - i,
{
    if i < args.len() {
        if args[i] == c && has_value {
            lemma_scan_no_help(args, c, has_value, i + 1, true, args[i + 1]);
        } else if args[i] == c {
            lemma_scan_no_help(args, c, has_value, i + 1, true, value);
        } else {
            lemma_scan_no_help(args, c, has_value, i + 1, set, value);
        }
    }
}

proof fn lemma_commands_no_help(
    args: Seq<Seq<char>>,
    cmds: Seq<Seq<char>>,
    has_value: bool,
    k: nat,
    set: bool,
    value: Seq<char>,
)
    requires
        k <= cmds.len(),
        has_value ==> forall|m: int, j: int|
            0 <= m < cmds.len() && 0 <= j < args.len() && #[trigger] args[j] == #[trigger] cmds[m]
                ==> j + 1 < args.len() && args[j + 1].len() > 0,
    ensures
        !commands_scan(args, cmds, has_value, k, set, value).2,
    decreases k,
{
    if k > 0 {
        lemma_commands_no_help(args, cmds, has_value, (k - 1) as nat, set, value);
        let before = commands_scan(args, cmds, has_value, (k - 1) as nat, set, value);
        assert(has_value ==> forall|j: int|
            0 <= j < args.len() && #[trigger] args[j] == cmds[k - 1] ==> j + 1 < args.len() && args[j
                + 1].len() > 0) by {
            if has_value {
                assert forall|j: int|
                    0 <= j < args.len() && #[trigger] args[j] == cmds[k - 1] implies j + 1 < args.len()
                    && args[j + 1].len() > 0 by {
                    assert(args[j] == cmds[k - 1]);
                }
            }
        }
        lemma_scan_no_help(args, cmds[k - 1], has_value, 0, before.0, before.1);
    }
}

/// An option none of whose value-taking switches is left without a
/// non-empty value after it asks for no help.
pub proof fn lemma_option_asks_no_help(o: OptionView, args: Seq<Seq<char>>)
    requires
        values_given(o, args),
    ensures
        !option_scan(o, args).2,
{
    lemma_commands_no_help(args, o.commands, o.has_value, o.commands.len(), o.set, o.value);
}

/// The help text is not asked for when, for every option of the parser,
/// each switch that takes a value is followed by a non-empty argument.
pub proof fn lemma_no_help_when_values_given(p: CommandLineParser, args: Seq<Seq<char>>)
    requires
        forall|n: Seq<char>| #[trigger] p.option(n) matches Some(o) ==> values_given(o, args),
    ensures
        !p.asks_for_help(args),
{
    assert forall|n: Seq<char>| #[trigger] p.option(n) is Some implies !option_scan(p.option(n).unwrap(), args).2 by {
        lemma_option_asks_no_help(p.option(n).unwrap(), args);
    }
}

/// Reading the arguments for all the switches of an option.
pub open spec fn option_scan(o: OptionView, args: Seq<Seq<char>>) -> (bool, Seq<char>, bool) {
    commands_scan(args, o.commands, o.has_value, o.commands.len(), o.set, o.value)
}

/// Some option asked for the help text.
pub open spec fn help_requested(es: Seq<(Seq<char>, OptionView)>, args: Seq<Seq<char>>) -> bool {
    exists|i: int| 0 <= i < es.len() && (#[trigger] option_scan(es[i].1, args)).2
}

/// An option after the arguments were read; `force` also sets it.
pub open spec fn after_parse(o: OptionView, args: Seq<Seq<char>>, force: bool) -> OptionView {
    let sc = option_scan(o, args);
    OptionView {
        commands: o.commands,
        value: sc.1,
        has_value: o.has_value,
        help: o.help,
        set: sc.0 || force,
    }
}

/// The option that `add` records.
pub open spec fn fresh_option(commands: Seq<Seq<char>>, has_value: bool, help: Seq<char>) -> OptionView {
    OptionView { commands, value: Seq::empty(), has_value, help, set: false }
}

/// The options a parser starts with, by name.
pub open spec fn default_option(n: Seq<char>) -> Option<OptionView> {
    if n == "help"@ {
        Some(fresh_option(seq!["--help"@], false, "Show help"@))
    } else if n == "validation"@ {
        Some(fresh_option(seq!["-v"@, "--validation"@], false, "Enable validation layers"@))
    } else if n == "vsync"@ {
        Some(fresh_option(seq!["-vs"@, "--vsync"@], false, "Enable V-Sync"@))
    } else if n == "fullscreen"@ {
        Some(fresh_option(seq!["-f"@, "--fullscreen"@], false, "Start in fullscreen mode"@))
    } else if n == "width"@ {
        Some(fresh_option(seq!["-w"@, "--width"@], true, "Set window width"@))
    } else if n == "height"@ {
        Some(fresh_option(seq!["-h"@, "--height"@], true, "Set window height"@))
    } else if n == "shaders"@ {
        Some(fresh_option(seq!["-s"@, "--shaders"@], true, "Select shader type to use (glsl or hlsl)"@))
    } else if n == "gpuselection"@ {
        Some(fresh_option(seq!["-g"@, "--gpu"@], true, "Select GPU to run on"@))
    } else if n == "gpulist"@ {
        Some(fresh_option(seq!["-gl"@, "--listgpus"@], false, "Display a list of available Vulkan devices"@))
    } else if n == "benchmark"@ {
        Some(fresh_option(seq!["-b"@, "--benchmark"@], false, "Run example in benchmark mode"@))
    } else if n == "benchmarkwamup"@ {
        Some(fresh_option(seq!["-bw"@, "--benchwarmup"@], true, "Set warmup time for benchmark mode in seconds"@))
    } else if n == "benchmarkruntime"@ {
        Some(fresh_option(seq!["-br"@, "--benchruntime"@], true, "Set duration time for benchmark mode in seconds"@))
    } else if n == "benchmarkresultfiles"@ {
        Some(fresh_option(seq!["-bf"@, "--benchfilename"@], true, "Set file name for benchmark results"@))
    } else if n == "benchmarkresultframes"@ {
        Some(fresh_option(seq!["-bt"@, "--benchframetimes"@], false, "Save frame times to benchmark results file"@))
    } else if n == "benchmarkframes"@ {
        Some(fresh_option(seq!["-bfs"@, "--benchmarkframes"@], true, "Only render the given number of frames"@))
    } else {
        None
    }
}

impl CommandLineParser {
    #[verifier::type_invariant]
    spec fn wf(self) -> bool {
        distinct_names(entries(self.options@))
    }

    /// The options as (name, option) pairs.
    pub closed spec fn spec_entries(self) -> Seq<(Seq<char>, OptionView)> {
        entries(self.options@)
    }

    /// The option named `name`, if there is one.
    pub open spec fn option(self, name: Seq<char>) -> Option<OptionView> {
        option_named(self.spec_entries(), name)
    }

    /// Some option of the parser, read against `args`, asks for the help
    /// text (a switch that takes a value is given with an empty one, or last).
    pub open spec fn asks_for_help(self, args: Seq<Seq<char>>) -> bool {
        exists|n: Seq<char>| #[trigger] self.option(n) matches Some(o) && option_scan(o, args).2
    }
}

/// With distinct names, some entry asks for help exactly when some named
/// option does.
proof fn lemma_help_by_name(p: CommandLineParser, args: Seq<Seq<char>>)
    requires
        distinct_names(p.spec_entries()),
    ensures
        help_requested(p.spec_entries(), args) == p.asks_for_help(args),
{
    let es = p.spec_entries();
    if help_requested(es, args) {
        let i = choose|i: int| 0 <= i < es.len() && (#[trigger] option_scan(es[i].1, args)).2;
        lemma_option_at(es, i);
        assert(p.option(es[i].0) == Some(es[i].1));
    }
    if p.asks_for_help(args) {
        let n = choose|n: Seq<char>| #[trigger] p.option(n) matches Some(o) && option_scan(o, args).2;
        lemma_entry_index(es, n, 0);
        let i = entry_index_from(es, n, 0).unwrap();
        assert(option_scan(es[i].1, args).2);
    }
}

impl CommandLineParser {
    /// Records the option `name`, replacing any option of that name.
    pub fn add(&mut self, name: &str, commands: Vec<&str>, has_value: bool, help: &str)
        ensures
            forall|n: Seq<char>|
                #![trigger final(self).option(n)]
                final(self).option(n) == if n == name@ {
                    Some(fresh_option(commands@.map_values(|c: &str| c@), has_value, help@))
                } else {
                    old(self).option(n)
                },
    {
        proof {
            use_type_invariant(&*self);
        }
        let mut cmds: Vec<String> = Vec::new();
        let mut i: usize = 0;
        while i < commands.len()
            invariant
                0 <= i <= commands@.len(),
                cmds@.map_values(|c: String| c@) =~= commands@.subrange(0, i as int).map_values(
                    |c: &str| c@,
                ),
            decreases commands@.len() - i,
        {
            let c = commands[i].to_owned();
            assert(c@ == commands@[i as int]@);
            let ghost before = cmds@;
            cmds.push(c);
            assert(cmds@.map_values(|c: String| c@) =~= before.map_values(|c: String| c@).push(c@));
            i += 1;
            assert(cmds@.map_values(|c: String| c@) =~= commands@.subrange(0, i as int).map_values(
                |c: &str| c@,
            ));
        }
        assert(commands@.subrange(0, commands@.len() as int) =~= commands@);
        let option = CommandLineOption {
            commands: cmds,
            help: help.to_owned(),
            set: false,
            has_value,
            value: String::new(),
        };
        let ghost ov = option@;
        let ghost es = entries(self.options@);
        let mut k: usize = 0;
        while k < self.options.len() && !str_eq(self.options[k].0.as_str(), name)
            invariant
                es == entries(self.options@),
                0 <= k <= es.len(),
                forall|j: int| 0 <= j < k ==> es[j].0 != name@,
            decreases es.len() - k,
        {
            k += 1;
        }
        let found = k < self.options.len();
        proof {
            if found {
                assert(es[k as int].0 == name@);
            }
        }
        let mut opts: Vec<(String, CommandLineOption)> = Vec::new();
        std::mem::swap(&mut opts, &mut self.options);
        if k < opts.len() {
            opts.set(k, (name.to_owned(), option));
        } else {
            opts.push((name.to_owned(), option));
        }
        let ghost es2 = entries(opts@);
        proof {
            if k < es.len() {
                assert(es2 =~= es.update(k as int, (name@, ov)));
                assert forall|a: int, b: int| 0 <= a < b < es2.len() implies es2[a].0 != es2[b].0 by {
                    assert(es2[a].0 == es[a].0 && es2[b].0 == es[b].0);
                }
            } else {
                assert(es2 =~= es.push((name@, ov)));
                assert forall|a: int, b: int| 0 <= a < b < es2.len() implies es2[a].0 != es2[b].0 by {
                    if b < es.len() {
                        assert(es2[a].0 == es[a].0 && es2[b].0 == es[b].0);
                    } else {
                        assert(es2[a].0 == es[a].0);
                    }
                }
            }
            assert(distinct_names(es2));
            assert forall|n: Seq<char>| #![trigger option_named(es2, n)] option_named(es2, n) == if n == name@ {
                Some(ov)
            } else {
                option_named(es, n)
            } by {
                if n == name@ {
                    lemma_option_at(es2, k as int);
                } else if exists|j: int| 0 <= j < es.len() && es[j].0 == n {
                    let j = choose|j: int| 0 <= j < es.len() && es[j].0 == n;
                    lemma_option_at(es, j);
                    lemma_option_at(es2, j);
                } else {
                    lemma_option_absent(es, n);
                    lemma_option_absent(es2, n);
                }
            }
        }
        self.options = opts;
    }
}

impl Default for CommandLineParser {
    /// A parser without options.
    fn default() -> (p: Self)
        ensures
            forall|n: Seq<char>| #[trigger] p.option(n) is None,
    {
        let p = CommandLineParser { options: Vec::new() };
        assert forall|n: Seq<char>| #[trigger] p.option(n) is None by {
            lemma_option_absent(entries(p.options@), n);
        }
        p
    }
}

impl CommandLineParser {
    /// A parser with the framework's options: help, validation, vsync,
    /// fullscreen, width, height, shaders, GPU selection and listing, and the
    /// benchmark settings.
    pub fn new() -> (p: Self)
        ensures
            forall|n: Seq<char>| #[trigger] p.option(n) == default_option(n),
    {
        let mut this = Self::default();
        let cmds = vec!["--help"];
        assert(cmds@.map_values(|c: &str| c@) =~= seq!["--help"@]);
        this.add("help", cmds, false, "Show help");
        let cmds = vec!["-v", "--validation"];
        assert(cmds@.map_values(|c: &str| c@) =~= seq!["-v"@, "--validation"@]);
        this.add("validation", cmds, false, "Enable validation layers");
        let cmds = vec!["-vs", "--vsync"];
        assert(cmds@.map_values(|c: &str| c@) =~= seq!["-vs"@, "--vsync"@]);
        this.add("vsync", cmds, false, "Enable V-Sync");
        let cmds = vec!["-f", "--fullscreen"];
        assert(cmds@.map_values(|c: &str| c@) =~= seq!["-f"@, "--fullscreen"@]);
        this.add("fullscreen", cmds, false, "Start in fullscreen mode");
        let cmds = vec!["-w", "--width"];
        assert(cmds@.map_values(|c: &str| c@) =~= seq!["-w"@, "--width"@]);
        this.add("width", cmds, true, "Set window width");
        let cmds = vec!["-h", "--height"];
        assert(cmds@.map_values(|c: &str| c@) =~= seq!["-h"@, "--height"@]);
        this.add("height", cmds, true, "Set window height");
        let cmds = vec!["-s", "--shaders"];
        assert(cmds@.map_values(|c: &str| c@) =~= seq!["-s"@, "--shaders"@]);
        this.add("shaders", cmds, true, "Select shader type to use (glsl or hlsl)");
        let cmds = vec!["-g", "--gpu"];
        assert(cmds@.map_values(|c: &str| c@) =~= seq!["-g"@, "--gpu"@]);
        this.add("gpuselection", cmds, true, "Select GPU to run on");
        let cmds = vec!["-gl", "--listgpus"];
        assert(cmds@.map_values(|c: &str| c@) =~= seq!["-gl"@, "--listgpus"@]);
        this.add("gpulist", cmds, false, "Display a list of available Vulkan devices");
        let cmds = vec!["-b", "--benchmark"];
        assert(cmds@.map_values(|c: &str| c@) =~= seq!["-b"@, "--benchmark"@]);
        this.add("benchmark", cmds, false, "Run example in benchmark mode");
        let cmds = vec!["-bw", "--benchwarmup"];
        assert(cmds@.map_values(|c: &str| c@) =~= seq!["-bw"@, "--benchwarmup"@]);
        this.add("benchmarkwamup", cmds, true, "Set warmup time for benchmark mode in seconds");
        let cmds = vec!["-br", "--benchruntime"];
        assert(cmds@.map_values(|c: &str| c@) =~= seq!["-br"@, "--benchruntime"@]);
        this.add("benchmarkruntime", cmds, true, "Set duration time for benchmark mode in seconds");
        let cmds = vec!["-bf", "--benchfilename"];
        assert(cmds@.map_values(|c: &str| c@) =~= seq!["-bf"@, "--benchfilename"@]);
        this.add("benchmarkresultfiles", cmds, true, "Set file name for benchmark results");
        let cmds = vec!["-bt", "--benchframetimes"];
        assert(cmds@.map_values(|c: &str| c@) =~= seq!["-bt"@, "--benchframetimes"@]);
        this.add("benchmarkresultframes", cmds, false, "Save frame times to benchmark results file");
        let cmds = vec!["-bfs", "--benchmarkframes"];
        assert(cmds@.map_values(|c: &str| c@) =~= seq!["-bfs"@, "--benchmarkframes"@]);
        this.add("benchmarkframes", cmds, true, "Only render the given number of frames");
        proof {
            reveal_strlit("help");
            assert("help"@.len() == 4 && "help"@[0] == 'h');
            reveal_strlit("validation");
            assert("validation"@.len() == 10 && "validation"@[0] == 'v');
            reveal_strlit("vsync");
            assert("vsync"@.len() == 5 && "vsync"@[0] == 'v');
            reveal_strlit("fullscreen");
            assert("fullscreen"@.len() == 10 && "fullscreen"@[0] == 'f');
            reveal_strlit("width");
            assert("width"@.len() == 5 && "width"@[0] == 'w');
            reveal_strlit("height");
            assert("height"@.len() == 6 && "height"@[0] == 'h');
            reveal_strlit("shaders");
            assert("shaders"@.len() == 7 && "shaders"@[0] == 's');
            reveal_strlit("gpuselection");
            assert("gpuselection"@.len() == 12 && "gpuselection"@[0] == 'g');
            reveal_strlit("gpulist");
            assert("gpulist"@.len() == 7 && "gpulist"@[0] == 'g');
            reveal_strlit("benchmark");
            assert("benchmark"@.len() == 9 && "benchmark"@[0] == 'b');
            reveal_strlit("benchmarkwamup");
            assert("benchmarkwamup"@.len() == 14 && "benchmarkwamup"@[0] == 'b');
            reveal_strlit("benchmarkruntime");
            assert("benchmarkruntime"@.len() == 16 && "benchmarkruntime"@[0] == 'b');
            reveal_strlit("benchmarkresultfiles");
            assert("benchmarkresultfiles"@.len() == 20 && "benchmarkresultfiles"@[0] == 'b');
            reveal_strlit("benchmarkresultframes");
            assert("benchmarkresultframes"@.len() == 21 && "benchmarkresultframes"@[0] == 'b');
            reveal_strlit("benchmarkframes");
            assert("benchmarkframes"@.len() == 15 && "benchmarkframes"@[0] == 'b');
        }
        assert forall|n: Seq<char>| #[trigger] this.option(n) == default_option(n) by {}
        this
    }

    /// Whether the option `name` exists and was given.
    pub fn is_set(&self, name: &str) -> (b: bool)
        ensures
            b == (self.option(name@) matches Some(o) && o.set),
    {
        proof {
            use_type_invariant(self);
        }
        let ghost es = entries(self.options@);
        let mut k: usize = 0;
        while k < self.options.len() && !str_eq(self.options[k].0.as_str(), name)
            invariant
                es == entries(self.options@),
                0 <= k <= es.len(),
                forall|j: int| 0 <= j < k ==> es[j].0 != name@,
            decreases es.len() - k,
        {
            k += 1;
        }
        if k < self.options.len() {
            proof {
                lemma_option_at(es, k as int);
            }
            self.options[k].1.set
        } else {
            proof {
                lemma_option_absent(es, name@);
            }
            false
        }
    }

    /// The position of the option `name`, which exists.
    fn position(&self, name: &str) -> (k: usize)
        requires
            self.option(name@) is Some,
        ensures
            k < self.options@.len(),
            self.options@[k as int].0@ == name@,
            self.option(name@) == Some(self.options@[k as int].1@),
    {
        proof {
            use_type_invariant(self);
        }
        let ghost es = entries(self.options@);
        let mut k: usize = 0;
        while k < self.options.len() && !str_eq(self.options[k].0.as_str(), name)
            invariant
                es == entries(self.options@),
                0 <= k <= es.len(),
                forall|j: int| 0 <= j < k ==> es[j].0 != name@,
            decreases es.len() - k,
        {
            k += 1;
        }
        proof {
            if k >= self.options.len() {
                lemma_option_absent(es, name@);
            }
            lemma_option_at(es, k as int);
        }
        k
    }

    /// The value of the option `name` (which must exist), or `default_value`
    /// when it has none.
    pub fn get_value_as_string(&self, name: &str, default_value: &str) -> (s: String)
        requires
            self.option(name@) is Some,
        ensures
            s@ == (if self.option(name@).unwrap().value.len() > 0 {
                self.option(name@).unwrap().value
            } else {
                default_value@
            }),
    {
        let k = self.position(name);
        let value = self.options[k].1.value.clone();
        if !value.as_str().is_empty() {
            value
        } else {
            default_value.to_owned()
        }
    }

    /// The value of the option `name` (which must exist) as a number, or
    /// `default_value` when it has none or it is not a number.
    pub fn get_value_as_int(&self, name: &str, default_value: i32) -> (v: i32)
        requires
            self.option(name@) is Some,
        ensures
            v == (if self.option(name@).unwrap().value.len() > 0 {
                match parsed_i32(self.option(name@).unwrap().value) {
                    Some(x) => x,
                    None => default_value,
                }
            } else {
                default_value
            }),
    {
        let k = self.position(name);
        let value = &self.options[k].1.value;
        if !value.as_str().is_empty() {
            match parse_i32(value.as_str()) {
                Some(x) => x,
                None => default_value,
            }
        } else {
            default_value
        }
    }
}

/// The arguments as text.
pub open spec fn arg_texts(args: Seq<String>) -> Seq<Seq<char>> {
    args.map_values(|a: String| a@)
}

/// The options after the arguments were read, with the `help` option also
/// set when `help` holds.
pub open spec fn parsed_entries(es: Seq<(Seq<char>, OptionView)>, args: Seq<Seq<char>>, help: bool) -> Seq<
    (Seq<char>, OptionView),
> {
    Seq::new(es.len(), |j: int| (es[j].0, after_parse(es[j].1, args, help && es[j].0 == "help"@)))
}

fn command_scan_exec(args: &Vec<String>, c: &String, has_value: bool, set0: bool, value0: &String) -> (r: (
    bool,
    String,
    bool,
))
    ensures
        (r.0, r.1@, r.2) == command_scan(arg_texts(args@), c@, has_value, 0, set0, value0@),
{
    let ghost av = arg_texts(args@);
    let ghost v0 = value0@;
    let mut set = set0;
    let mut value = value0.clone();
    let n = args.len();
    let mut i: usize = 0;
    while i < n
        invariant
            n == args@.len(),
            av == arg_texts(args@),
            v0 == value0@,
            0 <= i <= n,
            command_scan(av, c@, has_value, 0, set0, v0) == command_scan(
                av,
                c@,
                has_value,
                i as int,
                set,
                value@,
            ),
        decreases n - i,
    {
        assert(av[i as int] == args@[i as int]@);
        let ghost set_i = set;
        let ghost value_i = value@;
        if str_eq(args[i].as_str(), c.as_str()) {
            set = true;
            if has_value {
                if n > i + 1 {
                    value = args[i + 1].clone();
                    assert(av[i + 1] == args@[i + 1]@);
                }
                if value.as_str().is_empty() {
                    assert(command_scan(av, c@, has_value, i as int, set_i, value_i) == (
                        true,
                        value@,
                        true,
                    ));
                    assert(command_scan(av, c@, has_value, 0, set0, v0) == (true, value@, true));
                    let res = (true, value, true);
                    assert((res.0, res.1@, res.2) == (true, value@, true));
                    return res;
                }
            }
        }
        i += 1;
    }
    (set, value, false)
}

fn option_scan_exec(o: &CommandLineOption, args: &Vec<String>) -> (r: (bool, String, bool))
    ensures
        (r.0, r.1@, r.2) == option_scan(o@, arg_texts(args@)),
{
    let ghost av = arg_texts(args@);
    let ghost ov = o@;
    let mut set = o.set;
    let mut value = o.value.clone();
    let mut help = false;
    let m = o.commands.len();
    let mut k: usize = 0;
    while k < m
        invariant
            m == o.commands@.len(),
            ov == o@,
            av == arg_texts(args@),
            0 <= k <= m,
            commands_scan(av, ov.commands, ov.has_value, k as nat, ov.set, ov.value) == (
                set,
                value@,
                help,
            ),
        decreases m - k,
    {
        assert(ov.commands[k as int] == o.commands@[k as int]@);
        let (s2, v2, h2) = command_scan_exec(args, &o.commands[k], o.has_value, set, &value);
        set = s2;
        value = v2;
        help = help || h2;
        k += 1;
    }
    (set, value, help)
}

impl CommandLineParser {
    /// Reads the command line: each option given by one of its switches is
    /// set, and takes the following argument as its value when it has one; an
    /// option that takes a value but is left without one sets `help`.
    pub fn parse(&mut self, arguments: Vec<String>)
        requires
            old(self).asks_for_help(arg_texts(arguments@)) ==> old(self).option(
                "help"@,
            ) is Some,
        ensures
            forall|n: Seq<char>|
                #![trigger final(self).option(n)]
                final(self).option(n) == match old(self).option(n) {
                    Some(o) => Some(
                        after_parse(
                            o,
                            arg_texts(arguments@),
                            n == "help"@ && old(self).asks_for_help(arg_texts(arguments@)),
                        ),
                    ),
                    None => None,
                },
    {
        proof {
            use_type_invariant(&*self);
        }
        let ghost es = entries(self.options@);
        let ghost av = arg_texts(arguments@);
        proof {
            lemma_help_by_name(*self, av);
        }
        let ghost wanted = help_requested(es, av);
        let mut old_opts: Vec<(String, CommandLineOption)> = Vec::new();
        std::mem::swap(&mut old_opts, &mut self.options);
        let mut new_opts: Vec<(String, CommandLineOption)> = Vec::new();
        let mut print_help = false;
        let n = old_opts.len();
        let mut k: usize = 0;
        assert(entries(old_opts@) =~= es.subrange(0, n as int));
        assert(entries(new_opts@) =~= parsed_entries(es.subrange(0, 0), av, false));
        while k < n
            invariant
                n == es.len(),
                av == arg_texts(arguments@),
                0 <= k <= n,
                entries(old_opts@) == es.subrange(k as int, n as int),
                entries(new_opts@) == parsed_entries(es.subrange(0, k as int), av, false),
                print_help == exists|j: int| 0 <= j < k && (#[trigger] option_scan(es[j].1, av)).2,
            decreases n - k,
        {
            let ghost before_old = old_opts@;
            let ghost before_new = entries(new_opts@);
            assert(entries(old_opts@).len() == old_opts@.len());
            assert(old_opts@.len() == n - k);
            let (name, mut opt) = old_opts.remove(0);
            assert(entries(before_old)[0] == es[k as int]);
            assert(entries(before_old)[0] == (before_old[0].0@, before_old[0].1@));
            assert((name@, opt@) == es[k as int]);
            let (set, value, help) = option_scan_exec(&opt, &arguments);
            opt.set = set;
            opt.value = value;
            let ghost e = (name@, opt@);
            assert(e == (es[k as int].0, after_parse(es[k as int].1, av, false)));
            new_opts.push((name, opt));
            print_help = print_help || help;
            proof {
                assert(entries(old_opts@) =~= es.subrange(k + 1, n as int)) by {
                    assert(old_opts@ =~= before_old.remove(0));
                    assert forall|j: int| 0 <= j < old_opts@.len() implies entries(old_opts@)[j] == es[k + 1 + j] by {
                        assert(old_opts@[j] == before_old[j + 1]);
                        assert(entries(before_old)[j + 1] == es[k + 1 + j]);
                    }
                }
                assert(entries(new_opts@) =~= before_new.push(e));
                assert(entries(new_opts@) =~= parsed_entries(es.subrange(0, k + 1), av, false));
                if help {
                    assert(option_scan(es[k as int].1, av).2);
                }
            }
            k += 1;
        }
        assert(es.subrange(0, n as int) =~= es);
        assert(print_help == wanted);
        if print_help {
            let ghost pe = entries(new_opts@);
            proof {
                lemma_entry_index(es, "help"@, 0);
            }
            let mut h: usize = 0;
            while h < new_opts.len() && !str_eq(new_opts[h].0.as_str(), "help")
                invariant
                    pe == entries(new_opts@),
                    pe == parsed_entries(es, av, false),
                    0 <= h <= pe.len(),
                    exists|j: int| 0 <= j < es.len() && es[j].0 == "help"@,
                    forall|j: int| 0 <= j < h ==> pe[j].0 != "help"@,
                decreases pe.len() - h,
            {
                h += 1;
            }
            if h >= new_opts.len() {
                proof {
                    let j = choose|j: int| 0 <= j < es.len() && es[j].0 == "help"@;
                    assert(pe[j].0 == "help"@);
                }
                assert(false);
            }
            let ghost before = new_opts@;
            let (nm, mut o) = new_opts.remove(h);
            assert((nm@, o@) == pe[h as int]);
            o.set = true;
            let ghost e = (nm@, o@);
            assert(e == (es[h as int].0, after_parse(es[h as int].1, av, true)));
            new_opts.insert(h, (nm, o));
            proof {
                assert(entries(new_opts@) =~= pe.update(h as int, e));
                assert(pe[h as int].0 == "help"@);
                assert(new_opts@ =~= before.update(h as int, (nm, o)));
                assert forall|j: int| 0 <= j < es.len() && j != h implies es[j].0 != "help"@ by {
                    assert(es[h as int].0 == "help"@);
                }
                assert(entries(new_opts@) =~= parsed_entries(es, av, true));
            }
        } else {
            assert(entries(new_opts@) =~= parsed_entries(es, av, false));
        }
        let ghost es2 = entries(new_opts@);
        assert(es2 == parsed_entries(es, av, wanted));
        proof {
            assert forall|a: int, b: int| 0 <= a < b < es2.len() implies es2[a].0 != es2[b].0 by {
                assert(es2[a].0 == es[a].0 && es2[b].0 == es[b].0);
            }
            assert forall|nm: Seq<char>| #![trigger option_named(es2, nm)] option_named(es2, nm) == match option_named(es, nm) {
                Some(o) => Some(after_parse(o, av, nm == "help"@ && wanted)),
                None => None,
            } by {
                if exists|j: int| 0 <= j < es.len() && es[j].0 == nm {
                    let j = choose|j: int| 0 <= j < es.len() && es[j].0 == nm;
                    lemma_option_at(es, j);
                    lemma_option_at(es2, j);
                } else {
                    lemma_option_absent(es, nm);
                    lemma_option_absent(es2, nm);
                }
            }
        }
        self.options = new_opts;
    }
}

/// Whether the option `name` exists and was given.
pub open spec fn option_set(p: CommandLineParser, name: Seq<char>) -> bool {
    p.option(name) matches Some(o) && o.set
}

/// The value of an existing option `name` as a number, as
/// `get_value_as_int` reads it with default `d`.
pub open spec fn option_int(p: CommandLineParser, name: Seq<char>, d: i32) -> i32 {
    if p.option(name).unwrap().value.len() > 0 {
        match parsed_i32(p.option(name).unwrap().value) {
            Some(x) => x,
            None => d,
        }
    } else {
        d
    }
}

/// The value of an existing option `name`, as `get_value_as_string` reads it
/// with default `d`.
pub open spec fn option_text(p: CommandLineParser, name: Seq<char>, d: Seq<char>) -> Seq<char> {
    if p.option(name).unwrap().value.len() > 0 {
        p.option(name).unwrap().value
    } else {
        d
    }
}

/// What the example takes from its command line: its switches, the window
/// size, the shader language, and the benchmark's warm-up time, run time,
/// result file, whether to save frame times and how many frames to render.
/// `shader_type_rejected` tells that a shader language other than `glsl` or
/// `hlsl` was asked for (and ignored).
pub struct LaunchSettings {
    pub settings: Settings,
    pub width: u32,
    pub height: u32,
    pub shader_dir: String,
    pub shader_type_rejected: bool,
    pub benchmark_warmup: u32,
    pub benchmark_duration: u32,
    pub benchmark_filename: String,
    pub benchmark_output_frame_times: bool,
    pub benchmark_output_frames: i32,
}

/// The example's settings from its parsed command line, starting from the
/// defaults (a 1280 by 720 window, GLSL shaders, the overlay on, everything
/// else off or zero) and validation as `enable_validation` asks: each option
/// given overrides its setting. The benchmark switch itself is not handled
/// and must not be given. The warm-up time and the result file are looked up
/// under the names `benchmarkwarmup` and `benchmarkresultfile`.
pub fn launch_settings(parser: &CommandLineParser, enable_validation: bool) -> (l: LaunchSettings)
    requires
        !option_set(*parser, "benchmark"@),
    ensures
        l.settings == (Settings {
            validation: enable_validation || option_set(*parser, "validation"@),
            fullscreen: option_set(*parser, "fullscreen"@),
            vsync: option_set(*parser, "vsync"@),
            overlay: true,
        }),
        l.width == if option_set(*parser, "width"@) {
            option_int(*parser, "width"@, 1280) as u32
        } else {
            1280
        },
        l.height == if option_set(*parser, "height"@) {
            option_int(*parser, "height"@, 720) as u32
        } else {
            720
        },
        ({
            let t = option_text(*parser, "shaders"@, "glsl"@);
            let asked = option_set(*parser, "shaders"@);
            let known = t == "glsl"@ || t == "hlsl"@;
            &&& l.shader_dir@ == if asked && known {
                t
            } else {
                "glsl"@
            }
            &&& l.shader_type_rejected == (asked && !known)
        }),
        l.benchmark_warmup == if option_set(*parser, "benchmarkwarmup"@) {
            option_int(*parser, "benchmarkwarmup"@, 0) as u32
        } else {
            0
        },
        l.benchmark_duration == if option_set(*parser, "benchmarkruntime"@) {
            option_int(*parser, "benchmarkruntime"@, 0) as u32
        } else {
            0
        },
        l.benchmark_filename@ == if option_set(*parser, "benchmarkresultfile"@) {
            option_text(*parser, "benchmarkresultfile"@, ""@)
        } else {
            ""@
        },
        l.benchmark_output_frame_times == option_set(*parser, "benchmarkresultframes"@),
        l.benchmark_output_frames == if option_set(*parser, "benchmarkframes"@) {
            option_int(*parser, "benchmarkframes"@, 0)
        } else {
            0
        },
{
    let mut settings = Settings::default();
    settings.validation = enable_validation;
    if parser.is_set("validation") {
        settings.validation = true;
    }
    if parser.is_set("vsync") {
        settings.vsync = true;
    }
    let mut width: u32 = 1280;
    if parser.is_set("width") {
        width = parser.get_value_as_int("width", 1280) as u32;
    }
    let mut height: u32 = 720;
    if parser.is_set("height") {
        height = parser.get_value_as_int("height", 720) as u32;
    }
    if parser.is_set("fullscreen") {
        settings.fullscreen = true;
    }
    let mut shader_dir = "glsl".to_owned();
    let mut shader_type_rejected = false;
    if parser.is_set("shaders") {
        let value = parser.get_value_as_string("shaders", "glsl");
        if !str_eq(value.as_str(), "glsl") && !str_eq(value.as_str(), "hlsl") {
            shader_type_rejected = true;
        } else {
            shader_dir = value;
        }
    }
    let mut benchmark_warmup: u32 = 0;
    if parser.is_set("benchmarkwarmup") {
        benchmark_warmup = parser.get_value_as_int("benchmarkwarmup", 0) as u32;
    }
    let mut benchmark_duration: u32 = 0;
    if parser.is_set("benchmarkruntime") {
        benchmark_duration = parser.get_value_as_int("benchmarkruntime", 0) as u32;
    }
    let mut benchmark_filename = "".to_owned();
    if parser.is_set("benchmarkresultfile") {
        benchmark_filename = parser.get_value_as_string("benchmarkresultfile", "");
    }
    let benchmark_output_frame_times = parser.is_set("benchmarkresultframes");
    let mut benchmark_output_frames: i32 = 0;
    if parser.is_set("benchmarkframes") {
        benchmark_output_frames = parser.get_value_as_int("benchmarkframes", 0);
    }
    LaunchSettings {
        settings,
        width,
        height,
        shader_dir,
        shader_type_rejected,
        benchmark_warmup,
        benchmark_duration,
        benchmark_filename,
        benchmark_output_frame_times,
        benchmark_output_frames,
    }
}

} // verus!
