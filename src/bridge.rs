//! The contract between the OS hook and the engine: decoding what the hook
//! delivers, and the origin tag that marks events the engine sent itself.
use vstd::prelude::*;
use crate::button::{Button, ButtonAction, Key, MouseInput};
use crate::event::{ButtonEvent, CursorEvent, Event, WheelEvent};

verus! {

/// The bit that the injector sets in the extra-info field of every event it sends.
pub const ORIGIN_TAG: usize = 0x100;

/// Whether an extra-info field carries the origin tag.
pub open spec fn carries_tag(extra_info: usize) -> bool {
    extra_info & ORIGIN_TAG != 0
}

/// Whether an extra-info field carries the origin tag.
pub fn is_injected(extra_info: usize) -> (r: bool)
    ensures
        r == carries_tag(extra_info),
{
    extra_info & ORIGIN_TAG != 0
}

/// The action reported by the keyboard hook.
#[derive(Clone, Copy, Debug, PartialEq, Eq, Structural)]
pub enum KeyboardAction {
    Press,
    Release,
}

/// The action reported by the mouse hook.
#[derive(Clone, Copy, Debug, PartialEq, Eq, Structural)]
pub enum MouseAction {
    Press,
    Release,
    /// A relative move.
    Move(i32, i32),
    /// A wheel rotation.
    Wheel(i32),
}

/// The keyboard hook's action: bit 7 of its flags is set on a release.
pub open spec fn spec_keyboard_action(flags: u32) -> KeyboardAction {
    if flags >> 7u32 == 0 {
        KeyboardAction::Press
    } else {
        KeyboardAction::Release
    }
}

/// The keyboard hook's action: bit 7 of its flags is set on a release.
pub fn keyboard_action(flags: u32) -> (r: KeyboardAction)
    ensures
        r == spec_keyboard_action(flags),
{
    if flags >> 7u32 == 0 {
        KeyboardAction::Press
    } else {
        KeyboardAction::Release
    }
}

impl KeyboardAction {
    pub open spec fn spec_button_action(self) -> ButtonAction {
        match self {
            KeyboardAction::Press => ButtonAction::Press,
            KeyboardAction::Release => ButtonAction::Release,
        }
    }

    /// The same action on a button.
    pub fn button_action(self) -> (r: ButtonAction)
        ensures
            r == self.spec_button_action(),
    {
        match self {
            KeyboardAction::Press => ButtonAction::Press,
            KeyboardAction::Release => ButtonAction::Release,
        }
    }
}

/// A press or release as it travels through the OS, with its extra-info field.
#[derive(Clone, Copy, Debug, PartialEq, Eq, Structural)]
pub struct RawButtonInput {
    pub button: Button,
    pub action: ButtonAction,
    pub extra_info: usize,
}

/// What the injector hands the OS to send `action` on `button`: it carries the origin tag.
pub open spec fn spec_emitted(button: Button, action: ButtonAction) -> RawButtonInput {
    RawButtonInput { button, action, extra_info: ORIGIN_TAG }
}

/// The event the bridge hands the resolver for a press or release.
pub open spec fn spec_capture_button(raw: RawButtonInput) -> ButtonEvent {
    ButtonEvent { target: raw.button, action: raw.action, injected: carries_tag(raw.extra_info) }
}

/// What the injector hands the OS to send `action` on `button`: it carries the origin tag.
pub fn emitted(button: Button, action: ButtonAction) -> (r: RawButtonInput)
    ensures
        r == spec_emitted(button, action),
{
    RawButtonInput { button, action, extra_info: ORIGIN_TAG }
}

/// The event the bridge hands the resolver for a press or release.
pub fn capture_button(raw: RawButtonInput) -> (r: ButtonEvent)
    ensures
        r == spec_capture_button(raw),
{
    ButtonEvent { target: raw.button, action: raw.action, injected: is_injected(raw.extra_info) }
}

/// What the keyboard hook delivers: a key, the flags and the extra-info field.
pub fn keyboard_input(key: Key, flags: u32, extra_info: usize) -> (r: RawButtonInput)
    ensures
        r == (RawButtonInput {
            button: Button::Key(key),
            action: spec_keyboard_action(flags).spec_button_action(),
            extra_info,
        }),
{
    RawButtonInput { button: Button::Key(key), action: keyboard_action(flags).button_action(), extra_info }
}

/// The event the bridge hands the resolver for what the mouse hook delivers.
pub fn capture_mouse(input: MouseInput, action: MouseAction, extra_info: usize) -> (r: Event)
    ensures
        r == (match action {
            MouseAction::Press => Event::Button(
                ButtonEvent { target: Button::Mouse(input), action: ButtonAction::Press, injected: carries_tag(extra_info) },
            ),
            MouseAction::Release => Event::Button(
                ButtonEvent { target: Button::Mouse(input), action: ButtonAction::Release, injected: carries_tag(extra_info) },
            ),
            MouseAction::Move(dx, dy) => Event::Cursor(CursorEvent { dx, dy, injected: carries_tag(extra_info) }),
            MouseAction::Wheel(delta) => Event::Wheel(WheelEvent { delta, injected: carries_tag(extra_info) }),
        }),
{
    let injected = is_injected(extra_info);
    match action {
        MouseAction::Press => Event::Button(ButtonEvent { target: Button::Mouse(input), action: ButtonAction::Press, injected }),
        MouseAction::Release => Event::Button(ButtonEvent { target: Button::Mouse(input), action: ButtonAction::Release, injected }),
        MouseAction::Move(dx, dy) => Event::Cursor(CursorEvent { dx, dy, injected }),
        MouseAction::Wheel(delta) => Event::Wheel(WheelEvent { delta, injected }),
    }
}

/// A key-state byte after `action`: its high bit is set while the key is down.
pub open spec fn spec_key_state_byte(old: u8, action: ButtonAction) -> u8 {
    match action {
        ButtonAction::Press => old | 0x80u8,
        ButtonAction::Release => old & 0x7fu8,
    }
}

/// A key-state byte after `action`: its high bit is set while the key is down.
pub fn key_state_byte(old: u8, action: ButtonAction) -> (r: u8)
    ensures
        r == spec_key_state_byte(old, action),
        (r & 0x80u8 != 0) == (action == ButtonAction::Press),
        r & 0x7fu8 == old & 0x7fu8,
{
    let r = match action {
        ButtonAction::Press => old | 0x80u8,
        ButtonAction::Release => old & 0x7fu8,
    };
    proof {
        assert((old | 0x80u8) & 0x80u8 != 0) by (bit_vector);
        assert((old & 0x7fu8) & 0x80u8 == 0) by (bit_vector);
        assert((old | 0x80u8) & 0x7fu8 == old & 0x7fu8) by (bit_vector);
        assert((old & 0x7fu8) & 0x7fu8 == old & 0x7fu8) by (bit_vector);
    }
    r
}

/// Whether a key state word says the key is down: its high bit.
pub fn key_state_pressed(state: i16) -> (r: bool)
    ensures
        r == (state < 0),
{
    proof {
        assert((state as u16) & 0x8000u16 != 0 <==> state < 0) by (bit_vector);
    }
    (state as u16) & 0x8000u16 != 0
}

/// Whether a key state word says the key is toggled on: its low bit.
pub fn key_state_toggled(state: i16) -> (r: bool)
    ensures
        r == ((state as u16) % 2 == 1),
{
    proof {
        assert((state as u16) & 1u16 != 0 <==> (state as u16) % 2 == 1) by (bit_vector);
    }
    (state as u16) & 1u16 != 0
}

/// Mouse messages of the low-level mouse hook.
pub const WM_MOUSEMOVE: u32 = 0x0200;
pub const WM_LBUTTONDOWN: u32 = 0x0201;
pub const WM_LBUTTONUP: u32 = 0x0202;
pub const WM_RBUTTONDOWN: u32 = 0x0204;
pub const WM_RBUTTONUP: u32 = 0x0205;
pub const WM_MBUTTONDOWN: u32 = 0x0207;
pub const WM_MBUTTONUP: u32 = 0x0208;
pub const WM_MOUSEWHEEL: u32 = 0x020A;
pub const WM_XBUTTONDOWN: u32 = 0x020B;
pub const WM_XBUTTONUP: u32 = 0x020C;

/// The side button that the high word of the mouse data names.
pub open spec fn spec_side_button(mouse_data: u32) -> Option<MouseInput> {
    let high = mouse_data >> 16u32;
    if high == 1 {
        Some(MouseInput::SideButton1)
    } else if high == 2 {
        Some(MouseInput::SideButton2)
    } else {
        None
    }
}

/// The input and action of a low-level mouse message, if it is one the engine handles.
/// The wheel delta is the signed high word of the mouse data; a move carries `dx`, `dy`.
pub open spec fn spec_mouse_message(msg: u32, mouse_data: u32, dx: i32, dy: i32) -> Option<(MouseInput, MouseAction)> {
    if msg == WM_MOUSEMOVE {
        Some((MouseInput::Move, MouseAction::Move(dx, dy)))
    } else if msg == WM_LBUTTONDOWN {
        Some((MouseInput::LButton, MouseAction::Press))
    } else if msg == WM_LBUTTONUP {
        Some((MouseInput::LButton, MouseAction::Release))
    } else if msg == WM_RBUTTONDOWN {
        Some((MouseInput::RButton, MouseAction::Press))
    } else if msg == WM_RBUTTONUP {
        Some((MouseInput::RButton, MouseAction::Release))
    } else if msg == WM_MBUTTONDOWN {
        Some((MouseInput::MButton, MouseAction::Press))
    } else if msg == WM_MBUTTONUP {
        Some((MouseInput::MButton, MouseAction::Release))
    } else if msg == WM_MOUSEWHEEL {
        Some((MouseInput::Wheel, MouseAction::Wheel(((mouse_data >> 16u32) as u16) as i16 as i32)))
    } else if msg == WM_XBUTTONDOWN {
        match spec_side_button(mouse_data) {
            Some(b) => Some((b, MouseAction::Press)),
            None => None,
        }
    } else if msg == WM_XBUTTONUP {
        match spec_side_button(mouse_data) {
            Some(b) => Some((b, MouseAction::Release)),
            None => None,
        }
    } else {
        None
    }
}

fn side_button(mouse_data: u32) -> (r: Option<MouseInput>)
    ensures
        r == spec_side_button(mouse_data),
{
    let high = mouse_data >> 16u32;
    if high == 1 {
        Some(MouseInput::SideButton1)
    } else if high == 2 {
        Some(MouseInput::SideButton2)
    } else {
        None
    }
}

/// The input and action of a low-level mouse message, if it is one the engine handles.
pub fn mouse_message(msg: u32, mouse_data: u32, dx: i32, dy: i32) -> (r: Option<(MouseInput, MouseAction)>)
    ensures
        r == spec_mouse_message(msg, mouse_data, dx, dy),
{
    if msg == WM_MOUSEMOVE {
        Some((MouseInput::Move, MouseAction::Move(dx, dy)))
    } else if msg == WM_LBUTTONDOWN {
        Some((MouseInput::LButton, MouseAction::Press))
    } else if msg == WM_LBUTTONUP {
        Some((MouseInput::LButton, MouseAction::Release))
    } else if msg == WM_RBUTTONDOWN {
        Some((MouseInput::RButton, MouseAction::Press))
    } else if msg == WM_RBUTTONUP {
        Some((MouseInput::RButton, MouseAction::Release))
    } else if msg == WM_MBUTTONDOWN {
        Some((MouseInput::MButton, MouseAction::Press))
    } else if msg == WM_MBUTTONUP {
        Some((MouseInput::MButton, MouseAction::Release))
    } else if msg == WM_MOUSEWHEEL {
        Some((MouseInput::Wheel, MouseAction::Wheel(((mouse_data >> 16u32) as u16) as i16 as i32)))
    } else if msg == WM_XBUTTONDOWN {
        match side_button(mouse_data) {
            Some(b) => Some((b, MouseAction::Press)),
            None => None,
        }
    } else if msg == WM_XBUTTONUP {
        match side_button(mouse_data) {
            Some(b) => Some((b, MouseAction::Release)),
            None => None,
        }
    } else {
        None
    }
}

/// The origin tag marks what it is put on.
pub proof fn lemma_tag_detected()
    ensures
        carries_tag(ORIGIN_TAG),
{
    assert(0x100usize & 0x100usize != 0) by (bit_vector);
}

} // verus!
