//! The closed set of buttons the engine knows, and the press/release actions on them.
use vstd::prelude::*;

verus! {

/// Number of keyboard keys.
pub const KEY_COUNT: usize = 120;

/// Number of mouse inputs.
pub const MOUSE_INPUT_COUNT: usize = 7;

/// Number of buttons: every key and every mouse input.
pub const BUTTON_COUNT: usize = 127;

/// A keyboard key.
#[derive(Clone, Copy, Debug, PartialEq, Eq, Hash, Structural)]
pub enum Key {
    Backspace,
    Tab,
    Enter,
    CapsLock,
    Esc,
    Henkan,
    Muhenkan,
    Space,
    PageUp,
    PageDown,
    End,
    Home,
    LeftArrow,
    UpArrow,
    RightArrow,
    DownArrow,
    PrintScreen,
    Insert,
    Delete,
    Key0,
    Key1,
    Key2,
    Key3,
    Key4,
    Key5,
    Key6,
    Key7,
    Key8,
    Key9,
    A,
    B,
    C,
    D,
    E,
    F,
    G,
    H,
    I,
    J,
    K,
    L,
    M,
    N,
    O,
    P,
    Q,
    R,
    S,
    T,
    U,
    V,
    W,
    X,
    Y,
    Z,
    LMeta,
    RMeta,
    Application,
    Numpad0,
    Numpad1,
    Numpad2,
    Numpad3,
    Numpad4,
    Numpad5,
    Numpad6,
    Numpad7,
    Numpad8,
    Numpad9,
    NumpadAsterisk,
    NumpadPlus,
    NumpadMinus,
    NumpadDot,
    NumpadSlash,
    F1,
    F2,
    F3,
    F4,
    F5,
    F6,
    F7,
    F8,
    F9,
    F10,
    F11,
    F12,
    F13,
    F14,
    F15,
    F16,
    F17,
    F18,
    F19,
    F20,
    F21,
    F22,
    F23,
    F24,
    Numlock,
    ScrollLock,
    LShift,
    RShift,
    LCtrl,
    RCtrl,
    LAlt,
    RAlt,
    Colon,
    SemiColon,
    Comma,
    Minus,
    Dot,
    Slash,
    At,
    LeftSquareBracket,
    BackSlashWithVerticalBar,
    RightSquareBracket,
    Hat,
    BackSlashWithUnderLine,
    Eisuu,
    KatakanaHiragana,
    HannkakuZenkaku,
}

/// A mouse button, or one of the wheel and cursor pseudo-buttons.
#[derive(Clone, Copy, Debug, PartialEq, Eq, Hash, Structural)]
pub enum MouseInput {
    LButton,
    RButton,
    MButton,
    SideButton1,
    SideButton2,
    Wheel,
    Move,
}

impl Key {
    /// The position of the key in the list of keys.
    pub open spec fn spec_index(self) -> int {
        match self {
            Key::Backspace => 0,
            Key::Tab => 1,
            Key::Enter => 2,
            Key::CapsLock => 3,
            Key::Esc => 4,
            Key::Henkan => 5,
            Key::Muhenkan => 6,
            Key::Space => 7,
            Key::PageUp => 8,
            Key::PageDown => 9,
            Key::End => 10,
            Key::Home => 11,
            Key::LeftArrow => 12,
            Key::UpArrow => 13,
            Key::RightArrow => 14,
            Key::DownArrow => 15,
            Key::PrintScreen => 16,
            Key::Insert => 17,
            Key::Delete => 18,
            Key::Key0 => 19,
            Key::Key1 => 20,
            Key::Key2 => 21,
            Key::Key3 => 22,
            Key::Key4 => 23,
            Key::Key5 => 24,
            Key::Key6 => 25,
            Key::Key7 => 26,
            Key::Key8 => 27,
            Key::Key9 => 28,
            Key::A => 29,
            Key::B => 30,
            Key::C => 31,
            Key::D => 32,
            Key::E => 33,
            Key::F => 34,
            Key::G => 35,
            Key::H => 36,
            Key::I => 37,
            Key::J => 38,
            Key::K => 39,
            Key::L => 40,
            Key::M => 41,
            Key::N => 42,
            Key::O => 43,
            Key::P => 44,
            Key::Q => 45,
            Key::R => 46,
            Key::S => 47,
            Key::T => 48,
            Key::U => 49,
            Key::V => 50,
            Key::W => 51,
            Key::X => 52,
            Key::Y => 53,
            Key::Z => 54,
            Key::LMeta => 55,
            Key::RMeta => 56,
            Key::Application => 57,
            Key::Numpad0 => 58,
            Key::Numpad1 => 59,
            Key::Numpad2 => 60,
            Key::Numpad3 => 61,
            Key::Numpad4 => 62,
            Key::Numpad5 => 63,
            Key::Numpad6 => 64,
            Key::Numpad7 => 65,
            Key::Numpad8 => 66,
            Key::Numpad9 => 67,
            Key::NumpadAsterisk => 68,
            Key::NumpadPlus => 69,
            Key::NumpadMinus => 70,
            Key::NumpadDot => 71,
            Key::NumpadSlash => 72,
            Key::F1 => 73,
            Key::F2 => 74,
            Key::F3 => 75,
            Key::F4 => 76,
            Key::F5 => 77,
            Key::F6 => 78,
            Key::F7 => 79,
            Key::F8 => 80,
            Key::F9 => 81,
            Key::F10 => 82,
            Key::F11 => 83,
            Key::F12 => 84,
            Key::F13 => 85,
            Key::F14 => 86,
            Key::F15 => 87,
            Key::F16 => 88,
            Key::F17 => 89,
            Key::F18 => 90,
            Key::F19 => 91,
            Key::F20 => 92,
            Key::F21 => 93,
            Key::F22 => 94,
            Key::F23 => 95,
            Key::F24 => 96,
            Key::Numlock => 97,
            Key::ScrollLock => 98,
            Key::LShift => 99,
            Key::RShift => 100,
            Key::LCtrl => 101,
            Key::RCtrl => 102,
            Key::LAlt => 103,
            Key::RAlt => 104,
            Key::Colon => 105,
            Key::SemiColon => 106,
            Key::Comma => 107,
            Key::Minus => 108,
            Key::Dot => 109,
            Key::Slash => 110,
            Key::At => 111,
            Key::LeftSquareBracket => 112,
            Key::BackSlashWithVerticalBar => 113,
            Key::RightSquareBracket => 114,
            Key::Hat => 115,
            Key::BackSlashWithUnderLine => 116,
            Key::Eisuu => 117,
            Key::KatakanaHiragana => 118,
            Key::HannkakuZenkaku => 119,
        }
    }

    /// The position of the key in the list of keys.
    pub fn index(&self) -> (r: usize)
        ensures
            r == self.spec_index(),
    {
        match self {
            Key::Backspace => 0,
            Key::Tab => 1,
            Key::Enter => 2,
            Key::CapsLock => 3,
            Key::Esc => 4,
            Key::Henkan => 5,
            Key::Muhenkan => 6,
            Key::Space => 7,
            Key::PageUp => 8,
            Key::PageDown => 9,
            Key::End => 10,
            Key::Home => 11,
            Key::LeftArrow => 12,
            Key::UpArrow => 13,
            Key::RightArrow => 14,
            Key::DownArrow => 15,
            Key::PrintScreen => 16,
            Key::Insert => 17,
            Key::Delete => 18,
            Key::Key0 => 19,
            Key::Key1 => 20,
            Key::Key2 => 21,
            Key::Key3 => 22,
            Key::Key4 => 23,
            Key::Key5 => 24,
            Key::Key6 => 25,
            Key::Key7 => 26,
            Key::Key8 => 27,
            Key::Key9 => 28,
            Key::A => 29,
            Key::B => 30,
            Key::C => 31,
            Key::D => 32,
            Key::E => 33,
            Key::F => 34,
            Key::G => 35,
            Key::H => 36,
            Key::I => 37,
            Key::J => 38,
            Key::K => 39,
            Key::L => 40,
            Key::M => 41,
            Key::N => 42,
            Key::O => 43,
            Key::P => 44,
            Key::Q => 45,
            Key::R => 46,
            Key::S => 47,
            Key::T => 48,
            Key::U => 49,
            Key::V => 50,
            Key::W => 51,
            Key::X => 52,
            Key::Y => 53,
            Key::Z => 54,
            Key::LMeta => 55,
            Key::RMeta => 56,
            Key::Application => 57,
            Key::Numpad0 => 58,
            Key::Numpad1 => 59,
            Key::Numpad2 => 60,
            Key::Numpad3 => 61,
            Key::Numpad4 => 62,
            Key::Numpad5 => 63,
            Key::Numpad6 => 64,
            Key::Numpad7 => 65,
            Key::Numpad8 => 66,
            Key::Numpad9 => 67,
            Key::NumpadAsterisk => 68,
            Key::NumpadPlus => 69,
            Key::NumpadMinus => 70,
            Key::NumpadDot => 71,
            Key::NumpadSlash => 72,
            Key::F1 => 73,
            Key::F2 => 74,
            Key::F3 => 75,
            Key::F4 => 76,
            Key::F5 => 77,
            Key::F6 => 78,
            Key::F7 => 79,
            Key::F8 => 80,
            Key::F9 => 81,
            Key::F10 => 82,
            Key::F11 => 83,
            Key::F12 => 84,
            Key::F13 => 85,
            Key::F14 => 86,
            Key::F15 => 87,
            Key::F16 => 88,
            Key::F17 => 89,
            Key::F18 => 90,
            Key::F19 => 91,
            Key::F20 => 92,
            Key::F21 => 93,
            Key::F22 => 94,
            Key::F23 => 95,
            Key::F24 => 96,
            Key::Numlock => 97,
            Key::ScrollLock => 98,
            Key::LShift => 99,
            Key::RShift => 100,
            Key::LCtrl => 101,
            Key::RCtrl => 102,
            Key::LAlt => 103,
            Key::RAlt => 104,
            Key::Colon => 105,
            Key::SemiColon => 106,
            Key::Comma => 107,
            Key::Minus => 108,
            Key::Dot => 109,
            Key::Slash => 110,
            Key::At => 111,
            Key::LeftSquareBracket => 112,
            Key::BackSlashWithVerticalBar => 113,
            Key::RightSquareBracket => 114,
            Key::Hat => 115,
            Key::BackSlashWithUnderLine => 116,
            Key::Eisuu => 117,
            Key::KatakanaHiragana => 118,
            Key::HannkakuZenkaku => 119,
        }
    }
}

/// The Key whose position is `i`, for each position in use.
pub open spec fn key_at(i: int) -> Key {
    if i == 0 {
        Key::Backspace
    } else if i == 1 {
        Key::Tab
    } else if i == 2 {
        Key::Enter
    } else if i == 3 {
        Key::CapsLock
    } else if i == 4 {
        Key::Esc
    } else if i == 5 {
        Key::Henkan
    } else if i == 6 {
        Key::Muhenkan
    } else if i == 7 {
        Key::Space
    } else if i == 8 {
        Key::PageUp
    } else if i == 9 {
        Key::PageDown
    } else if i == 10 {
        Key::End
    } else if i == 11 {
        Key::Home
    } else if i == 12 {
        Key::LeftArrow
    } else if i == 13 {
        Key::UpArrow
    } else if i == 14 {
        Key::RightArrow
    } else if i == 15 {
        Key::DownArrow
    } else if i == 16 {
        Key::PrintScreen
    } else if i == 17 {
        Key::Insert
    } else if i == 18 {
        Key::Delete
    } else if i == 19 {
        Key::Key0
    } else if i == 20 {
        Key::Key1
    } else if i == 21 {
        Key::Key2
    } else if i == 22 {
        Key::Key3
    } else if i == 23 {
        Key::Key4
    } else if i == 24 {
        Key::Key5
    } else if i == 25 {
        Key::Key6
    } else if i == 26 {
        Key::Key7
    } else if i == 27 {
        Key::Key8
    } else if i == 28 {
        Key::Key9
    } else if i == 29 {
        Key::A
    } else if i == 30 {
        Key::B
    } else if i == 31 {
        Key::C
    } else if i == 32 {
        Key::D
    } else if i == 33 {
        Key::E
    } else if i == 34 {
        Key::F
    } else if i == 35 {
        Key::G
    } else if i == 36 {
        Key::H
    } else if i == 37 {
        Key::I
    } else if i == 38 {
        Key::J
    } else if i == 39 {
        Key::K
    } else if i == 40 {
        Key::L
    } else if i == 41 {
        Key::M
    } else if i == 42 {
        Key::N
    } else if i == 43 {
        Key::O
    } else if i == 44 {
        Key::P
    } else if i == 45 {
        Key::Q
    } else if i == 46 {
        Key::R
    } else if i == 47 {
        Key::S
    } else if i == 48 {
        Key::T
    } else if i == 49 {
        Key::U
    } else if i == 50 {
        Key::V
    } else if i == 51 {
        Key::W
    } else if i == 52 {
        Key::X
    } else if i == 53 {
        Key::Y
    } else if i == 54 {
        Key::Z
    } else if i == 55 {
        Key::LMeta
    } else if i == 56 {
        Key::RMeta
    } else if i == 57 {
        Key::Application
    } else if i == 58 {
        Key::Numpad0
    } else if i == 59 {
        Key::Numpad1
    } else if i == 60 {
        Key::Numpad2
    } else if i == 61 {
        Key::Numpad3
    } else if i == 62 {
        Key::Numpad4
    } else if i == 63 {
        Key::Numpad5
    } else if i == 64 {
        Key::Numpad6
    } else if i == 65 {
        Key::Numpad7
    } else if i == 66 {
        Key::Numpad8
    } else if i == 67 {
        Key::Numpad9
    } else if i == 68 {
        Key::NumpadAsterisk
    } else if i == 69 {
        Key::NumpadPlus
    } else if i == 70 {
        Key::NumpadMinus
    } else if i == 71 {
        Key::NumpadDot
    } else if i == 72 {
        Key::NumpadSlash
    } else if i == 73 {
        Key::F1
    } else if i == 74 {
        Key::F2
    } else if i == 75 {
        Key::F3
    } else if i == 76 {
        Key::F4
    } else if i == 77 {
        Key::F5
    } else if i == 78 {
        Key::F6
    } else if i == 79 {
        Key::F7
    } else if i == 80 {
        Key::F8
    } else if i == 81 {
        Key::F9
    } else if i == 82 {
        Key::F10
    } else if i == 83 {
        Key::F11
    } else if i == 84 {
        Key::F12
    } else if i == 85 {
        Key::F13
    } else if i == 86 {
        Key::F14
    } else if i == 87 {
        Key::F15
    } else if i == 88 {
        Key::F16
    } else if i == 89 {
        Key::F17
    } else if i == 90 {
        Key::F18
    } else if i == 91 {
        Key::F19
    } else if i == 92 {
        Key::F20
    } else if i == 93 {
        Key::F21
    } else if i == 94 {
        Key::F22
    } else if i == 95 {
        Key::F23
    } else if i == 96 {
        Key::F24
    } else if i == 97 {
        Key::Numlock
    } else if i == 98 {
        Key::ScrollLock
    } else if i == 99 {
        Key::LShift
    } else if i == 100 {
        Key::RShift
    } else if i == 101 {
        Key::LCtrl
    } else if i == 102 {
        Key::RCtrl
    } else if i == 103 {
        Key::LAlt
    } else if i == 104 {
        Key::RAlt
    } else if i == 105 {
        Key::Colon
    } else if i == 106 {
        Key::SemiColon
    } else if i == 107 {
        Key::Comma
    } else if i == 108 {
        Key::Minus
    } else if i == 109 {
        Key::Dot
    } else if i == 110 {
        Key::Slash
    } else if i == 111 {
        Key::At
    } else if i == 112 {
        Key::LeftSquareBracket
    } else if i == 113 {
        Key::BackSlashWithVerticalBar
    } else if i == 114 {
        Key::RightSquareBracket
    } else if i == 115 {
        Key::Hat
    } else if i == 116 {
        Key::BackSlashWithUnderLine
    } else if i == 117 {
        Key::Eisuu
    } else if i == 118 {
        Key::KatakanaHiragana
    } else {
        Key::HannkakuZenkaku
    }
}

impl MouseInput {
    /// The position of the input in the list of mouse inputs.
    pub open spec fn spec_index(self) -> int {
        match self {
            MouseInput::LButton => 0,
            MouseInput::RButton => 1,
            MouseInput::MButton => 2,
            MouseInput::SideButton1 => 3,
            MouseInput::SideButton2 => 4,
            MouseInput::Wheel => 5,
            MouseInput::Move => 6,
        }
    }

    /// The position of the input in the list of mouse inputs.
    pub fn index(&self) -> (r: usize)
        ensures
            r == self.spec_index(),
    {
        match self {
            MouseInput::LButton => 0,
            MouseInput::RButton => 1,
            MouseInput::MButton => 2,
            MouseInput::SideButton1 => 3,
            MouseInput::SideButton2 => 4,
            MouseInput::Wheel => 5,
            MouseInput::Move => 6,
        }
    }
}

/// The MouseInput whose position is `i`, for each position in use.
pub open spec fn mouse_input_at(i: int) -> MouseInput {
    if i == 0 {
        MouseInput::LButton
    } else if i == 1 {
        MouseInput::RButton
    } else if i == 2 {
        MouseInput::MButton
    } else if i == 3 {
        MouseInput::SideButton1
    } else if i == 4 {
        MouseInput::SideButton2
    } else if i == 5 {
        MouseInput::Wheel
    } else {
        MouseInput::Move
    }
}

/// A logical button: a keyboard key or a mouse input.
#[derive(Clone, Copy, Debug, PartialEq, Eq, Hash, Structural)]
pub enum Button {
    Key(Key),
    Mouse(MouseInput),
}

impl Button {
    /// The dense position of the button: keys first, then mouse inputs.
    pub open spec fn spec_index(self) -> int {
        match self {
            Button::Key(k) => k.spec_index(),
            Button::Mouse(m) => KEY_COUNT + m.spec_index(),
        }
    }

    /// The dense position of the button, below `BUTTON_COUNT`.
    pub fn index(&self) -> (r: usize)
        ensures
            r == self.spec_index(),
            r < BUTTON_COUNT,
    {
        proof {
            lemma_index_bound(*self);
        }
        match self {
            Button::Key(k) => k.index(),
            Button::Mouse(m) => KEY_COUNT + m.index(),
        }
    }
}

/// The button whose position is `i`, for each position below `BUTTON_COUNT`.
pub open spec fn button_at(i: int) -> Button {
    if i < KEY_COUNT {
        Button::Key(key_at(i))
    } else {
        Button::Mouse(mouse_input_at(i - KEY_COUNT))
    }
}

/// Every position is below `BUTTON_COUNT`.
pub proof fn lemma_index_bound(b: Button)
    ensures
        b.spec_index() < BUTTON_COUNT,
{
}

/// The position of a button determines the button.
pub proof fn lemma_index_inverse(b: Button)
    ensures
        button_at(b.spec_index()) == b,
        b.spec_index() < BUTTON_COUNT,
{
}

/// Every position below `BUTTON_COUNT` holds a button.
pub proof fn lemma_button_at_index(i: int)
    requires
        0 <= i < BUTTON_COUNT,
    ensures
        button_at(i).spec_index() == i,
{
}

/// Two buttons at the same position are the same button.
pub proof fn lemma_index_injective(a: Button, b: Button)
    ensures
        a.spec_index() == b.spec_index() <==> a == b,
{
    lemma_index_inverse(a);
    lemma_index_inverse(b);
}

/// Whether a button goes down or up.
#[derive(Clone, Copy, Debug, PartialEq, Eq, Hash, Structural)]
pub enum ButtonAction {
    Press,
    Release,
}

} // verus!
