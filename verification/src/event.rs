//! Keyboard keys, key modifiers, mouse buttons and the engine's input events.

use vstd::prelude::*;

verus! {

/// A key on the keyboard, as the active layout reports it.
#[derive(Debug, Copy, Clone, PartialEq, Eq, Hash, Structural)]
pub enum Key {
    Backspace,
    Tab,
    Return,
    Escape,
    Space,
    Exclaim,
    Quotedbl,
    Hash,
    Dollar,
    Percent,
    Ampersand,
    Quote,
    LeftParen,
    RightParen,
    Asterisk,
    Plus,
    Comma,
    Minus,
    Period,
    Slash,
    Num0,
    Num1,
    Num2,
    Num3,
    Num4,
    Num5,
    Num6,
    Num7,
    Num8,
    Num9,
    Colon,
    Semicolon,
    Less,
    Equals,
    Greater,
    Question,
    At,
    LeftBracket,
    Backslash,
    RightBracket,
    Caret,
    Underscore,
    Backquote,
    A,
    B,
    C,
    D,
    E,
    F,
    G,
    H,
    I,
    J,
    K,
    L,
    M,
    N,
    O,
    P,
    Q,
    R,
    S,
    T,
    U,
    V,
    W,
    X,
    Y,
    Z,
    Delete,
    CapsLock,
    F1,
    F2,
    F3,
    F4,
    F5,
    F6,
    F7,
    F8,
    F9,
    F10,
    F11,
    F12,
    PrintScreen,
    ScrollLock,
    Pause,
    Insert,
    Home,
    PageUp,
    End,
    PageDown,
    Right,
    Left,
    Down,
    Up,
    NumLock,
    LCtrl,
    LShift,
    LAlt,
    LGui,
    RCtrl,
    RShift,
    RAlt,
    RGui,
    Unhandled,
}

/// A key by its position on the keyboard, whatever the layout maps it to.
#[derive(Debug, Copy, Clone, PartialEq, Eq, Hash, Structural)]
pub enum Scan {
    A,
    B,
    C,
    D,
    E,
    F,
    G,
    H,
    I,
    J,
    K,
    L,
    M,
    N,
    O,
    P,
    Q,
    R,
    S,
    T,
    U,
    V,
    W,
    X,
    Y,
    Z,
    Num1,
    Num2,
    Num3,
    Num4,
    Num5,
    Num6,
    Num7,
    Num8,
    Num9,
    Num0,
    Return,
    Escape,
    Backspace,
    Tab,
    Space,
    Minus,
    Equals,
    LeftBracket,
    RightBracket,
    Backslash,
    Semicolon,
    Apostrophe,
    Grave,
    Comma,
    Period,
    Slash,
    CapsLock,
    F1,
    F2,
    F3,
    F4,
    F5,
    F6,
    F7,
    F8,
    F9,
    F10,
    F11,
    F12,
    F13,
    F14,
    F15,
    F16,
    F17,
    PrintScreen,
    ScrollLock,
    Pause,
    Insert,
    Home,
    PageUp,
    Delete,
    End,
    PageDown,
    Right,
    Left,
    Down,
    Up,
    NumLockClear,
    KpDivide,
    KpMultiply,
    KpMinus,
    KpPlus,
    KpEnter,
    Kp1,
    Kp2,
    Kp3,
    Kp4,
    Kp5,
    Kp6,
    Kp7,
    Kp8,
    Kp9,
    Kp0,
    KpPeriod,
    KpEquals,
    KpComma,
    NonUsBackslash,
    Application,
    Power,
    Help,
    Select,
    Again,
    Undo,
    Cut,
    Copy,
    Paste,
    Find,
    Mute,
    VolumeUp,
    VolumeDown,
    LCtrl,
    LShift,
    LAlt,
    LGui,
    RCtrl,
    RShift,
    RAlt,
    RGui,
    Lang1,
    Lang2,
    Lang3,
    Lang4,
    Lang5,
    Unhandled,
}

/// A mouse button.
#[derive(Debug, Copy, Clone, PartialEq, Eq, Hash, Structural)]
pub enum Mouse {
    Left,
    Middle,
    Right,
    Unhandled,
}

/// A set of held modifier keys, one bit per key.
#[derive(Debug, Copy, Clone, PartialEq, Eq, Hash, Structural)]
pub struct KeyMod(u16);

impl View for KeyMod {
    type V = u16;

    /// The bits of the held modifiers.
    closed spec fn view(&self) -> u16 {
        self.0
    }
}

impl KeyMod {
    /// No modifier.
    pub fn none() -> (m: Self)
        ensures
            m@ == 0x0000u16,
    {
        KeyMod(0x0000)
    }

    /// Left shift.
    pub fn lshift() -> (m: Self)
        ensures
            m@ == 0x0001u16,
    {
        KeyMod(0x0001)
    }

    /// Right shift.
    pub fn rshift() -> (m: Self)
        ensures
            m@ == 0x0002u16,
    {
        KeyMod(0x0002)
    }

    /// Left control.
    pub fn lctrl() -> (m: Self)
        ensures
            m@ == 0x0040u16,
    {
        KeyMod(0x0040)
    }

    /// Right control.
    pub fn rctrl() -> (m: Self)
        ensures
            m@ == 0x0080u16,
    {
        KeyMod(0x0080)
    }

    /// Left alt.
    pub fn lalt() -> (m: Self)
        ensures
            m@ == 0x0100u16,
    {
        KeyMod(0x0100)
    }

    /// Right alt.
    pub fn ralt() -> (m: Self)
        ensures
            m@ == 0x0200u16,
    {
        KeyMod(0x0200)
    }

    /// Left GUI (command, windows or super) key.
    pub fn lgui() -> (m: Self)
        ensures
            m@ == 0x0400u16,
    {
        KeyMod(0x0400)
    }

    /// Right GUI key.
    pub fn rgui() -> (m: Self)
        ensures
            m@ == 0x0800u16,
    {
        KeyMod(0x0800)
    }

    /// Either shift.
    pub fn shift() -> (m: Self)
        ensures
            m@ == 0x0003u16,
    {
        KeyMod(0x0003)
    }

    /// Either control.
    pub fn ctrl() -> (m: Self)
        ensures
            m@ == 0x00c0u16,
    {
        KeyMod(0x00c0)
    }

    /// Either alt.
    pub fn alt() -> (m: Self)
        ensures
            m@ == 0x0300u16,
    {
        KeyMod(0x0300)
    }

    /// Either GUI key.
    pub fn gui() -> (m: Self)
        ensures
            m@ == 0x0c00u16,
    {
        KeyMod(0x0c00)
    }

    /// The modifiers with the given bits.
    pub fn from_bits(bits: u16) -> (m: Self)
        ensures
            m@ == bits,
    {
        KeyMod(bits)
    }

    /// The bits of the held modifiers.
    pub fn bits(&self) -> (b: u16)
        ensures
            b == self@,
    {
        self.0
    }

    /// Whether any modifier of `other` is held.
    pub fn intersects(&self, other: KeyMod) -> (b: bool)
        ensures
            b == (self@ & other@ != 0),
    {
        self.0 & other.0 != 0
    }

    /// Whether every modifier of `other` is held.
    pub fn contains(&self, other: KeyMod) -> (b: bool)
        ensures
            b == (self@ & other@ == other@),
    {
        self.0 & other.0 == other.0
    }

    /// The modifiers held in either set.
    pub fn union(&self, other: KeyMod) -> (m: KeyMod)
        ensures
            m@ == self@ | other@,
    {
        KeyMod(self.0 | other.0)
    }

    /// Adds the modifiers of `other` when `value` holds, and removes them otherwise.
    pub fn set(&mut self, other: KeyMod, value: bool)
        ensures
            final(self)@ == if value {
                old(self)@ | other@
            } else {
                old(self)@ & !other@
            },
    {
        if value {
            self.0 = self.0 | other.0;
        } else {
            self.0 = self.0 & !other.0;
        }
    }
}

impl KeyMod {
    /// The modifiers with the given bits.
    pub closed spec fn from_bits_spec(bits: u16) -> KeyMod {
        KeyMod(bits)
    }

    /// The modifiers with a value's bits are that value.
    pub proof fn lemma_from_bits(m: KeyMod)
        ensures
            KeyMod::from_bits_spec(m@) == m,
            KeyMod::from_bits_spec(m@)@ == m@,
    {
    }

    /// The modifiers with given bits have those bits.
    pub proof fn lemma_from_bits_view(bits: u16)
        ensures
            KeyMod::from_bits_spec(bits)@ == bits,
    {
    }
}

impl Default for KeyMod {
    /// No modifier.
    fn default() -> (m: Self)
        ensures
            m@ == 0,
    {
        KeyMod(0)
    }
}

/// A change to a window.
#[derive(Debug, Copy, Clone, PartialEq, Eq, Structural)]
pub enum WindowEvent {
    Shown,
    Hidden,
    Moved(i32, i32),
    Resized(i32, i32),
    SizeChanged(i32, i32),
    Enter,
    Leave,
    FocusGained,
    FocusLost,
    Close,
}

/// An input event the engine reports.
#[derive(Debug, Clone, PartialEq)]
pub enum Event {
    /// The application was asked to quit.
    Quit,
    /// Something happened to a window.
    Window { window_id: u32, win_event: WindowEvent },
    /// A key went down.
    KeyDown { key: Option<Key>, keymod: KeyMod, repeat: bool, scan: Option<Scan> },
    /// A key came up.
    KeyUp { key: Option<Key>, keymod: KeyMod, repeat: bool, scan: Option<Scan> },
    /// Text was typed.
    TextInput { text: String },
    /// The mouse moved to `(x, y)`, by `(xrel, yrel)`.
    MouseMotion { x: i32, y: i32, xrel: i32, yrel: i32 },
    /// A mouse button went down at `(x, y)`.
    MouseDown { button: Mouse, x: i32, y: i32 },
    /// A mouse button came up at `(x, y)`.
    MouseUp { button: Mouse, x: i32, y: i32 },
    /// The mouse wheel turned by `(x, y)` notches.
    MouseWheel { x: i32, y: i32 },
}

/// The key a character stands for: letters in either case stand for their one key, digits for
/// the number keys, and printable ASCII symbols for the key of the same name.
pub open spec fn char_key(c: char) -> Option<Key> {
    match c {
        'a' | 'A' => Some(Key::A),
        'b' | 'B' => Some(Key::B),
        'c' | 'C' => Some(Key::C),
        'd' | 'D' => Some(Key::D),
        'e' | 'E' => Some(Key::E),
        'f' | 'F' => Some(Key::F),
        'g' | 'G' => Some(Key::G),
        'h' | 'H' => Some(Key::H),
        'i' | 'I' => Some(Key::I),
        'j' | 'J' => Some(Key::J),
        'k' | 'K' => Some(Key::K),
        'l' | 'L' => Some(Key::L),
        'm' | 'M' => Some(Key::M),
        'n' | 'N' => Some(Key::N),
        'o' | 'O' => Some(Key::O),
        'p' | 'P' => Some(Key::P),
        'q' | 'Q' => Some(Key::Q),
        'r' | 'R' => Some(Key::R),
        's' | 'S' => Some(Key::S),
        't' | 'T' => Some(Key::T),
        'u' | 'U' => Some(Key::U),
        'v' | 'V' => Some(Key::V),
        'w' | 'W' => Some(Key::W),
        'x' | 'X' => Some(Key::X),
        'y' | 'Y' => Some(Key::Y),
        'z' | 'Z' => Some(Key::Z),
        '0' => Some(Key::Num0),
        '1' => Some(Key::Num1),
        '2' => Some(Key::Num2),
        '3' => Some(Key::Num3),
        '4' => Some(Key::Num4),
        '5' => Some(Key::Num5),
        '6' => Some(Key::Num6),
        '7' => Some(Key::Num7),
        '8' => Some(Key::Num8),
        '9' => Some(Key::Num9),
        ' ' => Some(Key::Space),
        '!' => Some(Key::Exclaim),
        '"' => Some(Key::Quotedbl),
        '#' => Some(Key::Hash),
        '$' => Some(Key::Dollar),
        '%' => Some(Key::Percent),
        '&' => Some(Key::Ampersand),
        '\'' => Some(Key::Quote),
        '(' => Some(Key::LeftParen),
        ')' => Some(Key::RightParen),
        '*' => Some(Key::Asterisk),
        '+' => Some(Key::Plus),
        ',' => Some(Key::Comma),
        '-' => Some(Key::Minus),
        '.' => Some(Key::Period),
        '/' => Some(Key::Slash),
        ':' => Some(Key::Colon),
        ';' => Some(Key::Semicolon),
        '<' => Some(Key::Less),
        '=' => Some(Key::Equals),
        '>' => Some(Key::Greater),
        '?' => Some(Key::Question),
        '@' => Some(Key::At),
        '[' => Some(Key::LeftBracket),
        '\\' => Some(Key::Backslash),
        ']' => Some(Key::RightBracket),
        '^' => Some(Key::Caret),
        '_' => Some(Key::Underscore),
        '`' => Some(Key::Backquote),
        _ => None,
    }
}

/// The upper-case form of an ASCII letter; any other character is itself.
pub open spec fn ascii_upper(c: char) -> char {
    if 'a' <= c <= 'z' {
        ((c as u32) - 32) as char
    } else {
        c
    }
}

/// Returns the key a character stands for.
///
/// Letters in either case map to the single variant the engine has per letter.
pub fn character(c: char) -> (k: Option<Key>)
    ensures
        k == char_key(c),
{
    let key = match c {
        'A' | 'a' => Key::A,
        'B' | 'b' => Key::B,
        'C' | 'c' => Key::C,
        'D' | 'd' => Key::D,
        'E' | 'e' => Key::E,
        'F' | 'f' => Key::F,
        'G' | 'g' => Key::G,
        'H' | 'h' => Key::H,
        'I' | 'i' => Key::I,
        'J' | 'j' => Key::J,
        'K' | 'k' => Key::K,
        'L' | 'l' => Key::L,
        'M' | 'm' => Key::M,
        'N' | 'n' => Key::N,
        'O' | 'o' => Key::O,
        'P' | 'p' => Key::P,
        'Q' | 'q' => Key::Q,
        'R' | 'r' => Key::R,
        'S' | 's' => Key::S,
        'T' | 't' => Key::T,
        'U' | 'u' => Key::U,
        'V' | 'v' => Key::V,
        'W' | 'w' => Key::W,
        'X' | 'x' => Key::X,
        'Y' | 'y' => Key::Y,
        'Z' | 'z' => Key::Z,
        '0' => Key::Num0,
        '1' => Key::Num1,
        '2' => Key::Num2,
        '3' => Key::Num3,
        '4' => Key::Num4,
        '5' => Key::Num5,
        '6' => Key::Num6,
        '7' => Key::Num7,
        '8' => Key::Num8,
        '9' => Key::Num9,
        ' ' => Key::Space,
        '!' => Key::Exclaim,
        '"' => Key::Quotedbl,
        '#' => Key::Hash,
        '$' => Key::Dollar,
        '%' => Key::Percent,
        '&' => Key::Ampersand,
        '\'' => Key::Quote,
        '(' => Key::LeftParen,
        ')' => Key::RightParen,
        '*' => Key::Asterisk,
        '+' => Key::Plus,
        ',' => Key::Comma,
        '-' => Key::Minus,
        '.' => Key::Period,
        '/' => Key::Slash,
        ':' => Key::Colon,
        ';' => Key::Semicolon,
        '<' => Key::Less,
        '=' => Key::Equals,
        '>' => Key::Greater,
        '?' => Key::Question,
        '@' => Key::At,
        '[' => Key::LeftBracket,
        '\\' => Key::Backslash,
        ']' => Key::RightBracket,
        '^' => Key::Caret,
        '_' => Key::Underscore,
        '`' => Key::Backquote,
        _ => return None,
    };
    Some(key)
}

/// A letter names one key whatever its case.
pub proof fn lemma_character_ignores_case(c: char)
    ensures
        char_key(c) == char_key(ascii_upper(c)),
{
}

} // verus!
