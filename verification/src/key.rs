//! Keyboard (and mouse-button) keys: native virtual-key codes and the
//! printable characters each key can produce.

use vstd::prelude::*;

verus! {

/// A key, decoded from a native virtual-key code.  Codes outside the named
/// set are kept verbatim in [`Key::Other`].
#[derive(Clone, Copy, Debug, PartialEq, Eq, Structural, Hash)]
pub enum Key {
    /// A
    A,
    /// B
    B,
    /// C
    C,
    /// D
    D,
    /// E
    E,
    /// F
    F,
    /// G
    G,
    /// H
    H,
    /// I
    I,
    /// J
    J,
    /// K
    K,
    /// L
    L,
    /// M
    M,
    /// N
    N,
    /// O
    O,
    /// P
    P,
    /// Q
    Q,
    /// R
    R,
    /// S
    S,
    /// T
    T,
    /// U
    U,
    /// V
    V,
    /// W
    W,
    /// X
    X,
    /// Y
    Y,
    /// Z
    Z,
    /// Num1
    Num1,
    /// Num2
    Num2,
    /// Num3
    Num3,
    /// Num4
    Num4,
    /// Num5
    Num5,
    /// Num6
    Num6,
    /// Num7
    Num7,
    /// Num8
    Num8,
    /// Num9
    Num9,
    /// Num0
    Num0,
    /// NumPad1
    NumPad1,
    /// NumPad2
    NumPad2,
    /// NumPad3
    NumPad3,
    /// NumPad4
    NumPad4,
    /// NumPad5
    NumPad5,
    /// NumPad6
    NumPad6,
    /// NumPad7
    NumPad7,
    /// NumPad8
    NumPad8,
    /// NumPad9
    NumPad9,
    /// NumPad0
    NumPad0,
    /// F1
    F1,
    /// F2
    F2,
    /// F3
    F3,
    /// F4
    F4,
    /// F5
    F5,
    /// F6
    F6,
    /// F7
    F7,
    /// F8
    F8,
    /// F9
    F9,
    /// F10
    F10,
    /// F11
    F11,
    /// F12
    F12,
    /// Shift
    Shift,
    /// Ctrl
    Ctrl,
    /// Alt
    Alt,
    /// Backtick
    Backtick,
    /// Comma
    Comma,
    /// Dot
    Dot,
    /// Slash
    Slash,
    /// Semicolon
    Semicolon,
    /// Quote
    Quote,
    /// LeftBracket
    LeftBracket,
    /// RightBracket
    RightBracket,
    /// Backslash
    Backslash,
    /// Minus
    Minus,
    /// Equals
    Equals,
    /// NumAdd
    NumAdd,
    /// NumSub
    NumSub,
    /// NumMul
    NumMul,
    /// NumDiv
    NumDiv,
    /// NumDot
    NumDot,
    /// Tab
    Tab,
    /// Space
    Space,
    /// Enter
    Enter,
    /// Backspace
    Backspace,
    /// Esc
    Esc,
    /// CapsLock
    CapsLock,
    /// LeftCtrl
    LeftCtrl,
    /// LeftShift
    LeftShift,
    /// LeftAlt
    LeftAlt,
    /// RightCtrl
    RightCtrl,
    /// RightShift
    RightShift,
    /// RightAlt
    RightAlt,
    /// ScrollLock
    ScrollLock,
    /// NumLock
    NumLock,
    /// Delete
    Delete,
    /// Insert
    Insert,
    /// Home
    Home,
    /// End
    End,
    /// PageUp
    PageUp,
    /// PageDown
    PageDown,
    /// Clear
    Clear,
    /// LeftButton
    LeftButton,
    /// RightButton
    RightButton,
    /// MiddleButton
    MiddleButton,
    /// X1Button
    X1Button,
    /// X2Button
    X2Button,
    /// Left
    Left,
    /// Right
    Right,
    /// Up
    Up,
    /// Down
    Down,
    /// Any other virtual-key code.
    Other(u32),
}

impl Key {
    /// The native virtual-key code of the key.
    pub open spec fn spec_code(self) -> u32 {
        match self {
            Key::A => 65,
            Key::B => 66,
            Key::C => 67,
            Key::D => 68,
            Key::E => 69,
            Key::F => 70,
            Key::G => 71,
            Key::H => 72,
            Key::I => 73,
            Key::J => 74,
            Key::K => 75,
            Key::L => 76,
            Key::M => 77,
            Key::N => 78,
            Key::O => 79,
            Key::P => 80,
            Key::Q => 81,
            Key::R => 82,
            Key::S => 83,
            Key::T => 84,
            Key::U => 85,
            Key::V => 86,
            Key::W => 87,
            Key::X => 88,
            Key::Y => 89,
            Key::Z => 90,
            Key::Num1 => 49,
            Key::Num2 => 50,
            Key::Num3 => 51,
            Key::Num4 => 52,
            Key::Num5 => 53,
            Key::Num6 => 54,
            Key::Num7 => 55,
            Key::Num8 => 56,
            Key::Num9 => 57,
            Key::Num0 => 48,
            Key::NumPad1 => 97,
            Key::NumPad2 => 98,
            Key::NumPad3 => 99,
            Key::NumPad4 => 100,
            Key::NumPad5 => 101,
            Key::NumPad6 => 102,
            Key::NumPad7 => 103,
            Key::NumPad8 => 104,
            Key::NumPad9 => 105,
            Key::NumPad0 => 96,
            Key::F1 => 112,
            Key::F2 => 113,
            Key::F3 => 114,
            Key::F4 => 115,
            Key::F5 => 116,
            Key::F6 => 117,
            Key::F7 => 118,
            Key::F8 => 119,
            Key::F9 => 120,
            Key::F10 => 121,
            Key::F11 => 122,
            Key::F12 => 123,
            Key::Shift => 16,
            Key::Ctrl => 17,
            Key::Alt => 18,
            Key::Backtick => 192,
            Key::Comma => 188,
            Key::Dot => 190,
            Key::Slash => 191,
            Key::Semicolon => 186,
            Key::Quote => 186,
            Key::LeftBracket => 219,
            Key::RightBracket => 221,
            Key::Backslash => 220,
            Key::Minus => 189,
            Key::Equals => 187,
            Key::NumAdd => 107,
            Key::NumSub => 109,
            Key::NumMul => 106,
            Key::NumDiv => 111,
            Key::NumDot => 110,
            Key::Tab => 9,
            Key::Space => 32,
            Key::Enter => 13,
            Key::Backspace => 8,
            Key::Esc => 27,
            Key::CapsLock => 20,
            Key::LeftCtrl => 162,
            Key::LeftShift => 160,
            Key::LeftAlt => 164,
            Key::RightCtrl => 163,
            Key::RightShift => 161,
            Key::RightAlt => 165,
            Key::ScrollLock => 145,
            Key::NumLock => 144,
            Key::Delete => 46,
            Key::Insert => 45,
            Key::Home => 36,
            Key::End => 35,
            Key::PageUp => 33,
            Key::PageDown => 34,
            Key::Clear => 12,
            Key::LeftButton => 1,
            Key::RightButton => 2,
            Key::MiddleButton => 4,
            Key::X1Button => 5,
            Key::X2Button => 6,
            Key::Left => 37,
            Key::Right => 39,
            Key::Up => 38,
            Key::Down => 40,
            Key::Other(vk) => vk,
        }
    }

    /// The key a native virtual-key code decodes to.
    pub open spec fn spec_from_code(vk: u32) -> Key {
        match vk {
            1 => Key::LeftButton,
            2 => Key::RightButton,
            4 => Key::MiddleButton,
            5 => Key::X1Button,
            6 => Key::X2Button,
            8 => Key::Backspace,
            9 => Key::Tab,
            12 => Key::Clear,
            13 => Key::Enter,
            16 => Key::Shift,
            17 => Key::Ctrl,
            18 => Key::Alt,
            20 => Key::CapsLock,
            27 => Key::Esc,
            32 => Key::Space,
            33 => Key::PageUp,
            34 => Key::PageDown,
            35 => Key::End,
            36 => Key::Home,
            37 => Key::Left,
            38 => Key::Up,
            39 => Key::Right,
            40 => Key::Down,
            45 => Key::Insert,
            46 => Key::Delete,
            48 => Key::Num0,
            49 => Key::Num1,
            50 => Key::Num2,
            51 => Key::Num3,
            52 => Key::Num4,
            53 => Key::Num5,
            54 => Key::Num6,
            55 => Key::Num7,
            56 => Key::Num8,
            57 => Key::Num9,
            65 => Key::A,
            66 => Key::B,
            67 => Key::C,
            68 => Key::D,
            69 => Key::E,
            70 => Key::F,
            71 => Key::G,
            72 => Key::H,
            73 => Key::I,
            74 => Key::J,
            75 => Key::K,
            76 => Key::L,
            77 => Key::M,
            78 => Key::N,
            79 => Key::O,
            80 => Key::P,
            81 => Key::Q,
            82 => Key::R,
            83 => Key::S,
            84 => Key::T,
            85 => Key::U,
            86 => Key::V,
            87 => Key::W,
            88 => Key::X,
            89 => Key::Y,
            90 => Key::Z,
            96 => Key::NumPad0,
            97 => Key::NumPad1,
            98 => Key::NumPad2,
            99 => Key::NumPad3,
            100 => Key::NumPad4,
            101 => Key::NumPad5,
            102 => Key::NumPad6,
            103 => Key::NumPad7,
            104 => Key::NumPad8,
            105 => Key::NumPad9,
            106 => Key::NumMul,
            107 => Key::NumAdd,
            109 => Key::NumSub,
            110 => Key::NumDot,
            111 => Key::NumDiv,
            112 => Key::F1,
            113 => Key::F2,
            114 => Key::F3,
            115 => Key::F4,
            116 => Key::F5,
            117 => Key::F6,
            118 => Key::F7,
            119 => Key::F8,
            120 => Key::F9,
            121 => Key::F10,
            122 => Key::F11,
            123 => Key::F12,
            144 => Key::NumLock,
            145 => Key::ScrollLock,
            160 => Key::LeftShift,
            161 => Key::RightShift,
            162 => Key::LeftCtrl,
            163 => Key::RightCtrl,
            164 => Key::LeftAlt,
            165 => Key::RightAlt,
            186 => Key::Semicolon,
            187 => Key::Equals,
            188 => Key::Comma,
            189 => Key::Minus,
            190 => Key::Dot,
            191 => Key::Slash,
            192 => Key::Backtick,
            219 => Key::LeftBracket,
            220 => Key::Backslash,
            221 => Key::RightBracket,
            _ => Key::Other(vk),
        }
    }

    /// The native virtual-key code of the key.
    pub fn code(self) -> (r: u32)
        ensures
            r == self.spec_code(),
    {
        match self {
            Key::A => 65,
            Key::B => 66,
            Key::C => 67,
            Key::D => 68,
            Key::E => 69,
            Key::F => 70,
            Key::G => 71,
            Key::H => 72,
            Key::I => 73,
            Key::J => 74,
            Key::K => 75,
            Key::L => 76,
            Key::M => 77,
            Key::N => 78,
            Key::O => 79,
            Key::P => 80,
            Key::Q => 81,
            Key::R => 82,
            Key::S => 83,
            Key::T => 84,
            Key::U => 85,
            Key::V => 86,
            Key::W => 87,
            Key::X => 88,
            Key::Y => 89,
            Key::Z => 90,
            Key::Num1 => 49,
            Key::Num2 => 50,
            Key::Num3 => 51,
            Key::Num4 => 52,
            Key::Num5 => 53,
            Key::Num6 => 54,
            Key::Num7 => 55,
            Key::Num8 => 56,
            Key::Num9 => 57,
            Key::Num0 => 48,
            Key::NumPad1 => 97,
            Key::NumPad2 => 98,
            Key::NumPad3 => 99,
            Key::NumPad4 => 100,
            Key::NumPad5 => 101,
            Key::NumPad6 => 102,
            Key::NumPad7 => 103,
            Key::NumPad8 => 104,
            Key::NumPad9 => 105,
            Key::NumPad0 => 96,
            Key::F1 => 112,
            Key::F2 => 113,
            Key::F3 => 114,
            Key::F4 => 115,
            Key::F5 => 116,
            Key::F6 => 117,
            Key::F7 => 118,
            Key::F8 => 119,
            Key::F9 => 120,
            Key::F10 => 121,
            Key::F11 => 122,
            Key::F12 => 123,
            Key::Shift => 16,
            Key::Ctrl => 17,
            Key::Alt => 18,
            Key::Backtick => 192,
            Key::Comma => 188,
            Key::Dot => 190,
            Key::Slash => 191,
            Key::Semicolon => 186,
            Key::Quote => 186,
            Key::LeftBracket => 219,
            Key::RightBracket => 221,
            Key::Backslash => 220,
            Key::Minus => 189,
            Key::Equals => 187,
            Key::NumAdd => 107,
            Key::NumSub => 109,
            Key::NumMul => 106,
            Key::NumDiv => 111,
            Key::NumDot => 110,
            Key::Tab => 9,
            Key::Space => 32,
            Key::Enter => 13,
            Key::Backspace => 8,
            Key::Esc => 27,
            Key::CapsLock => 20,
            Key::LeftCtrl => 162,
            Key::LeftShift => 160,
            Key::LeftAlt => 164,
            Key::RightCtrl => 163,
            Key::RightShift => 161,
            Key::RightAlt => 165,
            Key::ScrollLock => 145,
            Key::NumLock => 144,
            Key::Delete => 46,
            Key::Insert => 45,
            Key::Home => 36,
            Key::End => 35,
            Key::PageUp => 33,
            Key::PageDown => 34,
            Key::Clear => 12,
            Key::LeftButton => 1,
            Key::RightButton => 2,
            Key::MiddleButton => 4,
            Key::X1Button => 5,
            Key::X2Button => 6,
            Key::Left => 37,
            Key::Right => 39,
            Key::Up => 38,
            Key::Down => 40,
            Key::Other(vk) => vk,
        }
    }

    /// Decode a native virtual-key code.
    pub fn from_code(vk: u32) -> (r: Key)
        ensures
            r == Key::spec_from_code(vk),
    {
        match vk {
            1 => Key::LeftButton,
            2 => Key::RightButton,
            4 => Key::MiddleButton,
            5 => Key::X1Button,
            6 => Key::X2Button,
            8 => Key::Backspace,
            9 => Key::Tab,
            12 => Key::Clear,
            13 => Key::Enter,
            16 => Key::Shift,
            17 => Key::Ctrl,
            18 => Key::Alt,
            20 => Key::CapsLock,
            27 => Key::Esc,
            32 => Key::Space,
            33 => Key::PageUp,
            34 => Key::PageDown,
            35 => Key::End,
            36 => Key::Home,
            37 => Key::Left,
            38 => Key::Up,
            39 => Key::Right,
            40 => Key::Down,
            45 => Key::Insert,
            46 => Key::Delete,
            48 => Key::Num0,
            49 => Key::Num1,
            50 => Key::Num2,
            51 => Key::Num3,
            52 => Key::Num4,
            53 => Key::Num5,
            54 => Key::Num6,
            55 => Key::Num7,
            56 => Key::Num8,
            57 => Key::Num9,
            65 => Key::A,
            66 => Key::B,
            67 => Key::C,
            68 => Key::D,
            69 => Key::E,
            70 => Key::F,
            71 => Key::G,
            72 => Key::H,
            73 => Key::I,
            74 => Key::J,
            75 => Key::K,
            76 => Key::L,
            77 => Key::M,
            78 => Key::N,
            79 => Key::O,
            80 => Key::P,
            81 => Key::Q,
            82 => Key::R,
            83 => Key::S,
            84 => Key::T,
            85 => Key::U,
            86 => Key::V,
            87 => Key::W,
            88 => Key::X,
            89 => Key::Y,
            90 => Key::Z,
            96 => Key::NumPad0,
            97 => Key::NumPad1,
            98 => Key::NumPad2,
            99 => Key::NumPad3,
            100 => Key::NumPad4,
            101 => Key::NumPad5,
            102 => Key::NumPad6,
            103 => Key::NumPad7,
            104 => Key::NumPad8,
            105 => Key::NumPad9,
            106 => Key::NumMul,
            107 => Key::NumAdd,
            109 => Key::NumSub,
            110 => Key::NumDot,
            111 => Key::NumDiv,
            112 => Key::F1,
            113 => Key::F2,
            114 => Key::F3,
            115 => Key::F4,
            116 => Key::F5,
            117 => Key::F6,
            118 => Key::F7,
            119 => Key::F8,
            120 => Key::F9,
            121 => Key::F10,
            122 => Key::F11,
            123 => Key::F12,
            144 => Key::NumLock,
            145 => Key::ScrollLock,
            160 => Key::LeftShift,
            161 => Key::RightShift,
            162 => Key::LeftCtrl,
            163 => Key::RightCtrl,
            164 => Key::LeftAlt,
            165 => Key::RightAlt,
            186 => Key::Semicolon,
            187 => Key::Equals,
            188 => Key::Comma,
            189 => Key::Minus,
            190 => Key::Dot,
            191 => Key::Slash,
            192 => Key::Backtick,
            219 => Key::LeftBracket,
            220 => Key::Backslash,
            221 => Key::RightBracket,
            _ => Key::Other(vk),
        }
    }
}

} // verus!

verus! {

impl Key {
    /// Whether the key corresponds to the printable (or control) character:
    /// letters match both cases, digit keys match both the digit and its
    /// shifted symbol, and the enter key matches both line feed and carriage
    /// return.
    pub open spec fn spec_matches_char(self, c: char) -> bool {
        match (self, c) {
            (Key::A, 'a' | 'A') => true,
            (Key::B, 'b' | 'B') => true,
            (Key::C, 'c' | 'C') => true,
            (Key::D, 'd' | 'D') => true,
            (Key::E, 'e' | 'E') => true,
            (Key::F, 'f' | 'F') => true,
            (Key::G, 'g' | 'G') => true,
            (Key::H, 'h' | 'H') => true,
            (Key::I, 'i' | 'I') => true,
            (Key::J, 'j' | 'J') => true,
            (Key::K, 'k' | 'K') => true,
            (Key::L, 'l' | 'L') => true,
            (Key::M, 'm' | 'M') => true,
            (Key::N, 'n' | 'N') => true,
            (Key::O, 'o' | 'O') => true,
            (Key::P, 'p' | 'P') => true,
            (Key::Q, 'q' | 'Q') => true,
            (Key::R, 'r' | 'R') => true,
            (Key::S, 's' | 'S') => true,
            (Key::T, 't' | 'T') => true,
            (Key::U, 'u' | 'U') => true,
            (Key::V, 'v' | 'V') => true,
            (Key::W, 'w' | 'W') => true,
            (Key::X, 'x' | 'X') => true,
            (Key::Y, 'y' | 'Y') => true,
            (Key::Z, 'z' | 'Z') => true,
            (Key::Num0 | Key::NumPad0, '0') => true,
            (Key::Num1 | Key::NumPad1, '1') => true,
            (Key::Num2 | Key::NumPad2, '2') => true,
            (Key::Num3 | Key::NumPad3, '3') => true,
            (Key::Num4 | Key::NumPad4, '4') => true,
            (Key::Num5 | Key::NumPad5, '5') => true,
            (Key::Num6 | Key::NumPad6, '6') => true,
            (Key::Num7 | Key::NumPad7, '7') => true,
            (Key::Num8 | Key::NumPad8, '8') => true,
            (Key::Num9 | Key::NumPad9, '9') => true,
            (Key::Num0, ')') => true,
            (Key::Num1, '!') => true,
            (Key::Num2, '@') => true,
            (Key::Num3, '#') => true,
            (Key::Num4, '$') => true,
            (Key::Num5, '%') => true,
            (Key::Num6, '^') => true,
            (Key::Num7, '&') => true,
            (Key::Num8, '*') => true,
            (Key::Num9, '(') => true,
            (Key::Backtick, '`' | '~') => true,
            (Key::Comma, ',' | '<') => true,
            (Key::Dot, '.' | '>') => true,
            (Key::Slash, '/' | '?') => true,
            (Key::Semicolon, ';' | ':') => true,
            (Key::Quote, '\'' | '\"') => true,
            (Key::LeftBracket, '[' | '{') => true,
            (Key::RightBracket, ']' | '}') => true,
            (Key::Backslash, '\\' | '|') => true,
            (Key::Minus, '-' | '_') => true,
            (Key::Equals, '=' | '+') => true,
            (Key::NumAdd, '+') => true,
            (Key::NumSub, '-') => true,
            (Key::NumMul, '*') => true,
            (Key::NumDiv, '/') => true,
            (Key::NumDot, '.') => true,
            (Key::Space, ' ') => true,
            (Key::Tab, '\t') => true,
            (Key::Enter, '\n' | '\r') => true,
            (Key::Backspace, '\u{8}') => true,
            _ => false,
        }
    }

    /// Whether the key corresponds to the character.
    pub fn matches_char(self, c: char) -> (r: bool)
        ensures
            r == self.spec_matches_char(c),
    {
        match (self, c) {
            (Key::A, 'a' | 'A') => true,
            (Key::B, 'b' | 'B') => true,
            (Key::C, 'c' | 'C') => true,
            (Key::D, 'd' | 'D') => true,
            (Key::E, 'e' | 'E') => true,
            (Key::F, 'f' | 'F') => true,
            (Key::G, 'g' | 'G') => true,
            (Key::H, 'h' | 'H') => true,
            (Key::I, 'i' | 'I') => true,
            (Key::J, 'j' | 'J') => true,
            (Key::K, 'k' | 'K') => true,
            (Key::L, 'l' | 'L') => true,
            (Key::M, 'm' | 'M') => true,
            (Key::N, 'n' | 'N') => true,
            (Key::O, 'o' | 'O') => true,
            (Key::P, 'p' | 'P') => true,
            (Key::Q, 'q' | 'Q') => true,
            (Key::R, 'r' | 'R') => true,
            (Key::S, 's' | 'S') => true,
            (Key::T, 't' | 'T') => true,
            (Key::U, 'u' | 'U') => true,
            (Key::V, 'v' | 'V') => true,
            (Key::W, 'w' | 'W') => true,
            (Key::X, 'x' | 'X') => true,
            (Key::Y, 'y' | 'Y') => true,
            (Key::Z, 'z' | 'Z') => true,
            (Key::Num0 | Key::NumPad0, '0') => true,
            (Key::Num1 | Key::NumPad1, '1') => true,
            (Key::Num2 | Key::NumPad2, '2') => true,
            (Key::Num3 | Key::NumPad3, '3') => true,
            (Key::Num4 | Key::NumPad4, '4') => true,
            (Key::Num5 | Key::NumPad5, '5') => true,
            (Key::Num6 | Key::NumPad6, '6') => true,
            (Key::Num7 | Key::NumPad7, '7') => true,
            (Key::Num8 | Key::NumPad8, '8') => true,
            (Key::Num9 | Key::NumPad9, '9') => true,
            (Key::Num0, ')') => true,
            (Key::Num1, '!') => true,
            (Key::Num2, '@') => true,
            (Key::Num3, '#') => true,
            (Key::Num4, '$') => true,
            (Key::Num5, '%') => true,
            (Key::Num6, '^') => true,
            (Key::Num7, '&') => true,
            (Key::Num8, '*') => true,
            (Key::Num9, '(') => true,
            (Key::Backtick, '`' | '~') => true,
            (Key::Comma, ',' | '<') => true,
            (Key::Dot, '.' | '>') => true,
            (Key::Slash, '/' | '?') => true,
            (Key::Semicolon, ';' | ':') => true,
            (Key::Quote, '\'' | '\"') => true,
            (Key::LeftBracket, '[' | '{') => true,
            (Key::RightBracket, ']' | '}') => true,
            (Key::Backslash, '\\' | '|') => true,
            (Key::Minus, '-' | '_') => true,
            (Key::Equals, '=' | '+') => true,
            (Key::NumAdd, '+') => true,
            (Key::NumSub, '-') => true,
            (Key::NumMul, '*') => true,
            (Key::NumDiv, '/') => true,
            (Key::NumDot, '.') => true,
            (Key::Space, ' ') => true,
            (Key::Tab, '\t') => true,
            (Key::Enter, '\n' | '\r') => true,
            (Key::Backspace, '\u{8}') => true,
            _ => false,
        }
    }
}

impl PartialEq<char> for Key {
    fn eq(&self, other: &char) -> (r: bool) {
        self.matches_char(*other)
    }
}

impl vstd::std_specs::cmp::PartialEqSpecImpl<char> for Key {
    open spec fn obeys_eq_spec() -> bool {
        true
    }

    open spec fn eq_spec(&self, other: &char) -> bool {
        self.spec_matches_char(*other)
    }
}

} // verus!
