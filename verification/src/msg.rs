//! Input messages: decoding native keyboard and mouse event records into
//! typed values.

use vstd::prelude::*;
use vstd::utf8::is_scalar;
use crate::key::Key;
use crate::geom::Point;

verus! {

/// Native key-event code: a key went down.
pub const KEY_MSG_DOWN: u32 = 1;

/// Native key-event code: a key went up.
pub const KEY_MSG_UP: u32 = 2;

/// Native key-event code: a character was produced.
pub const KEY_MSG_CHAR: u32 = 4;

/// Native key-flag bit: shift was held.
pub const KEY_FLAG_SHIFT: u32 = 256;

/// Native key-flag bit: control was held.
pub const KEY_FLAG_CTRL: u32 = 512;

/// Native key-flag bit: first press (not an auto-repeat).
pub const KEY_FLAG_FIRST_DOWN: u32 = 524288;

/// Modifier flags of a key event.
#[derive(Clone, Copy, Debug, PartialEq, Eq, Structural, Hash)]
pub struct KeyFlags {
    /// The flag bits: shift, control, first press.
    pub bits: u32,
}

/// The flag bit recording that shift was held.
pub const KEYFLAGS_SHIFT: u32 = 1;

/// The flag bit recording that control was held.
pub const KEYFLAGS_CTRL: u32 = 2;

/// The flag bit recording a first press.
pub const KEYFLAGS_FIRST: u32 = 4;

impl KeyFlags {
    /// No flags.
    pub fn none() -> (r: KeyFlags)
        ensures
            r.bits == 0,
    {
        KeyFlags { bits: 0 }
    }

    /// The shift flag.
    pub fn shift() -> (r: KeyFlags)
        ensures
            r.bits == KEYFLAGS_SHIFT,
    {
        KeyFlags { bits: KEYFLAGS_SHIFT }
    }

    /// The control flag.
    pub fn ctrl() -> (r: KeyFlags)
        ensures
            r.bits == KEYFLAGS_CTRL,
    {
        KeyFlags { bits: KEYFLAGS_CTRL }
    }

    /// The first-press flag.
    pub fn first() -> (r: KeyFlags)
        ensures
            r.bits == KEYFLAGS_FIRST,
    {
        KeyFlags { bits: KEYFLAGS_FIRST }
    }

    /// The union of two flag sets.
    pub fn or(self, other: KeyFlags) -> (r: KeyFlags)
        ensures
            r.bits == self.bits | other.bits,
    {
        KeyFlags { bits: self.bits | other.bits }
    }

    /// Whether every flag of `other` is set in `self`.
    pub fn contains(self, other: KeyFlags) -> (r: bool)
        ensures
            r == (self.bits & other.bits == other.bits),
    {
        self.bits & other.bits == other.bits
    }
}

/// The typed flags decoded from a native key-event flag word.
pub open spec fn spec_key_flags(flags: u32) -> KeyFlags {
    KeyFlags {
        bits: ((if flags & KEY_FLAG_SHIFT != 0 {
            KEYFLAGS_SHIFT
        } else {
            0
        }) + (if flags & KEY_FLAG_CTRL != 0 {
            KEYFLAGS_CTRL
        } else {
            0
        }) + (if flags & KEY_FLAG_FIRST_DOWN != 0 {
            KEYFLAGS_FIRST
        } else {
            0
        })) as u32,
    }
}

/// A keyboard event.
#[derive(Clone, Copy, Debug, PartialEq, Eq, Structural, Hash)]
pub enum KeyMsg {
    /// A key went down.
    Down(Key),
    /// A key went up.
    Up(Key),
    /// A character was produced.
    Char(char),
}

/// The typed event a native key-event record decodes to: down and up events
/// carry the decoded key, character events the decoded character; an
/// unknown event code, or a character value that is no Unicode scalar,
/// decodes to nothing.
pub open spec fn spec_decode_key_event(msg: u32, key: u32, flags: u32) -> Option<
    (KeyMsg, KeyFlags),
> {
    if msg == KEY_MSG_DOWN {
        Some((KeyMsg::Down(Key::spec_from_code(key)), spec_key_flags(flags)))
    } else if msg == KEY_MSG_UP {
        Some((KeyMsg::Up(Key::spec_from_code(key)), spec_key_flags(flags)))
    } else if msg == KEY_MSG_CHAR {
        if is_scalar(key) {
            Some((KeyMsg::Char(key as char), spec_key_flags(flags)))
        } else {
            None
        }
    } else {
        None
    }
}

/// Decode a native key-event record into the typed event and its modifier
/// flags.
pub fn decode_key_event(msg: u32, key: u32, flags: u32) -> (r: Option<(KeyMsg, KeyFlags)>)
    ensures
        r == spec_decode_key_event(msg, key, flags),
{
    let keyflags = decode_key_flags(flags);
    if msg == KEY_MSG_DOWN {
        Some((KeyMsg::Down(Key::from_code(key)), keyflags))
    } else if msg == KEY_MSG_UP {
        Some((KeyMsg::Up(Key::from_code(key)), keyflags))
    } else if msg == KEY_MSG_CHAR {
        match char::from_u32(key) {
            Some(c) => {
                proof {
                    vstd::utf8::char_u32_cast(c, key);
                }
                Some((KeyMsg::Char(c), keyflags))
            },
            None => None,
        }
    } else {
        None
    }
}

/// Decode a native key-event flag word into the typed flags.
pub fn decode_key_flags(flags: u32) -> (r: KeyFlags)
    ensures
        r == spec_key_flags(flags),
{
    let mut bits: u32 = 0;
    if flags & KEY_FLAG_SHIFT != 0 {
        bits = bits + KEYFLAGS_SHIFT;
    }
    if flags & KEY_FLAG_CTRL != 0 {
        bits = bits + KEYFLAGS_CTRL;
    }
    if flags & KEY_FLAG_FIRST_DOWN != 0 {
        bits = bits + KEYFLAGS_FIRST;
    }
    KeyFlags { bits }
}

/// Native mouse-event code: a button went down.
pub const MOUSE_MSG_DOWN: u32 = 16;

/// Native mouse-event code: a button went up.
pub const MOUSE_MSG_UP: u32 = 32;

/// Native mouse-event code: the pointer moved.
pub const MOUSE_MSG_MOVE: u32 = 64;

/// Native mouse-event code: the wheel turned.
pub const MOUSE_MSG_WHEEL: u32 = 128;

/// Native mouse-flag bit: the left button.
pub const MOUSE_FLAG_LEFT: u32 = 1;

/// Native mouse-flag bit: the right button.
pub const MOUSE_FLAG_RIGHT: u32 = 2;

/// Native mouse-flag bit: the middle button.
pub const MOUSE_FLAG_MID: u32 = 4;

/// A mouse event, as the plain fields of the native record.
#[derive(Clone, Copy, Debug, PartialEq, Eq, Structural, Hash)]
pub struct MouseMsg {
    /// The native event code.
    pub msg: u32,
    /// The native button-flag word.
    pub flags: u32,
    /// Pointer x position.
    pub x: i32,
    /// Pointer y position.
    pub y: i32,
    /// Wheel delta.
    pub wheel: i32,
}

impl MouseMsg {
    /// The pointer position of the event.
    pub fn pos(&self) -> (r: Point<i32>)
        ensures
            r.x == self.x,
            r.y == self.y,
    {
        Point { x: self.x, y: self.y }
    }

    /// Whether this is a pointer-move event.
    pub fn is_move(&self) -> (r: bool)
        ensures
            r == (self.msg == MOUSE_MSG_MOVE),
    {
        self.msg == MOUSE_MSG_MOVE
    }

    /// Whether this is a button-down event.
    pub fn is_down(&self) -> (r: bool)
        ensures
            r == (self.msg == MOUSE_MSG_DOWN),
    {
        self.msg == MOUSE_MSG_DOWN
    }

    /// Whether this is a button-up event.
    pub fn is_up(&self) -> (r: bool)
        ensures
            r == (self.msg == MOUSE_MSG_UP),
    {
        self.msg == MOUSE_MSG_UP
    }

    /// Whether the left button takes part in the event.
    pub fn is_left(&self) -> (r: bool)
        ensures
            r == (self.flags & MOUSE_FLAG_LEFT != 0),
    {
        self.flags & MOUSE_FLAG_LEFT != 0
    }

    /// Whether the right button takes part in the event.
    pub fn is_right(&self) -> (r: bool)
        ensures
            r == (self.flags & MOUSE_FLAG_RIGHT != 0),
    {
        self.flags & MOUSE_FLAG_RIGHT != 0
    }

    /// Whether the middle button takes part in the event.
    pub fn is_middle(&self) -> (r: bool)
        ensures
            r == (self.flags & MOUSE_FLAG_MID != 0),
    {
        self.flags & MOUSE_FLAG_MID != 0
    }

    /// Whether this is a wheel event.
    pub fn is_wheel(&self) -> (r: bool)
        ensures
            r == (self.msg == MOUSE_MSG_WHEEL),
    {
        self.msg == MOUSE_MSG_WHEEL
    }

    /// The wheel delta of the event.
    pub fn wheel(&self) -> (r: i32)
        ensures
            r == self.wheel,
    {
        self.wheel
    }
}

} // verus!
