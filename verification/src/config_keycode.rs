//! A key of the keyboard, by its number.

use vstd::prelude::*;

verus! {

/// A key code as the windowing library reports it.
#[derive(Debug, Clone, Copy, PartialEq, Eq, Hash, Structural)]
pub struct Keycode(pub i32);

pub const KEY_RETURN: i32 = 13;

pub const KEY_SPACE: i32 = 32;

pub const KEY_MINUS: i32 = 45;

pub const KEY_EQUALS: i32 = 61;

pub const KEY_LEFT_BRACKET: i32 = 91;

pub const KEY_RIGHT_BRACKET: i32 = 93;

pub const KEY_RIGHT: i32 = 0x4000_004f;

pub const KEY_LEFT: i32 = 0x4000_0050;

pub const KEY_DOWN: i32 = 0x4000_0051;

pub const KEY_UP: i32 = 0x4000_0052;

pub const KEY_POWER: i32 = 0x4000_0066;

pub const KEY_LCTRL: i32 = 0x4000_00e0;

pub const KEY_LSHIFT: i32 = 0x4000_00e1;

pub const KEY_LALT: i32 = 0x4000_00e2;

impl Keycode {
    /// The number of the key.
    pub fn code(&self) -> (r: i32)
        ensures
            r == self.0,
    {
        self.0
    }
}

} // verus!
