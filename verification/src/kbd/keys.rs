//! Event kinds and key codes of the Linux input subsystem, as far as the
//! interceptor names them.

use vstd::prelude::*;

verus! {

/// The event kind of key presses, releases and repeats.
pub const EV_KEY: u16 = 0x01;

/// The largest key code of the key-event namespace.
pub const KEY_MAX: u16 = 0x2ff;

/// The modifier key: held down, it turns trigger keys into their substitutes.
pub const KEY_CAPSLOCK: u16 = 58;

pub const KEY_H: u16 = 35;

pub const KEY_J: u16 = 36;

pub const KEY_K: u16 = 37;

pub const KEY_L: u16 = 38;

pub const KEY_UP: u16 = 103;

pub const KEY_LEFT: u16 = 105;

pub const KEY_RIGHT: u16 = 106;

pub const KEY_DOWN: u16 = 108;

pub const KEY_DELETE: u16 = 111;

pub const KEY_HOME: u16 = 102;

pub const KEY_END: u16 = 107;

pub const KEY_PAGE_UP: u16 = 104;

pub const KEY_PAGE_DOWN: u16 = 109;

pub const KEY_INSERT: u16 = 110;

pub const KEY_BACKSPACE: u16 = 14;

pub const KEY_LEFT_BRACE: u16 = 26;

pub const KEY_RIGHT_BRACE: u16 = 27;

pub const KEY_ENTER: u16 = 28;

pub const KEY_APOSTROPHE: u16 = 40;

pub const KEY_SLASH: u16 = 53;

pub const KEY_1: u16 = 2;

pub const KEY_2: u16 = 3;

pub const KEY_3: u16 = 4;

pub const KEY_4: u16 = 5;

pub const KEY_5: u16 = 6;

pub const KEY_6: u16 = 7;

pub const KEY_7: u16 = 8;

pub const KEY_8: u16 = 9;

pub const KEY_9: u16 = 10;

pub const KEY_0: u16 = 11;

pub const KEY_MINUS: u16 = 12;

pub const KEY_EQUAL: u16 = 13;

pub const KEY_F1: u16 = 59;

pub const KEY_F2: u16 = 60;

pub const KEY_F3: u16 = 61;

pub const KEY_F4: u16 = 62;

pub const KEY_F5: u16 = 63;

pub const KEY_F6: u16 = 64;

pub const KEY_F7: u16 = 65;

pub const KEY_F8: u16 = 66;

pub const KEY_F9: u16 = 67;

pub const KEY_F10: u16 = 68;

pub const KEY_F11: u16 = 87;

pub const KEY_F12: u16 = 88;

} // verus!
