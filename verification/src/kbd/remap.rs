//! The remap table: which key stands for which while the modifier is held.

use vstd::prelude::*;
use crate::kbd::keys::{
    KEY_0, KEY_1, KEY_2, KEY_3, KEY_4, KEY_5, KEY_6, KEY_7, KEY_8, KEY_9, KEY_APOSTROPHE,
    KEY_BACKSPACE, KEY_CAPSLOCK, KEY_DELETE, KEY_DOWN, KEY_END, KEY_ENTER, KEY_EQUAL, KEY_F1,
    KEY_F10, KEY_F11, KEY_F12, KEY_F2, KEY_F3, KEY_F4, KEY_F5, KEY_F6, KEY_F7, KEY_F8, KEY_F9,
    KEY_H, KEY_HOME, KEY_INSERT, KEY_J, KEY_K, KEY_L, KEY_LEFT, KEY_LEFT_BRACE, KEY_MAX,
    KEY_MINUS, KEY_PAGE_DOWN, KEY_PAGE_UP, KEY_RIGHT, KEY_RIGHT_BRACE, KEY_SLASH, KEY_UP,
};

verus! {

/// The remap table, from trigger key code to substitute key code.
///
/// A key code outside the domain has no substitute.
pub open spec fn remap_table() -> Map<u16, u16> {
    map![
        KEY_H => KEY_LEFT,
        KEY_J => KEY_DOWN,
        KEY_K => KEY_UP,
        KEY_L => KEY_RIGHT,
        KEY_BACKSPACE => KEY_DELETE,
        KEY_LEFT_BRACE => KEY_HOME,
        KEY_RIGHT_BRACE => KEY_END,
        KEY_APOSTROPHE => KEY_PAGE_UP,
        KEY_SLASH => KEY_PAGE_DOWN,
        KEY_ENTER => KEY_INSERT,
        KEY_1 => KEY_F1,
        KEY_2 => KEY_F2,
        KEY_3 => KEY_F3,
        KEY_4 => KEY_F4,
        KEY_5 => KEY_F5,
        KEY_6 => KEY_F6,
        KEY_7 => KEY_F7,
        KEY_8 => KEY_F8,
        KEY_9 => KEY_F9,
        KEY_0 => KEY_F10,
        KEY_MINUS => KEY_F11,
        KEY_EQUAL => KEY_F12,
    ]
}

/// Whether `code` is a trigger key, that is, has an entry in the remap table.
pub open spec fn is_trigger(code: u16) -> bool {
    remap_table().contains_key(code)
}

/// Looks `code` up in the remap table.
pub fn substitute(code: u16) -> (found: Option<u16>)
    ensures
        is_trigger(code) ==> found == Some(remap_table()[code]),
        !is_trigger(code) ==> found.is_none(),
{
    match code {
        KEY_H => Some(KEY_LEFT),
        KEY_J => Some(KEY_DOWN),
        KEY_K => Some(KEY_UP),
        KEY_L => Some(KEY_RIGHT),
        KEY_BACKSPACE => Some(KEY_DELETE),
        KEY_LEFT_BRACE => Some(KEY_HOME),
        KEY_RIGHT_BRACE => Some(KEY_END),
        KEY_APOSTROPHE => Some(KEY_PAGE_UP),
        KEY_SLASH => Some(KEY_PAGE_DOWN),
        KEY_ENTER => Some(KEY_INSERT),
        KEY_1 => Some(KEY_F1),
        KEY_2 => Some(KEY_F2),
        KEY_3 => Some(KEY_F3),
        KEY_4 => Some(KEY_F4),
        KEY_5 => Some(KEY_F5),
        KEY_6 => Some(KEY_F6),
        KEY_7 => Some(KEY_F7),
        KEY_8 => Some(KEY_F8),
        KEY_9 => Some(KEY_F9),
        KEY_0 => Some(KEY_F10),
        KEY_MINUS => Some(KEY_F11),
        KEY_EQUAL => Some(KEY_F12),
        _ => None,
    }
}

/// Every substitute is a key code of the key-event namespace, and neither a
/// trigger itself nor the modifier key; the modifier key is no trigger.
pub proof fn lemma_substitutes_valid(code: u16)
    requires
        is_trigger(code),
    ensures
        0 < remap_table()[code] <= KEY_MAX,
        !is_trigger(remap_table()[code]),
        remap_table()[code] != KEY_CAPSLOCK,
        code != KEY_CAPSLOCK,
{
}

/// The remap table has 22 entries, each under a trigger of its own.
pub proof fn lemma_table_size()
    ensures
        remap_table().dom().finite(),
        remap_table().dom().len() == 22,
{
}

} // verus!
