//! Usage codes from the HID Usage Tables, and the classification rules the
//! report builders follow.
//!
//! A keyboard usage is carried as its 8-bit wire value; a consumer usage as
//! its 16-bit wire value. `0x00` (no event) is the zero element of both pages.

use vstd::prelude::*;

verus! {

pub const KEYBOARD_NO_EVENT: u8 = 0x00;

pub const KEYBOARD_ERROR_ROLL_OVER: u8 = 0x01;

pub const KEYBOARD_A: u8 = 0x04;

pub const KEYBOARD_B: u8 = 0x05;

pub const KEYBOARD_C: u8 = 0x06;

pub const KEYBOARD_D: u8 = 0x07;

pub const KEYBOARD_E: u8 = 0x08;

pub const KEYBOARD_F: u8 = 0x09;

pub const KEYBOARD_G: u8 = 0x0A;

/// First modifier usage, LeftControl.
pub const KEYBOARD_LEFT_CONTROL: u8 = 0xE0;

pub const KEYBOARD_LEFT_SHIFT: u8 = 0xE1;

pub const KEYBOARD_LEFT_ALT: u8 = 0xE2;

pub const KEYBOARD_LEFT_GUI: u8 = 0xE3;

pub const KEYBOARD_RIGHT_CONTROL: u8 = 0xE4;

pub const KEYBOARD_RIGHT_SHIFT: u8 = 0xE5;

pub const KEYBOARD_RIGHT_ALT: u8 = 0xE6;

/// Last modifier usage, RightGUI; usages above it are ignored by the builders.
pub const KEYBOARD_RIGHT_GUI: u8 = 0xE7;

/// Highest usage carried in the NKRO bitmap.
pub const NKRO_BITMAP_LAST_USAGE: u8 = 0xDF;

pub const CONSUMER_NO_CODE: u16 = 0x0000;

pub const CONSUMER_PLAY_PAUSE: u16 = 0x00CD;

pub const CONSUMER_MUTE: u16 = 0x00E2;

pub const CONSUMER_VOLUME_INCREMENT: u16 = 0x00E9;

pub const CONSUMER_VOLUME_DECREMENT: u16 = 0x00EA;

/// A modifier usage sets a bit of the modifier byte, never a slot or a
/// bitmap bit.
pub open spec fn is_modifier_usage(u: u8) -> bool {
    0xE0 <= u <= 0xE7
}

/// A usage reported through the NKRO bitmap or a boot slot: non-zero (no
/// event contributes nothing) and below the modifier range. Usages above
/// `0xE7` are ignored altogether.
pub open spec fn is_key_usage(u: u8) -> bool {
    1 <= u <= 0xDF
}

/// Whether a usage is a modifier, decided in executable code.
pub fn usage_is_modifier(u: u8) -> (r: bool)
    ensures
        r == is_modifier_usage(u),
{
    0xE0 <= u && u <= 0xE7
}

/// Whether a usage belongs in the bitmap or a boot slot.
pub fn usage_is_key(u: u8) -> (r: bool)
    ensures
        r == is_key_usage(u),
{
    1 <= u && u <= 0xDF
}

} // verus!
