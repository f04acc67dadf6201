//! The event codes of the system's `mouse_event` call, as Win32 defines
//! them. A set of codes is the bitwise union of its members.

use vstd::prelude::*;

verus! {

/// The event reports movement.
pub const MOUSEEVENTF_MOVE: u32 = 0x0001;

/// The left button went down.
pub const MOUSEEVENTF_LEFTDOWN: u32 = 0x0002;

/// The left button came up.
pub const MOUSEEVENTF_LEFTUP: u32 = 0x0004;

/// The right button went down.
pub const MOUSEEVENTF_RIGHTDOWN: u32 = 0x0008;

/// The right button came up.
pub const MOUSEEVENTF_RIGHTUP: u32 = 0x0010;

/// The middle button went down.
pub const MOUSEEVENTF_MIDDLEDOWN: u32 = 0x0020;

/// The middle button came up.
pub const MOUSEEVENTF_MIDDLEUP: u32 = 0x0040;

/// The event's position is absolute, in normalized coordinates.
pub const MOUSEEVENTF_ABSOLUTE: u32 = 0x8000;

/// The codes of all button transitions taken together.
pub const BUTTON_CODES: u32 = 0x007e;

/// The code set of an absolute move: movement, at a normalized position.
pub open spec fn absolute_move_code() -> u32 {
    0x8001
}

/// The code set to inject for an absolute move.
pub fn absolute_move_flags() -> (flags: u32)
    ensures
        flags == absolute_move_code(),
        flags == MOUSEEVENTF_MOVE | MOUSEEVENTF_ABSOLUTE,
        flags & BUTTON_CODES == 0,
{
    assert(0x0001u32 | 0x8000u32 == 0x8001u32) by (bit_vector);
    assert(0x8001u32 & 0x007eu32 == 0) by (bit_vector);
    MOUSEEVENTF_MOVE | MOUSEEVENTF_ABSOLUTE
}

} // verus!
