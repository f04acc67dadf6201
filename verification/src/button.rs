//! The buttons a click can target, and the event codes of each.

use crate::flags::{
    MOUSEEVENTF_LEFTDOWN, MOUSEEVENTF_LEFTUP, MOUSEEVENTF_MIDDLEDOWN, MOUSEEVENTF_MIDDLEUP,
    MOUSEEVENTF_RIGHTDOWN, MOUSEEVENTF_RIGHTUP,
};
use vstd::prelude::*;

verus! {

/// One of the three buttons that a click can target.
#[derive(Clone, Copy, Debug, PartialEq, Eq, Structural)]
pub enum MouseButton {
    Left,
    Right,
    Middle,
}

impl MouseButton {
    /// The event code that reports this button going down.
    pub open spec fn press_code(self) -> u32 {
        match self {
            MouseButton::Left => MOUSEEVENTF_LEFTDOWN,
            MouseButton::Right => MOUSEEVENTF_RIGHTDOWN,
            MouseButton::Middle => MOUSEEVENTF_MIDDLEDOWN,
        }
    }

    /// The event code that reports this button coming up.
    pub open spec fn release_code(self) -> u32 {
        match self {
            MouseButton::Left => MOUSEEVENTF_LEFTUP,
            MouseButton::Right => MOUSEEVENTF_RIGHTUP,
            MouseButton::Middle => MOUSEEVENTF_MIDDLEUP,
        }
    }

    /// The event code to inject for pressing this button.
    pub fn press_flag(self) -> (code: u32)
        ensures
            code == self.press_code(),
    {
        match self {
            MouseButton::Left => MOUSEEVENTF_LEFTDOWN,
            MouseButton::Right => MOUSEEVENTF_RIGHTDOWN,
            MouseButton::Middle => MOUSEEVENTF_MIDDLEDOWN,
        }
    }

    /// The event code to inject for releasing this button.
    pub fn release_flag(self) -> (code: u32)
        ensures
            code == self.release_code(),
    {
        match self {
            MouseButton::Left => MOUSEEVENTF_LEFTUP,
            MouseButton::Right => MOUSEEVENTF_RIGHTUP,
            MouseButton::Middle => MOUSEEVENTF_MIDDLEUP,
        }
    }
}

/// No two transitions share a code: a code names its button and whether it
/// went down or came up.
pub proof fn lemma_codes_distinct(a: MouseButton, b: MouseButton)
    ensures
        a.press_code() != b.release_code(),
        a.press_code() == b.press_code() <==> a == b,
        a.release_code() == b.release_code() <==> a == b,
{
}

} // verus!
