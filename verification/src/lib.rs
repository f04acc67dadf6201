//! Mouse control for the Windows desktop, as pure decisions.
//!
//! The library turns pixel positions into the `[0, 65536)` coordinate space
//! that absolute pointer injection asks for, lays out the events that a move
//! or a click consists of, and reads a cursor position back into pixels.
//! Talking to the operating system is left to the caller: every function
//! here takes what the system reported and returns what is to be sent.

pub mod button;
pub mod error;
pub mod flags;
pub mod geometry;
pub mod pointer;

pub use button::MouseButton;
pub use error::MouseError;
pub use geometry::{NormalizedPoint, Point, ScreenPoint, ScreenSize};
pub use pointer::{
    dispatch_status, get_mouse_pos, get_mouse_pos_inner, mouse_click, mouse_event, mouse_move,
    mouse_move_inner, Dispatched, InputEvent,
};
