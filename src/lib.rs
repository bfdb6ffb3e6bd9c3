//! A screen color picker: the decisions behind picking a pixel's color.
//!
//! The library turns a captured pixel buffer into an uppercase `#RRGGBB`
//! string, and plans the window actions of the picker overlay as a small
//! state machine over a model of the desktop. Everything that touches the
//! screen, the windowing toolkit or the clipboard is left to the caller,
//! which performs the planned actions in order.

pub mod color;
pub mod error;
pub mod picker;
