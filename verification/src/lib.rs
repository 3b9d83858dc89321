//! Verified adapters from platform input events (Wayland, Win32, winit and
//! DOM) into the portable `ui-events` vocabulary of keys, pointers and text.

pub mod keyboard;
pub mod pointer;
pub mod wayland;
pub mod tap;
pub mod text;
mod text_util;
pub mod utf16;
pub mod windows;
pub mod winit;
