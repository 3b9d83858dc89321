//! Translations of raw Win32 window messages (keyboard, mouse, touch, IME).

pub mod keyboard;
pub mod pointer;
pub mod reducer;
pub mod text;
