//! Translations of Wayland (`wl_pointer`, `wl_keyboard`, `wl_touch`,
//! `wl_seat`, tablet and gesture) input data.


pub mod keyboard;
pub mod mapping;
pub mod pointer;
pub mod seat;
pub mod tablet;
pub mod touch;
