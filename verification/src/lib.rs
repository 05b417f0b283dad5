//! Input-automation logic of an auto clicker: virtual-key and X11 keysym
//! mapping, key-state snapshots, monitor and window queries, the custom
//! stop-zone picker and autostart entries.
#![allow(non_upper_case_globals)]

pub mod autostart;
pub mod keystate;
pub mod keysym;
pub mod picker;
pub mod screen;
pub mod vkcodes;
pub mod window_tree;
pub mod windows;
