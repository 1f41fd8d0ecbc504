//! Input handling: key identification, listener state, keymap-layout
//! resolution and the layout cache.

pub mod device;
pub mod keymap;
pub mod layout;
pub mod listener;
pub mod xkb;
