//! Host shell logic for a CHIP-8 style virtual machine front end.
//!
//! The crate holds the pure, verified part of a real-time host: the
//! bijective mapping between physical scan codes and the sixteen logical
//! hex keys, the keyboard adapter decisions over a snapshot of held keys,
//! the rendering computation from a bit-per-cell frame buffer to lit
//! coordinates, and the frame-pump decision that reacts to a virtual
//! machine fault or a quit event. Device setup, event polling, the audio
//! callback and the display itself live outside this crate.

pub mod audio;
pub mod frame;
pub mod keyboard;
pub mod keymap;
pub mod pump;
