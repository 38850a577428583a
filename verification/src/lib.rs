//! The core of a terminal browser for dotfiles and configuration entries.
//!
//! The crate never touches the terminal, the keyboard or the filesystem.
//! It decides: which walked paths become entries, what a key does to the
//! selection, what one frame shows, and what the event loop has to do next.
//! The program around it performs those steps and reports back what happened.

pub mod keys;
pub mod selection;
pub mod entry;
pub mod locator;
pub mod preview;
pub mod frame;
pub mod session;
