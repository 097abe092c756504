//! A minimal line-based text editor core.
//!
//! The editor keeps a buffer of text lines and a one-based cursor. Every key
//! press maps the current state to the next one; the mapping is stated over a
//! mathematical model of the state and proved for every state and key.

pub mod keys;
pub mod laws;
pub mod model;
pub mod screen;
pub mod state;
pub mod text;

pub use keys::{accepts, apply, Key, Step};
pub use screen::render;
pub use state::{process_keystroke, State};
