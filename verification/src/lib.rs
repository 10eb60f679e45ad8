//! Screen-composition and cursor-navigation core of a full-screen terminal
//! editor shell.
//!
//! The library computes complete frames (escape sequences and printable
//! characters) into an in-memory buffer and keeps the cursor inside the
//! viewport; the surrounding binary owns the terminal itself (raw mode,
//! event polling, and the single write-and-flush per frame).

pub mod ansi;
pub mod buffer;
pub mod cursor;
pub mod editor;
pub mod input;
pub mod render;
