//! The core of a small screen-oriented text editor: the row buffer, the
//! cursor and viewport engine, the terminal renderer and the input decoder.
//!
//! Everything here works on plain values. Reading keys, writing to the
//! terminal and touching files is left to the program built around it.

pub mod keyboard;
pub mod text;
pub mod terminal;
pub mod row;
pub mod syntax_highlight;
pub mod editor;
pub mod cursor;
pub mod edit;
pub mod render;
pub mod laws;
pub mod session;
pub mod clip;
