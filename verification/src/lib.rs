//! A line-oriented text-editing engine: a line buffer with a two-dimensional
//! cursor, scroll/viewport geometry, a small command grammar, and a
//! mode-dispatch editor controller that routes input events to buffer
//! operations.

pub mod buffer;
pub mod color;
pub mod command;
pub mod config;
pub mod editor;
pub mod pos;
pub mod textops;
mod strutil;
