//! A terminal emulator: a grid of cells with scrollback, a cursor, modes, tab stops
//! and the operations that escape sequences ask for.

pub mod ansi;
pub mod config;
pub mod grid;
pub mod index;
pub mod mode;
pub mod parser;
pub mod perform;
pub mod selection;
pub mod term;
