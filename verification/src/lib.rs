//! A terminal multiplexer's core: the argument tokenizer, the fan-out protocol, the
//! set of merged streams, the terminal emulator and the layout of the tabbed view.

pub mod args;
pub mod fanout;
pub mod options;
pub mod process;
pub mod streams;
pub mod strings;
pub mod terminal_emulator;
pub mod ui;
