//! Interactive command-selection front-end for a farming CLI.
//!
//! The crate owns the logic of the menu session: the fixed set of commands
//! and their display labels, the argument resolver that maps an invocation
//! to a command, the menu state machine that turns key events into cursor
//! moves and redraws while tracking the raw-terminal-mode lifecycle, the
//! in-place rendering protocol that produces each frame as one ANSI string,
//! and the strict yes/no prompts that collect a command's flags.
//!
//! Reading terminal events, switching the terminal mode, and running the
//! chosen action are left to the surrounding binary; every decision it has
//! to make is taken here, under a contract.

pub mod args;
pub mod command;
pub mod menu;
pub mod prompts;
pub mod render;

pub use command::Command;
