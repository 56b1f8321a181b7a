//! A small interactive command interpreter: line splitting, the command
//! grammar, search-path resolution and the read-eval loop as a state machine.
pub mod command;
pub mod path;
pub mod repl;
pub mod tokens;
