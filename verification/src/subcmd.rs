//! The subcommands, one module each.

pub mod repl;
pub mod standalone;
