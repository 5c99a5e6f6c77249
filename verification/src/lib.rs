//! Validation of a convention for shell scripts that copy files and
//! directories with the commands `f` and `d`: every `d` command stands before
//! every `f` command, and within each run of one kind the first arguments
//! that are no flags stand in ascending order.
//!
//! `parse::parse` takes the text of a script and returns success or the one
//! diagnostic of the first rule that is broken. The way there leads through
//! `syntax` (text to statements, by the Bash grammar of tree-sitter),
//! `command` (statements to copy commands) and `order` (copy commands to a
//! verdict, pair by pair with `with_prev`). `laws` states what holds of every
//! script.

pub mod command;
pub mod diagnostic;
pub mod laws;
pub mod order;
pub mod parse;
pub mod range;
pub mod syntax;
pub mod text;
pub mod with_prev;
pub mod yield_self;
