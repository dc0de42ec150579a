//! A minimal line-oriented markup translator.
//!
//! Each input line is classified by its leading character (`#` starts a
//! heading, anything else is body text) and wrapped in the corresponding
//! container tags of the output format. Two booleans of cross-line state
//! track which container is currently open.

pub mod ast;
pub mod iml;
pub mod markup;
