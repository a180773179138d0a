//! Batch renaming of files by regular expression: the selection, transformation
//! and planning rules, the rules of the apply step, and the interactive session
//! as an explicit state machine. Everything that touches a terminal or the
//! filesystem is left to the caller.

pub mod apply;
pub mod config;
pub mod engine;
pub mod error;
pub mod listing;
pub mod matcher;
pub mod menu;
pub mod numeral;
pub mod planner;
pub mod renamer;
pub mod rewrite;
pub mod session;
pub mod text;
