//! The commands: their arguments and the decisions they make.
pub mod new;
pub mod config;
pub mod list;
pub mod update;
