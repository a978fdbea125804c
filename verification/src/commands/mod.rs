//! The commands of the tool.

pub mod create;
pub mod push;
pub mod sync;
