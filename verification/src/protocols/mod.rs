//! The state behind the protocols that the compositor speaks itself.

pub mod foreign_toplevel;
pub mod screencopy;
