//! The hardware abstraction layer proper.

pub mod commands;
pub mod handle;
pub mod internal;
