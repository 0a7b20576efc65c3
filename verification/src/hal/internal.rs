//! Handles in the form in which the native hardware interface passes them
//! around: plain 32-bit integers.

pub mod handle;
pub mod types;
