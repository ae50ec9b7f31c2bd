//! kernel32.dll functions.

pub mod memory;
