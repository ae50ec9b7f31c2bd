//! Verified core of a Windows XP compatibility layer: the memory view that
//! guest applications are given, the host CPU policy, a 32-bit PE image
//! parser and loader with its import table, a tiny x86 interpreter, and the application picker's
//! decisions.

pub mod config;
pub mod api;
pub mod text;
pub mod bytes;
pub mod pe;
pub mod cpu;
pub mod picker;
