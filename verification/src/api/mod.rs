//! Emulated Win32 API surface.

pub mod kernel32;
