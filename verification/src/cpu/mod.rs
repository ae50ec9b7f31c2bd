//! Host CPU checks and guest x86 execution skeleton.
//!
//! Host policy (current):
//! - Only **GenuineIntel** is accepted.
//! - AMD and other vendors are rejected ("not included yet").
//! - Intel CPUs from roughly Core 2 era (2006) onward are accepted
//!   via family/model heuristics; very old Pentium-era chips are rejected.

pub mod check;
pub mod emu;

pub use emu::{CpuState, Emulator, EmulatorReport, EmulatorView, StopReason};
pub use check::{check_host_cpu, classify, HostCpuInfo, HostCpuStatus};
