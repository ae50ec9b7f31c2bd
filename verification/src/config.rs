//! Host detection and the XP-visible memory limits derived from it.

use sysinfo::System;
use vstd::prelude::*;

verus! {

/// One mebibyte in bytes.
pub const MIB: u64 = 1048576;

/// The memory size (in MiB) reported to XP-era applications for a host
/// with `host_ram_mb` MiB of physical memory.
pub open spec fn spec_reported_xp_memory_mb(host_ram_mb: u64) -> u64 {
    if host_ram_mb >= 16384 {
        2048
    } else if host_ram_mb >= 8192 {
        1024
    } else if host_ram_mb >= 4096 {
        768
    } else if host_ram_mb >= 2048 {
        512
    } else {
        128
    }
}

/// Returns the amount of RAM (in mebibytes) that should be reported
/// to Windows XP-era applications, based on the host's physical RAM.
///
/// - >= 16 GB host -> 2 GB
/// - >=  8 GB host -> 1 GB
/// - >=  4 GB host -> 768 MB
/// - >=  2 GB host -> 512 MB
/// - otherwise     -> 128 MB
pub fn reported_xp_memory_mb(host_ram_mb: u64) -> (mb: u64)
    ensures
        mb == spec_reported_xp_memory_mb(host_ram_mb),
{
    if host_ram_mb >= 16 * 1024 {
        2 * 1024
    } else if host_ram_mb >= 8 * 1024 {
        1024
    } else if host_ram_mb >= 4 * 1024 {
        768
    } else if host_ram_mb >= 2 * 1024 {
        512
    } else {
        128
    }
}

/// The reported size only grows with the host's memory.
pub proof fn lemma_reported_monotonic(a: u64, b: u64)
    requires
        a <= b,
    ensures
        spec_reported_xp_memory_mb(a) <= spec_reported_xp_memory_mb(b),
{
}

/// The reported size is always one of the five sizes of the mapping table.
pub proof fn lemma_reported_is_table_value(host: u64)
    ensures
        spec_reported_xp_memory_mb(host) == 128 || spec_reported_xp_memory_mb(host) == 512
            || spec_reported_xp_memory_mb(host) == 768 || spec_reported_xp_memory_mb(host) == 1024
            || spec_reported_xp_memory_mb(host) == 2048,
{
}

/// The reported size is a reduction: it never exceeds what the host has,
/// once the host has at least the smallest size of the table.
pub proof fn lemma_reported_not_above_host(host: u64)
    requires
        host >= 128,
    ensures
        spec_reported_xp_memory_mb(host) <= host,
{
}

#[verifier::external_type_specification]
#[verifier::external_body]
pub struct ExSystem(System);

/// Calls `sysinfo::System::new`, which creates a handle with nothing read yet.
/// Nothing is claimed of the handle.
#[verifier::external_body]
fn system_new() -> (sys: System) {
    System::new()
}

/// Calls `sysinfo::System::refresh_memory`, which reads the host's memory
/// figures into the handle. Nothing is claimed of what it reads.
#[verifier::external_body]
fn system_refresh_memory(sys: &mut System) {
    sys.refresh_memory()
}

/// Calls `sysinfo::System::total_memory`, the host's RAM size in bytes as of
/// the last refresh. The value depends on the machine, so nothing is claimed of it.
#[verifier::external_body]
fn system_total_memory(sys: &System) -> (bytes: u64) {
    sys.total_memory()
}

/// The host's total physical memory in bytes, as sysinfo reads it.
fn host_total_memory_bytes() -> (bytes: u64) {
    let mut sys = system_new();
    system_refresh_memory(&mut sys);
    system_total_memory(&sys)
}

/// Whole mebibytes in `bytes` bytes.
pub fn memory_mb_from_bytes(bytes: u64) -> (mb: u64)
    ensures
        mb == bytes / MIB,
{
    bytes / MIB
}

/// Detects the host's total physical memory in mebibytes.
pub fn detect_host_memory_mb() -> (mb: u64)
    ensures
        mb <= u64::MAX / MIB,
{
    memory_mb_from_bytes(host_total_memory_bytes())
}

/// Holds the runtime configuration used by the compatibility layer.
#[derive(Debug, Clone, Copy, PartialEq, Eq)]
pub struct LayerConfig {
    pub host_memory_mb: u64,
    pub reported_memory_mb: u64,
}

impl LayerConfig {
    /// The configuration for a host with `bytes` bytes of physical memory:
    /// its size in whole MiB and the size reported to the guest.
    pub fn from_total_bytes(bytes: u64) -> (config: Self)
        ensures
            config.host_memory_mb == bytes / MIB,
            config.reported_memory_mb == spec_reported_xp_memory_mb(config.host_memory_mb),
    {
        let host_memory_mb = memory_mb_from_bytes(bytes);
        let reported_memory_mb = reported_xp_memory_mb(host_memory_mb);
        LayerConfig { host_memory_mb, reported_memory_mb }
    }

    /// Detects the host's memory and derives the size reported to the guest.
    pub fn detect() -> (config: Self)
        ensures
            exists|bytes: u64| #[trigger] (bytes / MIB) == config.host_memory_mb,
            config.reported_memory_mb == spec_reported_xp_memory_mb(config.host_memory_mb),
    {
        let bytes = host_total_memory_bytes();
        let config = LayerConfig::from_total_bytes(bytes);
        assert(bytes / MIB == config.host_memory_mb);
        config
    }
}

} // verus!
