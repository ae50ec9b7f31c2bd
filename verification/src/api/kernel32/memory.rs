//! Memory-status APIs that report the constrained XP memory size.

use crate::config::LayerConfig;
use vstd::prelude::*;

verus! {

/// The highest user-mode address of a 32-bit process, roughly.
pub const USER_VIRTUAL_LIMIT: u64 = 0x7FFE_FFFF;

/// MEMORYSTATUS structure (Windows XP).
#[derive(Debug, Clone, Copy)]
pub struct MemoryStatus {
    pub length: u32,
    pub memory_load: u32,
    pub total_phys: usize,
    pub avail_phys: usize,
    pub total_page_file: usize,
    pub avail_page_file: usize,
    pub total_virtual: usize,
    pub avail_virtual: usize,
}

/// MEMORYSTATUSEX structure (Windows XP and later).
#[derive(Debug, Clone, Copy)]
pub struct MemoryStatusEx {
    pub length: u32,
    pub memory_load: u32,
    pub total_phys: u64,
    pub avail_phys: u64,
    pub total_page_file: u64,
    pub avail_page_file: u64,
    pub total_virtual: u64,
    pub avail_virtual: u64,
    pub avail_extended_virtual: u64,
}

/// `a * b`, or `max` when the product exceeds `max`.
pub open spec fn saturating_product(a: int, b: int, max: int) -> int {
    if a * b > max {
        max
    } else {
        a * b
    }
}

/// Total physical memory in bytes as `GlobalMemoryStatusEx` reports it.
pub open spec fn ex_total_bytes(config: LayerConfig) -> int {
    saturating_product(config.reported_memory_mb as int, 1048576, u64::MAX as int)
}

/// Total physical memory in bytes as `GlobalMemoryStatus` reports it: the
/// reported size is first narrowed to the machine word.
pub open spec fn total_bytes(config: LayerConfig) -> int {
    saturating_product((config.reported_memory_mb as usize) as int, 1048576, usize::MAX as int)
}

/// The share of memory presented as in use: one eighth of the total.
pub open spec fn used_bytes(total: int) -> int {
    total / 8
}

/// The memory load in percent for a given total.
pub open spec fn load_percent(total: int) -> int {
    (used_bytes(total) * 100) / (if total > 1 { total } else { 1 })
}

/// The inputs for which `GlobalMemoryStatus` is defined: the page file
/// (twice the total) fits in a machine word and the part in use fits
/// below the 32-bit user-mode limit.
pub open spec fn status_defined(config: LayerConfig) -> bool {
    &&& total_bytes(config) * 2 <= usize::MAX
    &&& used_bytes(total_bytes(config)) <= USER_VIRTUAL_LIMIT
}

/// The inputs for which `GlobalMemoryStatusEx` is defined: the part in use
/// fits below the 32-bit user-mode limit.
pub open spec fn status_ex_defined(config: LayerConfig) -> bool {
    used_bytes(ex_total_bytes(config)) <= USER_VIRTUAL_LIMIT
}

proof fn lemma_load_at_most_100(total: int)
    requires
        total >= 0,
    ensures
        0 <= load_percent(total) <= 100,
{
    let d = if total > 1 { total } else { 1 };
    assert(0 <= used_bytes(total) * 100 <= d * 100) by (nonlinear_arith)
        requires
            total >= 0,
            d >= 1,
            d >= total,
    ;
    assert(0 <= (used_bytes(total) * 100) / d <= 100) by (nonlinear_arith)
        requires
            0 <= used_bytes(total) * 100 <= d * 100,
            d >= 1,
    ;
}

/// GlobalMemoryStatus equivalent.
/// Fills the structure with the constrained XP-visible memory values.
pub fn global_memory_status(config: &LayerConfig) -> (status: MemoryStatus)
    requires
        status_defined(*config),
    ensures
        status.length == vstd::layout::size_of::<MemoryStatus>() as u32,
        status.total_phys == total_bytes(*config),
        status.avail_phys == total_bytes(*config) - used_bytes(total_bytes(*config)),
        status.memory_load == load_percent(total_bytes(*config)),
        status.total_page_file == 2 * total_bytes(*config),
        status.avail_page_file == 2 * total_bytes(*config) - used_bytes(total_bytes(*config)),
        status.total_virtual == USER_VIRTUAL_LIMIT,
        status.avail_virtual == USER_VIRTUAL_LIMIT - used_bytes(total_bytes(*config)),
{
    let mb = config.reported_memory_mb as usize;
    let total: usize = if mb > usize::MAX / 1048576 {
        usize::MAX
    } else {
        mb * 1048576
    };
    let used: usize = total / 8;
    let avail: usize = total - used;
    let divisor: usize = if total > 1 { total } else { 1 };
    proof {
        lemma_load_at_most_100(total as int);
    }
    let load: u64 = (used as u64 * 100) / (divisor as u64);
    let length = std::mem::size_of::<MemoryStatus>() as u32;
    MemoryStatus {
        length,
        memory_load: load as u32,
        total_phys: total,
        avail_phys: avail,
        total_page_file: total * 2,
        avail_page_file: total * 2 - used,
        total_virtual: 0x7FFE_FFFF,
        avail_virtual: 0x7FFE_FFFF - used,
    }
}

/// GlobalMemoryStatusEx equivalent.
pub fn global_memory_status_ex(config: &LayerConfig) -> (status: MemoryStatusEx)
    requires
        status_ex_defined(*config),
    ensures
        status.length == vstd::layout::size_of::<MemoryStatusEx>() as u32,
        status.total_phys == ex_total_bytes(*config),
        status.avail_phys == ex_total_bytes(*config) - used_bytes(ex_total_bytes(*config)),
        status.memory_load == load_percent(ex_total_bytes(*config)),
        status.total_page_file == 2 * ex_total_bytes(*config),
        status.avail_page_file == 2 * ex_total_bytes(*config) - used_bytes(
            ex_total_bytes(*config),
        ),
        status.total_virtual == USER_VIRTUAL_LIMIT,
        status.avail_virtual == USER_VIRTUAL_LIMIT - used_bytes(ex_total_bytes(*config)),
        status.avail_extended_virtual == 0,
{
    let mb = config.reported_memory_mb;
    let total: u64 = if mb > u64::MAX / 1048576 {
        u64::MAX
    } else {
        mb * 1048576
    };
    let used: u64 = total / 8;
    let avail: u64 = total - used;
    let divisor: u64 = if total > 1 { total } else { 1 };
    proof {
        lemma_load_at_most_100(total as int);
    }
    let load: u64 = (used * 100) / divisor;
    let length = std::mem::size_of::<MemoryStatusEx>() as u32;
    MemoryStatusEx {
        length,
        memory_load: load as u32,
        total_phys: total,
        avail_phys: avail,
        total_page_file: total * 2,
        avail_page_file: total * 2 - used,
        total_virtual: 0x7FFE_FFFF,
        avail_virtual: 0x7FFE_FFFF - used,
        avail_extended_virtual: 0,
    }
}

/// Whether `GlobalMemoryStatusEx` is defined for `config`.
pub fn memory_status_ex_is_defined(config: &LayerConfig) -> (defined: bool)
    ensures
        defined == status_ex_defined(*config),
{
    let mb = config.reported_memory_mb;
    if mb > u64::MAX / 1048576 {
        false
    } else {
        (mb * 1048576) / 8 <= 0x7FFE_FFFF
    }
}

/// Whether `GlobalMemoryStatus` is defined for `config`.
pub fn memory_status_is_defined(config: &LayerConfig) -> (defined: bool)
    ensures
        defined == status_defined(*config),
{
    let mb = config.reported_memory_mb as usize;
    let total: usize = if mb > usize::MAX / 1048576 {
        usize::MAX
    } else {
        mb * 1048576
    };
    total <= usize::MAX / 2 && total / 8 <= 0x7FFE_FFFF
}

/// Every size of the automatic mapping can be reported by
/// `GlobalMemoryStatusEx`: the guest always gets a well-defined status.
pub proof fn lemma_mapping_status_ex_defined(host_mb: u64)
    ensures
        status_ex_defined(
            LayerConfig {
                host_memory_mb: host_mb,
                reported_memory_mb: crate::config::spec_reported_xp_memory_mb(host_mb),
            },
        ),
{
}

/// What a guest is told never contradicts itself: the free memory never
/// exceeds the total and the load is a percentage.
pub proof fn lemma_status_ex_consistent(config: LayerConfig)
    requires
        status_ex_defined(config),
    ensures
        ex_total_bytes(config) - used_bytes(ex_total_bytes(config)) <= ex_total_bytes(config),
        0 <= load_percent(ex_total_bytes(config)) <= 100,
        ex_total_bytes(config) == config.reported_memory_mb * 1048576,
{
    lemma_load_at_most_100(ex_total_bytes(config));
}

/// The same holds of `GlobalMemoryStatus`.
pub proof fn lemma_status_consistent(config: LayerConfig)
    requires
        status_defined(config),
    ensures
        total_bytes(config) - used_bytes(total_bytes(config)) <= total_bytes(config),
        0 <= load_percent(total_bytes(config)) <= 100,
{
    lemma_load_at_most_100(total_bytes(config));
}

} // verus!
