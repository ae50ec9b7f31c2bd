use xp_layer::api::kernel32::memory::{
    global_memory_status, global_memory_status_ex, memory_status_ex_is_defined,
    memory_status_is_defined,
};
use xp_layer::config::LayerConfig;

#[test]
fn status_respects_reported_limit() {
    let config = LayerConfig {
        host_memory_mb: 16 * 1024,
        reported_memory_mb: 2 * 1024,
    };
    let status = global_memory_status_ex(&config);
    assert_eq!(status.total_phys, 2 * 1024 * 1024 * 1024);
    assert!(status.avail_phys <= status.total_phys);
    assert!(status.memory_load <= 100);
}

#[test]
fn status_ex_exact_figures() {
    let config = LayerConfig { host_memory_mb: 4096, reported_memory_mb: 768 };
    let status = global_memory_status_ex(&config);
    let total: u64 = 768 * 1024 * 1024;
    assert_eq!(status.length, 64);
    assert_eq!(status.total_phys, total);
    assert_eq!(status.avail_phys, total - total / 8);
    assert_eq!(status.memory_load, 12);
    assert_eq!(status.total_page_file, 2 * total);
    assert_eq!(status.avail_page_file, 2 * total - total / 8);
    assert_eq!(status.total_virtual, 0x7FFE_FFFF);
    assert_eq!(status.avail_virtual, 0x7FFE_FFFF - total / 8);
    assert_eq!(status.avail_extended_virtual, 0);
}

#[test]
fn status_ex_zero_memory() {
    let config = LayerConfig { host_memory_mb: 0, reported_memory_mb: 0 };
    let status = global_memory_status_ex(&config);
    assert_eq!(status.total_phys, 0);
    assert_eq!(status.avail_phys, 0);
    assert_eq!(status.memory_load, 0);
    assert_eq!(status.avail_virtual, 0x7FFE_FFFF);
}

#[test]
fn status_plain_matches_ex() {
    let config = LayerConfig { host_memory_mb: 2048, reported_memory_mb: 512 };
    let plain = global_memory_status(&config);
    let ex = global_memory_status_ex(&config);
    assert_eq!(plain.total_phys as u64, ex.total_phys);
    assert_eq!(plain.avail_phys as u64, ex.avail_phys);
    assert_eq!(plain.memory_load, ex.memory_load);
    assert_eq!(plain.total_page_file as u64, ex.total_page_file);
    assert_eq!(plain.avail_page_file as u64, ex.avail_page_file);
    assert_eq!(plain.total_virtual as u64, ex.total_virtual);
    assert_eq!(plain.avail_virtual as u64, ex.avail_virtual);
    assert_eq!(plain.length as usize, std::mem::size_of::<xp_layer::api::kernel32::memory::MemoryStatus>());
    if std::mem::size_of::<usize>() == 8 {
        assert_eq!(plain.length, 56);
    }
}

#[test]
fn status_defined_bounds() {
    let ok = LayerConfig { host_memory_mb: 0, reported_memory_mb: 16383 };
    let too_big = LayerConfig { host_memory_mb: 0, reported_memory_mb: 16384 };
    assert!(memory_status_ex_is_defined(&ok));
    assert!(!memory_status_ex_is_defined(&too_big));
    assert!(!memory_status_ex_is_defined(&LayerConfig { host_memory_mb: 0, reported_memory_mb: u64::MAX }));
    assert!(memory_status_is_defined(&LayerConfig { host_memory_mb: 0, reported_memory_mb: 1024 }));
    for mb in [128u64, 512, 768, 1024, 2048] {
        assert!(memory_status_ex_is_defined(&LayerConfig { host_memory_mb: 0, reported_memory_mb: mb }));
    }
}
