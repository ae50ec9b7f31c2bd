use xp_layer::config::{detect_host_memory_mb, reported_xp_memory_mb, LayerConfig};

#[test]
fn memory_mapping() {
    assert_eq!(reported_xp_memory_mb(16 * 1024), 2 * 1024);
    assert_eq!(reported_xp_memory_mb(8 * 1024), 1024);
    assert_eq!(reported_xp_memory_mb(4 * 1024), 768);
    assert_eq!(reported_xp_memory_mb(2 * 1024), 512);
    assert_eq!(reported_xp_memory_mb(1024), 128);
    assert_eq!(reported_xp_memory_mb(512), 128);
}

#[test]
fn memory_mapping_boundaries() {
    assert_eq!(reported_xp_memory_mb(16 * 1024 - 1), 1024);
    assert_eq!(reported_xp_memory_mb(8 * 1024 - 1), 768);
    assert_eq!(reported_xp_memory_mb(4 * 1024 - 1), 512);
    assert_eq!(reported_xp_memory_mb(2 * 1024 - 1), 128);
    assert_eq!(reported_xp_memory_mb(0), 128);
    assert_eq!(reported_xp_memory_mb(u64::MAX), 2048);
}

#[test]
fn memory_mapping_monotonic_and_reducing() {
    let samples = [0u64, 127, 128, 500, 2047, 2048, 3000, 4096, 8000, 8192, 16383, 16384, 65536];
    for w in samples.windows(2) {
        assert!(reported_xp_memory_mb(w[0]) <= reported_xp_memory_mb(w[1]));
    }
    for h in samples {
        if h >= 128 {
            assert!(reported_xp_memory_mb(h) <= h);
        }
    }
}

#[test]
fn detect_uses_mapping() {
    let config = LayerConfig::detect();
    assert_eq!(config.reported_memory_mb, reported_xp_memory_mb(config.host_memory_mb));
    assert!(detect_host_memory_mb() <= u64::MAX / (1024 * 1024));
}

#[test]
fn config_from_total_bytes() {
    let c = LayerConfig::from_total_bytes(16 * 1024 * 1024 * 1024);
    assert_eq!(c.host_memory_mb, 16 * 1024);
    assert_eq!(c.reported_memory_mb, 2048);
    let c = LayerConfig::from_total_bytes(8 * 1024 * 1024 * 1024 - 1);
    assert_eq!(c.host_memory_mb, 8 * 1024 - 1);
    assert_eq!(c.reported_memory_mb, 768);
    assert_eq!(xp_layer::config::memory_mb_from_bytes(3 * 1024 * 1024 + 5), 3);
}
