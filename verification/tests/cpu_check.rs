use xp_layer::cpu::check::{display_family, host_cpu_info};
use xp_layer::cpu::{check_host_cpu, classify, HostCpuStatus};

#[test]
fn amd_rejected() {
    assert_eq!(
        classify("AuthenticAMD", 25, 1),
        HostCpuStatus::UnsupportedAmd
    );
}

#[test]
fn old_intel_rejected() {
    assert_eq!(classify("GenuineIntel", 6, 8), HostCpuStatus::UnsupportedOldIntel);
    assert_eq!(classify("GenuineIntel", 5, 4), HostCpuStatus::UnsupportedOldIntel);
}

#[test]
fn core2_era_accepted() {
    assert_eq!(classify("GenuineIntel", 6, 15), HostCpuStatus::SupportedIntel);
    assert_eq!(classify("GenuineIntel", 6, 60), HostCpuStatus::SupportedIntel);
}

#[test]
fn other_vendors_rejected() {
    assert_eq!(classify("CentaurHauls", 6, 15), HostCpuStatus::UnsupportedVendor);
    assert_eq!(classify("HygonGenuine", 24, 0), HostCpuStatus::UnsupportedVendor);
    assert_eq!(classify("unknown", 0, 0), HostCpuStatus::UnsupportedVendor);
    assert_eq!(classify("", 6, 15), HostCpuStatus::UnsupportedVendor);
}

#[test]
fn only_genuine_intel_accepted() {
    assert_eq!(classify("GENUINEINTEL", 15, 0), HostCpuStatus::UnsupportedVendor);
    assert_eq!(classify("genuineintel", 6, 15), HostCpuStatus::UnsupportedVendor);
    assert_eq!(classify("my Intel box", 7, 0), HostCpuStatus::UnsupportedVendor);
    assert_eq!(classify("intel", 6, 15), HostCpuStatus::UnsupportedVendor);
    assert_eq!(classify("AMDisbetter!", 6, 15), HostCpuStatus::UnsupportedAmd);
    assert_eq!(classify("IntelAMD", 6, 15), HostCpuStatus::UnsupportedAmd);
}

#[test]
fn newer_families_accepted() {
    assert_eq!(classify("GenuineIntel", 7, 0), HostCpuStatus::SupportedIntel);
    assert_eq!(classify("GenuineIntel", 15, 6), HostCpuStatus::SupportedIntel);
    assert_eq!(classify("GenuineIntel", 6, 14), HostCpuStatus::UnsupportedOldIntel);
    assert_eq!(classify("GenuineIntel", 0, 200), HostCpuStatus::UnsupportedOldIntel);
}

#[test]
fn status_messages_and_ok() {
    assert!(HostCpuStatus::SupportedIntel.is_ok());
    assert!(!HostCpuStatus::UnsupportedAmd.is_ok());
    assert!(!HostCpuStatus::UnsupportedVendor.is_ok());
    assert!(!HostCpuStatus::UnsupportedOldIntel.is_ok());
    assert!(!HostCpuStatus::Unknown.is_ok());
    assert_eq!(HostCpuStatus::SupportedIntel.message(), "Intel CPU accepted (2006–present policy).");
    assert_eq!(HostCpuStatus::UnsupportedAmd.message(), "AMD CPUs are not supported yet. Intel only for now.");
    assert_eq!(HostCpuStatus::UnsupportedVendor.message(), "Only GenuineIntel hosts are supported in this build.");
    assert_eq!(HostCpuStatus::UnsupportedOldIntel.message(), "This Intel CPU is older than the 2006+ policy allows.");
    assert_eq!(HostCpuStatus::Unknown.message(), "Could not identify the host CPU.");
}

#[test]
fn host_check_applies_policy() {
    let info = check_host_cpu();
    assert!(
        info.status == HostCpuStatus::Unknown
            || info.status == classify(&info.vendor, info.family, info.model)
    );
    assert!(info.family <= 255 && info.model <= 255 && info.stepping <= 255);
    assert_eq!(info.brand, info.brand.trim());
}

#[test]
fn display_family_rule() {
    assert_eq!(display_family("GenuineIntel", 6, 0), 6);
    assert_eq!(display_family("GenuineIntel", 6, 3), 6);
    assert_eq!(display_family("GenuineIntel", 0xF, 1), 16);
    assert_eq!(display_family("AuthenticAMD", 0xF, 8), 23);
    assert_eq!(display_family("HygonGenuine", 0xF, 9), 24);
    assert_eq!(display_family("AuthenticAMD", 6, 8), 6);
    assert_eq!(display_family("CentaurHauls", 6, 1), 7);
    assert_eq!(display_family("GenuineIntel", 0xF, 0xFF), 270);
}

#[test]
fn cpu_info_from_cpuid_values() {
    let info = host_cpu_info(
        Some("GenuineIntel".to_string()),
        Some("  Intel(R) Core(TM) i7 \u{3000}".to_string()),
        Some((6, 0, 60, 3)),
    );
    assert_eq!(info.vendor, "GenuineIntel");
    assert_eq!(info.brand, "Intel(R) Core(TM) i7");
    assert_eq!((info.family, info.model, info.stepping), (6, 60, 3));
    assert_eq!(info.status, HostCpuStatus::SupportedIntel);

    let amd = host_cpu_info(Some("AuthenticAMD".to_string()), None, Some((0xF, 8, 1, 2)));
    assert_eq!(amd.brand, "(unknown brand)");
    assert_eq!(amd.family, 23);
    assert_eq!(amd.status, HostCpuStatus::UnsupportedAmd);
}

#[test]
fn missing_leaves_give_unknown() {
    let no_vendor = host_cpu_info(None, Some("x".to_string()), Some((6, 0, 15, 1)));
    assert_eq!(no_vendor.vendor, "unknown");
    assert_eq!(no_vendor.status, HostCpuStatus::Unknown);
    assert!(!no_vendor.status.is_ok());
    let no_features = host_cpu_info(Some("GenuineIntel".to_string()), None, None);
    assert_eq!((no_features.family, no_features.model, no_features.stepping), (0, 0, 0));
    assert_eq!(no_features.status, HostCpuStatus::Unknown);
}
