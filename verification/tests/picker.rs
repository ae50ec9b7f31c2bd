use xp_layer::config::LayerConfig;
use xp_layer::pe::LoadedImage;
use xp_layer::picker::{AppPicker, DirScan, Profile, ScanEntry};

fn picker_with(config: LayerConfig) -> AppPicker {
    AppPicker::from_config(config)
}

fn entry(path: &str, ext: Option<&str>) -> ScanEntry {
    ScanEntry { path: path.to_string(), extension: ext.map(|e| e.to_string()) }
}

#[test]
fn profiles() {
    assert_eq!(Profile::WindowsXp.short_label(), "Windows XP");
    assert_eq!(Profile::Windows2000.short_label(), "Windows 2000");
    assert_eq!(Profile::WindowsVista.short_label(), "Windows Vista");
    assert!(Profile::WindowsXp.is_available());
    assert!(!Profile::Windows2000.is_available());
    assert!(!Profile::WindowsVista.is_available());
}

#[test]
fn new_picker_defaults() {
    let p = AppPicker::new();
    assert_eq!(p.apps_dir, "apps");
    assert!(p.apps.is_empty());
    assert_eq!(p.selected, None);
    assert!(p.status.starts_with("Welcome to xp-layer."));
    assert_eq!(p.profile, Profile::WindowsXp);
    assert_eq!(p.memory_override_mb, 512);
    assert_eq!(p.config.reported_memory_mb, xp_layer::config::reported_xp_memory_mb(p.config.host_memory_mb));
}

#[test]
fn effective_memory() {
    let mut p = picker_with(LayerConfig { host_memory_mb: 8192, reported_memory_mb: 1024 });
    assert_eq!(p.effective_reported_mb(), 1024);
    p.memory_override_enabled = true;
    p.memory_override_mb = 300;
    assert_eq!(p.effective_reported_mb(), 300);
    p.memory_override_mb = 10;
    assert_eq!(p.effective_reported_mb(), 64);
    let cfg = p.effective_config();
    assert_eq!(cfg.host_memory_mb, 8192);
    assert_eq!(cfg.reported_memory_mb, 64);
}

#[test]
fn refresh_lists_sorted_executables() {
    let mut p = AppPicker::new();
    p.apps_dir_input = "  games  ".to_string();
    p.selected = Some(0);
    let dir = p.begin_refresh();
    assert_eq!(dir, "games");
    assert_eq!(p.selected, None);
    p.finish_refresh(DirScan::Listed(vec![
        entry("games/zork.exe", Some("exe")),
        entry("games/readme.txt", Some("txt")),
        entry("games/Alpha.exe", Some("exe")),
        entry("games/LOUD.EXE", Some("EXE")),
        entry("games/noext", None),
        entry("games/beta.exe", Some("exe")),
    ]));
    assert_eq!(p.apps, vec!["games/Alpha.exe", "games/beta.exe", "games/zork.exe"]);
    assert_eq!(p.status, "Found 3 application(s) in games.\nSelect one and click Run.");
}

#[test]
fn refresh_created_and_failed() {
    let mut p = AppPicker::new();
    p.begin_refresh();
    p.finish_refresh(DirScan::Created);
    assert_eq!(p.status, "Created apps directory.\nPlace Windows XP .exe files here, then click Refresh.");
    p.finish_refresh(DirScan::Failed("permission denied".to_string()));
    assert_eq!(p.status, "Failed to read apps directory:\npermission denied");
    assert!(p.apps.is_empty());
}

#[test]
fn run_needs_xp_profile_and_selection() {
    let mut p = AppPicker::new();
    p.begin_refresh();
    p.finish_refresh(DirScan::Listed(vec![entry("apps/a.exe", Some("exe"))]));
    p.profile = Profile::WindowsVista;
    assert_eq!(p.run_selected(), None);
    assert_eq!(
        p.status,
        "WARNING\n\nThe selected profile (Windows Vista) is not implemented yet.\nOnly Windows XP is available.\n\nSwitch back to Windows XP in Options."
    );
    p.profile = Profile::WindowsXp;
    assert_eq!(p.run_selected(), None);
    assert_eq!(p.status, "No application selected.");
    p.selected = Some(0);
    assert_eq!(p.run_selected(), Some("apps/a.exe".to_string()));
    p.finish_run_failed("apps/a.exe", "No such file or directory (os error 2)");
    assert_eq!(p.status, "Failed to load PE\n\napps/a.exe\n\nNo such file or directory (os error 2)");
}

fn put32(b: &mut [u8], off: usize, v: u32) {
    b[off..off + 4].copy_from_slice(&v.to_le_bytes());
}

#[test]
fn run_report_text() {
    let mut b = vec![0u8; 0x200];
    b[0..2].copy_from_slice(&0x5A4Du16.to_le_bytes());
    put32(&mut b, 60, 64);
    b[64..68].copy_from_slice(b"PE\0\0");
    b[68..70].copy_from_slice(&0x014Cu16.to_le_bytes());
    b[88..90].copy_from_slice(&0x10Bu16.to_le_bytes());
    put32(&mut b, 88 + 56, 0x1000);
    put32(&mut b, 88 + 60, 0x200);
    let img = LoadedImage::load(&b).unwrap();
    let mut p = picker_with(LayerConfig { host_memory_mb: 4096, reported_memory_mb: 768 });
    p.debug_logging = true;
    p.finish_run_loaded("apps/x.exe", &img);
    let expected = format!(
        "Loaded: apps/x.exe\n\n{}Imports: none\n\nProfile: Windows XP\n\nGlobalMemoryStatusEx:\n  TotalPhys : 768 MB\n  AvailPhys : 672 MB\n  MemoryLoad: 12%\n\n[Debug] Host: 4096 MB | Override: false\n\nPE image mapped. CPU execution and full API translation are not yet implemented.",
        img.summary()
    );
    assert_eq!(p.status, expected);
}

#[test]
fn unavailable_profile_ignores_selection() {
    let mut p = picker_with(LayerConfig { host_memory_mb: 1024, reported_memory_mb: 128 });
    p.profile = Profile::Windows2000;
    p.selected = Some(5);
    assert_eq!(p.run_selected(), None);
    assert!(p.status.starts_with("WARNING\n\nThe selected profile (Windows 2000)"));
    assert_eq!(p.selected, Some(5));
}

#[test]
fn picker_from_config() {
    let cfg = LayerConfig { host_memory_mb: 4096, reported_memory_mb: 768 };
    let p = AppPicker::from_config(cfg);
    assert_eq!(p.config, cfg);
    assert_eq!(p.apps_dir_input, "apps");
    assert_eq!(p.memory_override_mb, 512);
    assert!(!p.memory_override_enabled && !p.show_options && !p.fullscreen && !p.debug_logging);
}
