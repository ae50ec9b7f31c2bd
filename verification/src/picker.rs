//! The decisions of the graphical application picker: which profile can
//! run, how much memory the guest is told about, what the status panel says.
//! Drawing the window, reading directories and files are the caller's part.

use crate::api::kernel32::memory::{
    ex_total_bytes, global_memory_status_ex, load_percent, status_ex_defined, used_bytes,
};
use crate::config::{spec_reported_xp_memory_mb, LayerConfig};
use crate::pe::imports::{import_directory_imports, imports_listing};
use crate::pe::loader::summary_text;
use crate::pe::LoadedImage;
use crate::text::{
    decimal_digits, decimal_string, lemma_text_le_first_difference, lemma_text_le_longer, lemma_text_le_total,
    lemma_text_le_transitive, same_text, text_le,
    text_le_exec, trim_text, trim_whitespace,
};
use vstd::prelude::*;

verus! {

/// The Windows version that the layer imitates.
#[derive(Debug, Clone, Copy, PartialEq, Eq, Structural)]
pub enum Profile {
    WindowsXp,
    Windows2000,
    WindowsVista,
}

/// The label shown for each profile.
pub open spec fn profile_label(p: Profile) -> Seq<char> {
    match p {
        Profile::WindowsXp => "Windows XP"@,
        Profile::Windows2000 => "Windows 2000"@,
        Profile::WindowsVista => "Windows Vista"@,
    }
}

impl Profile {
    /// The label shown for this profile.
    pub fn short_label(self) -> (label: &'static str)
        ensures
            label@ == profile_label(self),
    {
        match self {
            Profile::WindowsXp => "Windows XP",
            Profile::Windows2000 => "Windows 2000",
            Profile::WindowsVista => "Windows Vista",
        }
    }

    /// Only the Windows XP profile is implemented.
    pub fn is_available(self) -> (available: bool)
        ensures
            available <==> self == Profile::WindowsXp,
    {
        match self {
            Profile::WindowsXp => true,
            _ => false,
        }
    }
}

/// The smallest memory size that an override can report, in MiB.
pub const MIN_OVERRIDE_MB: u64 = 64;

/// The text of the status panel when the picker opens.
pub open spec fn welcome_text() -> Seq<char> {
    "Welcome to xp-layer.\n\nPlace 32-bit Windows XP .exe files in the apps/ folder,\nthen click Refresh and select one to load."@
}

/// The state of the application picker.
pub struct AppPicker {
    /// The apps directory in use, as displayed.
    pub apps_dir: String,
    /// The apps directory as typed in the options panel.
    pub apps_dir_input: String,
    /// The executables found in the apps directory, sorted.
    pub apps: Vec<String>,
    /// The index in `apps` of the selected application.
    pub selected: Option<usize>,
    /// The text of the status panel.
    pub status: String,
    pub config: LayerConfig,
    pub show_options: bool,
    pub profile: Profile,
    pub memory_override_enabled: bool,
    pub memory_override_mb: u64,
    pub fullscreen: bool,
    pub debug_logging: bool,
}

/// The memory size (MiB) that the guest is told about: the override, never
/// below 64 MiB, when it is enabled, and the automatic mapping otherwise.
pub open spec fn effective_mb(p: AppPicker) -> u64 {
    if p.memory_override_enabled {
        if p.memory_override_mb > MIN_OVERRIDE_MB {
            p.memory_override_mb
        } else {
            MIN_OVERRIDE_MB
        }
    } else {
        p.config.reported_memory_mb
    }
}

/// The override never reports less than 64 MiB nor less than asked; without
/// it the guest sees the automatic mapping, whose memory status is always
/// defined.
pub proof fn lemma_effective_memory(p: AppPicker)
    ensures
        p.memory_override_enabled ==> effective_mb(p) >= MIN_OVERRIDE_MB && effective_mb(p)
            >= p.memory_override_mb,
        !p.memory_override_enabled ==> effective_mb(p) == p.config.reported_memory_mb,
        !p.memory_override_enabled && p.config.reported_memory_mb == spec_reported_xp_memory_mb(
            p.config.host_memory_mb,
        ) ==> status_ex_defined(effective_layer_config(p)),
{
}

/// The configuration that the emulated APIs see.
pub open spec fn effective_layer_config(p: AppPicker) -> LayerConfig {
    LayerConfig { host_memory_mb: p.config.host_memory_mb, reported_memory_mb: effective_mb(p) }
}

/// The text of the status panel when the selected profile is not implemented.
pub open spec fn profile_warning_text(p: Profile) -> Seq<char> {
    "WARNING\n\nThe selected profile ("@ + profile_label(p)
        + ") is not implemented yet.\nOnly Windows XP is available.\n\nSwitch back to Windows XP in Options."@
}

/// The text of the status panel when a file could not be loaded.
pub open spec fn load_failure_text(path: Seq<char>, error: Seq<char>) -> Seq<char> {
    "Failed to load PE\n\n"@ + path + "\n\n"@ + error
}

/// `b` as Rust displays a `bool`.
pub open spec fn bool_text(b: bool) -> Seq<char> {
    if b {
        "true"@
    } else {
        "false"@
    }
}

/// The memory figures that the guest sees, in MiB and percent.
pub open spec fn memory_report_text(config: LayerConfig) -> Seq<char> {
    let total = ex_total_bytes(config);
    "\n\nGlobalMemoryStatusEx:\n  TotalPhys : "@ + decimal_digits((total / 1048576) as nat)
        + " MB\n  AvailPhys : "@ + decimal_digits(((total - used_bytes(total)) / 1048576) as nat)
        + " MB\n  MemoryLoad: "@ + decimal_digits(load_percent(total) as nat) + "%\n"@
}

/// The debug line, present when debug logging is on.
pub open spec fn debug_text(p: AppPicker) -> Seq<char> {
    if p.debug_logging {
        "\n[Debug] Host: "@ + decimal_digits(p.config.host_memory_mb as nat) + " MB | Override: "@
            + bool_text(p.memory_override_enabled) + "\n"@
    } else {
        Seq::empty()
    }
}

/// The text of the status panel after the file at `path` was loaded as
/// `img`: its summary, its imports, the profile and the memory figures.
pub open spec fn loaded_text(p: AppPicker, path: Seq<char>, img: LoadedImage) -> Seq<char> {
    "Loaded: "@ + path + "\n\n"@ + summary_text(img) + imports_listing(
        import_directory_imports(img.memory@, img.info.optional.import_directory),
    ) + "\nProfile: "@ + profile_label(p.profile)
        + memory_report_text(effective_layer_config(p)) + debug_text(p)
        + "\nPE image mapped. CPU execution and full API translation are not yet implemented."@
}

/// Everything but the status text is the same in `a` and `b`.
pub open spec fn same_but_status(a: AppPicker, b: AppPicker) -> bool {
    &&& a.apps_dir == b.apps_dir
    &&& a.apps_dir_input == b.apps_dir_input
    &&& a.apps == b.apps
    &&& a.selected == b.selected
    &&& a.config == b.config
    &&& a.show_options == b.show_options
    &&& a.profile == b.profile
    &&& a.memory_override_enabled == b.memory_override_enabled
    &&& a.memory_override_mb == b.memory_override_mb
    &&& a.fullscreen == b.fullscreen
    &&& a.debug_logging == b.debug_logging
}

/// The memory figures that the guest sees, as the status panel shows them.
fn memory_report(config: &LayerConfig) -> (s: String)
    requires
        status_ex_defined(*config),
    ensures
        s@ == memory_report_text(*config),
{
    let mem = global_memory_status_ex(config);
    let mut s = String::from_str("\n\nGlobalMemoryStatusEx:\n  TotalPhys : ");
    s.append(decimal_string(mem.total_phys / 1048576).as_str());
    s.append(" MB\n  AvailPhys : ");
    s.append(decimal_string(mem.avail_phys / 1048576).as_str());
    s.append(" MB\n  MemoryLoad: ");
    s.append(decimal_string(mem.memory_load as u64).as_str());
    s.append("%\n");
    s
}

/// One entry of the apps directory: its path as displayed and its file
/// name extension, if it has one that is valid Unicode.
pub struct ScanEntry {
    pub path: String,
    pub extension: Option<String>,
}

/// What scanning the apps directory gave.
pub enum DirScan {
    /// The directory did not exist and has been created.
    Created,
    /// The directory's entries.
    Listed(Vec<ScanEntry>),
    /// The directory could not be read; the error's text.
    Failed(String),
}

/// The entry is a Windows executable: its extension is exactly "exe".
pub open spec fn is_exe(e: ScanEntry) -> bool {
    e.extension matches Some(x) && x@ == "exe"@
}

/// The paths of the executables among `entries`, in order.
pub open spec fn exe_paths(entries: Seq<ScanEntry>) -> Seq<Seq<char>>
    decreases entries.len(),
{
    if entries.len() == 0 {
        Seq::empty()
    } else {
        exe_paths(entries.drop_last()) + if is_exe(entries.last()) {
            seq![entries.last().path@]
        } else {
            Seq::empty()
        }
    }
}

/// The texts of `v`.
pub open spec fn texts(v: Seq<String>) -> Seq<Seq<char>> {
    v.map_values(|s: String| s@)
}

/// `s` is in lexicographic order.
pub open spec fn sorted_texts(s: Seq<Seq<char>>) -> bool {
    forall|i: int, j: int| 0 <= i < j < s.len() ==> text_le(#[trigger] s[i], #[trigger] s[j])
}

/// In a sorted list, a later entry never has a smaller character where it
/// first differs from an earlier one, and it is never a strict beginning of
/// an earlier entry: the list is in ascending lexicographic (byte) order.
pub proof fn lemma_sorted_texts_ascending(s: Seq<Seq<char>>, i: int, j: int)
    requires
        sorted_texts(s),
        0 <= i < j < s.len(),
    ensures
        forall|d: int|
            0 <= d < s[i].len() && d < s[j].len() && (forall|e: int|
                0 <= e < d ==> s[i][e] == s[j][e]) ==> (s[i][d] as int) <= (s[j][d] as int),
        (s[j].len() < s[i].len() && forall|e: int| 0 <= e < s[j].len() ==> s[i][e] == s[j][e])
            ==> false,
{
    assert(text_le(s[i], s[j]));
    assert forall|d: int|
        0 <= d < s[i].len() && d < s[j].len() && (forall|e: int|
            0 <= e < d ==> s[i][e] == s[j][e]) implies (s[i][d] as int) <= (s[j][d] as int) by {
        if (s[j][d] as int) < (s[i][d] as int) {
            lemma_text_le_first_difference(s[j], s[i], d);
        }
    }
    if s[j].len() < s[i].len() && forall|e: int| 0 <= e < s[j].len() ==> s[i][e] == s[j][e] {
        lemma_text_le_longer(s[j], s[i]);
    }
}

/// The status text after the apps directory `dir` was created.
pub open spec fn created_text(dir: Seq<char>) -> Seq<char> {
    "Created "@ + dir + " directory.\nPlace Windows XP .exe files here, then click Refresh."@
}

/// The status text after `n` applications were found in `dir`.
pub open spec fn found_text(n: nat, dir: Seq<char>) -> Seq<char> {
    "Found "@ + decimal_digits(n) + " application(s) in "@ + dir + ".\nSelect one and click Run."@
}

/// The status text when the apps directory could not be read.
pub open spec fn scan_failed_text(error: Seq<char>) -> Seq<char> {
    "Failed to read apps directory:\n"@ + error
}

/// Inserts `path` into the sorted list `apps`, after every entry that does
/// not come after it.
fn insert_sorted(apps: &mut Vec<String>, path: String)
    requires
        sorted_texts(texts(old(apps)@)),
    ensures
        sorted_texts(texts(final(apps)@)),
        texts(final(apps)@).to_multiset() == texts(old(apps)@).to_multiset().insert(path@),
{
    broadcast use vstd::seq_lib::group_to_multiset_ensures;

    let ghost before = texts(apps@);
    let mut pos: usize = 0;
    while pos < apps.len() && text_le_exec(apps[pos].as_str(), path.as_str())
        invariant
            pos <= apps@.len(),
            before == texts(apps@),
            forall|i: int| 0 <= i < pos ==> text_le(#[trigger] before[i], path@),
        decreases apps@.len() - pos,
    {
        pos = pos + 1;
    }
    let ghost x = path@;
    apps.insert(pos, path);
    let ghost after = texts(apps@);
    assert(after =~= before.insert(pos as int, x));
    assert forall|i: int, j: int| 0 <= i < j < after.len() implies text_le(
        #[trigger] after[i],
        #[trigger] after[j],
    ) by {
        if j < pos {
        } else if j == pos {
        } else if i < pos {
            assert(after[j] == before[j - 1]);
        } else if i == pos {
            assert(after[j] == before[j - 1]);
            assert(!text_le(before[pos as int], x));
            lemma_text_le_total(before[pos as int], x);
            if pos < j - 1 {
                lemma_text_le_transitive(x, before[pos as int], before[j - 1]);
            }
        } else {
            assert(after[i] == before[i - 1]);
            assert(after[j] == before[j - 1]);
        }
    }
}

impl AppPicker {
    /// Starts a rescan of the apps directory: the list and the selection are
    /// cleared and the directory typed in the options becomes the one in
    /// use. Returns that directory; the caller scans it and hands the
    /// outcome to `finish_refresh`.
    pub fn begin_refresh(&mut self) -> (dir: String)
        ensures
            final(self).apps@.len() == 0,
            final(self).selected.is_none(),
            final(self).apps_dir@ == trim_whitespace(old(self).apps_dir_input@),
            dir@ == final(self).apps_dir@,
            final(self).apps_dir_input == old(self).apps_dir_input,
            final(self).status == old(self).status,
            final(self).config == old(self).config,
            final(self).profile == old(self).profile,
            final(self).memory_override_enabled == old(self).memory_override_enabled,
            final(self).memory_override_mb == old(self).memory_override_mb,
            final(self).debug_logging == old(self).debug_logging,
            final(self).show_options == old(self).show_options,
            final(self).fullscreen == old(self).fullscreen,
    {
        self.apps = Vec::new();
        self.selected = None;
        self.apps_dir = trim_text(self.apps_dir_input.as_str());
        self.apps_dir.clone()
    }

    /// Ends a rescan: the executables found are listed in path order and the
    /// status text says what happened.
    pub fn finish_refresh(&mut self, scan: DirScan)
        ensures
            final(self).selected.is_none(),
            final(self).apps_dir == old(self).apps_dir,
            final(self).apps_dir_input == old(self).apps_dir_input,
            final(self).config == old(self).config,
            final(self).profile == old(self).profile,
            final(self).memory_override_enabled == old(self).memory_override_enabled,
            final(self).memory_override_mb == old(self).memory_override_mb,
            final(self).debug_logging == old(self).debug_logging,
            final(self).show_options == old(self).show_options,
            final(self).fullscreen == old(self).fullscreen,
            match scan {
                DirScan::Created => final(self).apps@.len() == 0 && final(self).status@
                    == created_text(old(self).apps_dir@),
                DirScan::Listed(entries) => {
                    &&& sorted_texts(texts(final(self).apps@))
                    &&& texts(final(self).apps@).to_multiset() == exe_paths(
                        entries@,
                    ).to_multiset()
                    &&& final(self).status@ == found_text(
                        final(self).apps@.len(),
                        old(self).apps_dir@,
                    )
                },
                DirScan::Failed(e) => final(self).apps@.len() == 0 && final(self).status@
                    == scan_failed_text(e@),
            },
    {
        broadcast use vstd::seq_lib::group_to_multiset_ensures;

        self.selected = None;
        match scan {
            DirScan::Created => {
                self.apps = Vec::new();
                let mut s = String::from_str("Created ");
                s.append(self.apps_dir.as_str());
                s.append(" directory.\nPlace Windows XP .exe files here, then click Refresh.");
                self.status = s;
            },
            DirScan::Listed(entries) => {
                let mut apps: Vec<String> = Vec::new();
                let mut k: usize = 0;
                while k < entries.len()
                    invariant
                        k <= entries@.len(),
                        sorted_texts(texts(apps@)),
                        texts(apps@).to_multiset() == exe_paths(
                            entries@.subrange(0, k as int),
                        ).to_multiset(),
                    decreases entries@.len() - k,
                {
                    let e = &entries[k];
                    let exe = match &e.extension {
                        Some(x) => same_text(x.as_str(), "exe"),
                        None => false,
                    };
                    assert(entries@.subrange(0, k + 1).drop_last() =~= entries@.subrange(
                        0,
                        k as int,
                    ));
                    assert(entries@.subrange(0, k + 1).last() == entries@[k as int]);
                    if exe {
                        let ghost prev = exe_paths(entries@.subrange(0, k as int));
                        insert_sorted(&mut apps, e.path.clone());
                        assert(exe_paths(entries@.subrange(0, k + 1)) == prev + seq![e.path@]);
                        assert(prev + seq![e.path@] =~= prev.push(e.path@));
                        proof {
                            vstd::seq_lib::to_multiset_build(prev, e.path@);
                        }
                    } else {
                        assert(exe_paths(entries@.subrange(0, k + 1)) =~= exe_paths(
                            entries@.subrange(0, k as int),
                        ));
                    }
                    k = k + 1;
                }
                assert(entries@.subrange(0, entries@.len() as int) =~= entries@);
                let mut s = String::from_str("Found ");
                s.append(decimal_string(apps.len() as u64).as_str());
                s.append(" application(s) in ");
                s.append(self.apps_dir.as_str());
                s.append(".\nSelect one and click Run.");
                self.apps = apps;
                self.status = s;
            },
            DirScan::Failed(e) => {
                self.apps = Vec::new();
                let mut s = String::from_str("Failed to read apps directory:\n");
                s.append(e.as_str());
                self.status = s;
            },
        }
    }

    /// The debug line of the status panel, empty unless debug logging is on.
    fn debug_line(&self) -> (s: String)
        ensures
            s@ == debug_text(*self),
    {
        if self.debug_logging {
            let mut s = String::from_str("\n[Debug] Host: ");
            s.append(decimal_string(self.config.host_memory_mb).as_str());
            s.append(" MB | Override: ");
            if self.memory_override_enabled {
                s.append("true");
            } else {
                s.append("false");
            }
            s.append("\n");
            s
        } else {
            String::new()
        }
    }

    /// The selection, if any, points into the list of applications.
    pub open spec fn selection_valid(&self) -> bool {
        match self.selected {
            Some(i) => i < self.apps@.len(),
            None => true,
        }
    }

    /// The picker as it opens: the configuration `config`, the Windows XP
    /// profile, no applications listed yet and the welcome text.
    pub fn from_config(config: LayerConfig) -> (p: Self)
        ensures
            p.apps_dir@ == "apps"@,
            p.apps_dir_input@ == "apps"@,
            p.apps@.len() == 0,
            p.selected.is_none(),
            p.status@ == welcome_text(),
            p.config == config,
            !p.show_options,
            p.profile == Profile::WindowsXp,
            !p.memory_override_enabled,
            p.memory_override_mb == 512,
            !p.fullscreen,
            !p.debug_logging,
    {
        AppPicker {
            apps_dir: String::from_str("apps"),
            apps_dir_input: String::from_str("apps"),
            apps: Vec::new(),
            selected: None,
            status: String::from_str(
                "Welcome to xp-layer.\n\nPlace 32-bit Windows XP .exe files in the apps/ folder,\nthen click Refresh and select one to load.",
            ),
            config,
            show_options: false,
            profile: Profile::WindowsXp,
            memory_override_enabled: false,
            memory_override_mb: 512,
            fullscreen: false,
            debug_logging: false,
        }
    }

    /// A picker with the detected configuration (see `from_config`). The
    /// caller scans the apps directory next.
    pub fn new() -> (p: Self)
        ensures
            p.apps_dir@ == "apps"@,
            p.apps_dir_input@ == "apps"@,
            p.apps@.len() == 0,
            p.selected.is_none(),
            p.status@ == welcome_text(),
            exists|bytes: u64| #[trigger] (bytes / crate::config::MIB) == p.config.host_memory_mb,
            p.config.reported_memory_mb == spec_reported_xp_memory_mb(p.config.host_memory_mb),
            !p.show_options,
            p.profile == Profile::WindowsXp,
            !p.memory_override_enabled,
            p.memory_override_mb == 512,
            !p.fullscreen,
            !p.debug_logging,
    {
        AppPicker::from_config(LayerConfig::detect())
    }

    /// The memory size (MiB) that the guest is told about.
    pub fn effective_reported_mb(&self) -> (mb: u64)
        ensures
            mb == effective_mb(*self),
    {
        if self.memory_override_enabled {
            if self.memory_override_mb > MIN_OVERRIDE_MB {
                self.memory_override_mb
            } else {
                MIN_OVERRIDE_MB
            }
        } else {
            self.config.reported_memory_mb
        }
    }

    /// The configuration that the emulated APIs see.
    pub fn effective_config(&self) -> (config: LayerConfig)
        ensures
            config == effective_layer_config(*self),
    {
        LayerConfig {
            host_memory_mb: self.config.host_memory_mb,
            reported_memory_mb: self.effective_reported_mb(),
        }
    }

    /// Starts running the selected application: returns the path of the
    /// file to load, or says in the status text why nothing can run.
    pub fn run_selected(&mut self) -> (path: Option<String>)
        requires
            old(self).profile == Profile::WindowsXp ==> old(self).selection_valid(),
        ensures
            same_but_status(*final(self), *old(self)),
            old(self).profile != Profile::WindowsXp ==> path.is_none() && final(self).status@
                == profile_warning_text(old(self).profile),
            old(self).profile == Profile::WindowsXp && old(self).selected.is_none() ==> path.is_none()
                && final(self).status@ == "No application selected."@,
            old(self).profile == Profile::WindowsXp && old(self).selected.is_some() ==> path.is_some()
                && path.unwrap()@ == old(self).apps@[old(self).selected.unwrap() as int]@
                && final(self).status == old(self).status,
    {
        if !self.profile.is_available() {
            let mut s = String::from_str("WARNING\n\nThe selected profile (");
            s.append(self.profile.short_label());
            s.append(
                ") is not implemented yet.\nOnly Windows XP is available.\n\nSwitch back to Windows XP in Options.",
            );
            self.status = s;
            return None;
        }
        match self.selected {
            None => {
                self.status = String::from_str("No application selected.");
                None
            },
            Some(idx) => Some(self.apps[idx].clone()),
        }
    }

    /// Ends a run whose file could not be loaded.
    pub fn finish_run_failed(&mut self, path: &str, error: &str)
        ensures
            same_but_status(*final(self), *old(self)),
            final(self).status@ == load_failure_text(path@, error@),
    {
        let mut s = String::from_str("Failed to load PE\n\n");
        s.append(path);
        s.append("\n\n");
        s.append(error);
        self.status = s;
    }

    /// Ends a run whose file was loaded: the status shows the image summary,
    /// the profile and the memory figures that the guest sees.
    pub fn finish_run_loaded(&mut self, path: &str, image: &LoadedImage)
        requires
            status_ex_defined(effective_layer_config(*old(self))),
        ensures
            same_but_status(*final(self), *old(self)),
            final(self).status@ == loaded_text(*old(self), path@, *image),
    {
        let cfg = self.effective_config();
        let memory = memory_report(&cfg);
        let debug = self.debug_line();
        let mut s = String::from_str("Loaded: ");
        s.append(path);
        s.append("\n\n");
        s.append(image.summary().as_str());
        s.append(image.imports_text().as_str());
        s.append("\nProfile: ");
        s.append(self.profile.short_label());
        s.append(memory.as_str());
        s.append(debug.as_str());
        s.append("\nPE image mapped. CPU execution and full API translation are not yet implemented.");
        self.status = s;
    }
}

} // verus!
