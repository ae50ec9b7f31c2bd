//! Host CPU detection via CPUID, and the policy applied to what it reports.

use raw_cpuid::{CpuId, FeatureInfo, ProcessorBrandString, VendorInfo};
use crate::text::{same_text, trim_text, trim_whitespace};
use vstd::prelude::*;

verus! {

/// Outcome of the host CPU policy check.
#[derive(Debug, Clone, Copy, PartialEq, Eq, Structural)]
pub enum HostCpuStatus {
    /// Intel, accepted for this build.
    SupportedIntel,
    /// AMD: explicitly not supported yet.
    UnsupportedAmd,
    /// Other vendor (VIA, Hygon, virtual weirdness, etc.).
    UnsupportedVendor,
    /// Intel but too old for the current policy (~pre-2006).
    UnsupportedOldIntel,
    /// Could not read CPUID usefully.
    Unknown,
}

/// The message shown for each status.
pub open spec fn status_text(status: HostCpuStatus) -> Seq<char> {
    match status {
        HostCpuStatus::SupportedIntel => "Intel CPU accepted (2006–present policy)."@,
        HostCpuStatus::UnsupportedAmd => "AMD CPUs are not supported yet. Intel only for now."@,
        HostCpuStatus::UnsupportedVendor => "Only GenuineIntel hosts are supported in this build."@,
        HostCpuStatus::UnsupportedOldIntel => "This Intel CPU is older than the 2006+ policy allows."@,
        HostCpuStatus::Unknown => "Could not identify the host CPU."@,
    }
}

impl HostCpuStatus {
    /// Only a supported Intel CPU lets the layer run.
    pub fn is_ok(self) -> (ok: bool)
        ensures
            ok <==> self == HostCpuStatus::SupportedIntel,
    {
        match self {
            HostCpuStatus::SupportedIntel => true,
            _ => false,
        }
    }

    /// The human-readable explanation of this status.
    pub fn message(self) -> (text: &'static str)
        ensures
            text@ == status_text(self),
    {
        match self {
            HostCpuStatus::SupportedIntel => "Intel CPU accepted (2006–present policy).",
            HostCpuStatus::UnsupportedAmd => "AMD CPUs are not supported yet. Intel only for now.",
            HostCpuStatus::UnsupportedVendor => "Only GenuineIntel hosts are supported in this build.",
            HostCpuStatus::UnsupportedOldIntel => "This Intel CPU is older than the 2006+ policy allows.",
            HostCpuStatus::Unknown => "Could not identify the host CPU.",
        }
    }
}

/// `c` with ASCII upper-case letters turned into lower case (`to_ascii_lowercase`).
pub open spec fn ascii_lower(c: char) -> char {
    if 'A' <= c && c <= 'Z' {
        ((c as u32) + 32) as char
    } else {
        c
    }
}

/// `s` with ASCII upper-case letters turned into lower case.
pub open spec fn ascii_lowercase(s: Seq<char>) -> Seq<char> {
    s.map_values(|c: char| ascii_lower(c))
}

/// `needle` occurs in `hay` as a contiguous run.
pub open spec fn contains_seq(hay: Seq<char>, needle: Seq<char>) -> bool {
    exists|i: int| 0 <= i <= hay.len() - needle.len() && #[trigger] hay.subrange(i, i + needle.len()) == needle
}

/// Whether `needle` occurs in `hay` once ASCII letters of `hay` are lower-cased.
pub fn contains_lowercased(hay: &str, needle: &str) -> (found: bool)
    ensures
        found == contains_seq(ascii_lowercase(hay@), needle@),
{
    let ghost low = ascii_lowercase(hay@);
    let h = hay.unicode_len();
    let n = needle.unicode_len();
    if n > h {
        return false;
    }
    let mut i: usize = 0;
    while i <= h - n
        invariant
            h == hay@.len(),
            n == needle@.len(),
            n <= h,
            low == ascii_lowercase(hay@),
            i <= h - n + 1,
            forall|j: int| 0 <= j < i ==> #[trigger] low.subrange(j, j + n) != needle@,
        decreases h - n + 1 - i,
    {
        let mut k: usize = 0;
        let mut matched = true;
        let ghost mut miss: int = 0;
        while k < n && matched
            invariant
                h == hay@.len(),
                n == needle@.len(),
                i + n <= h,
                low == ascii_lowercase(hay@),
                k <= n,
                matched ==> forall|m: int| 0 <= m < k ==> low[i + m] == needle@[m],
                !matched ==> 0 <= miss < n && low[i + miss] != needle@[miss],
            decreases n - k, (if matched { 1int } else { 0int }),
        {
            let c = hay.get_char(i + k);
            let lc: u32 = if 'A' <= c && c <= 'Z' {
                c as u32 + 32
            } else {
                c as u32
            };
            let d = needle.get_char(k);
            if lc == d as u32 {
                k = k + 1;
            } else {
                proof {
                    miss = k as int;
                }
                matched = false;
            }
        }
        if matched {
            assert(low.subrange(i as int, i + n) =~= needle@);
            return true;
        }
        assert(low.subrange(i as int, i + n)[miss] != needle@[miss]);
        i = i + 1;
    }
    proof {
        assert forall|j: int| 0 <= j <= low.len() - needle@.len() implies #[trigger] low.subrange(
            j,
            j + needle@.len(),
        ) != needle@ by {
            assert(j < i);
        }
    }
    false
}

/// The policy: AMD hosts (a vendor naming AMD in any letter case) are
/// rejected, every other vendor but exactly "GenuineIntel" is rejected, and
/// Intel CPUs older than the Core 2 generation (family below 6, or family 6
/// with a model below 15) are rejected.
pub open spec fn spec_classify(vendor: Seq<char>, family: u32, model: u32) -> HostCpuStatus {
    if contains_seq(ascii_lowercase(vendor), "amd"@) {
        HostCpuStatus::UnsupportedAmd
    } else if vendor != "GenuineIntel"@ {
        HostCpuStatus::UnsupportedVendor
    } else if family < 6 || (family == 6 && model < 15) {
        HostCpuStatus::UnsupportedOldIntel
    } else {
        HostCpuStatus::SupportedIntel
    }
}

/// A vendor string that names AMD, in any letter case, is rejected as AMD
/// whatever the family and model.
pub proof fn lemma_amd_rejected(vendor: Seq<char>, family: u32, model: u32)
    requires
        contains_seq(ascii_lowercase(vendor), "amd"@),
    ensures
        spec_classify(vendor, family, model) == HostCpuStatus::UnsupportedAmd,
{
}

/// Only GenuineIntel CPUs of the Core 2 generation or newer are accepted,
/// and the policy never answers `Unknown`.
pub proof fn lemma_accepted_is_recent_intel(vendor: Seq<char>, family: u32, model: u32)
    ensures
        spec_classify(vendor, family, model) != HostCpuStatus::Unknown,
        spec_classify(vendor, family, model) == HostCpuStatus::SupportedIntel ==> {
            &&& vendor == "GenuineIntel"@
            &&& (family > 6 || (family == 6 && model >= 15))
        },
{
}

/// A newer CPU of an accepted vendor is accepted too: acceptance only grows
/// with the family, and with the model within a family.
pub proof fn lemma_newer_stays_accepted(
    vendor: Seq<char>,
    family: u32,
    model: u32,
    newer_family: u32,
    newer_model: u32,
)
    requires
        spec_classify(vendor, family, model) == HostCpuStatus::SupportedIntel,
        family < newer_family || (family == newer_family && model <= newer_model),
    ensures
        spec_classify(vendor, newer_family, newer_model) == HostCpuStatus::SupportedIntel,
{
}

/// For the vendor string that Intel CPUs report, the outcome depends on
/// the family and model alone: Core 2 (family 6, model 15) and newer are
/// accepted, older parts are rejected as old.
pub proof fn lemma_genuine_intel(family: u32, model: u32)
    ensures
        spec_classify("GenuineIntel"@, family, model) == (if family < 6 || (family == 6 && model
            < 15) {
            HostCpuStatus::UnsupportedOldIntel
        } else {
            HostCpuStatus::SupportedIntel
        }),
{
    reveal_strlit("GenuineIntel");
    reveal_strlit("amd");
    let low = ascii_lowercase("GenuineIntel"@);
    assert(low =~= seq!['g', 'e', 'n', 'u', 'i', 'n', 'e', 'i', 'n', 't', 'e', 'l']);
    assert forall|i: int| 0 <= i <= low.len() - "amd"@.len() implies #[trigger] low.subrange(
        i,
        i + "amd"@.len(),
    ) != "amd"@ by {
        assert(low.subrange(i, i + "amd"@.len())[0] == low[i]);
    }
    assert(!contains_seq(low, "amd"@));
}

/// Applies the host CPU policy to a vendor string and a family/model pair.
pub fn classify(vendor: &str, family: u32, model: u32) -> (status: HostCpuStatus)
    ensures
        status == spec_classify(vendor@, family, model),
{
    if contains_lowercased(vendor, "amd") {
        return HostCpuStatus::UnsupportedAmd;
    }
    if !same_text(vendor, "GenuineIntel") {
        return HostCpuStatus::UnsupportedVendor;
    }
    if family < 6 {
        return HostCpuStatus::UnsupportedOldIntel;
    }
    if family == 6 && model < 15 {
        return HostCpuStatus::UnsupportedOldIntel;
    }
    HostCpuStatus::SupportedIntel
}


/// What the CPU check found on the host.
#[derive(Debug, Clone)]
pub struct HostCpuInfo {
    pub vendor: String,
    pub brand: String,
    pub family: u32,
    pub model: u32,
    pub stepping: u32,
    pub status: HostCpuStatus,
}

#[verifier::external_type_specification]
#[verifier::external_body]
pub struct ExVendorInfo(VendorInfo);

#[verifier::external_type_specification]
#[verifier::external_body]
pub struct ExProcessorBrandString(ProcessorBrandString);

#[verifier::external_type_specification]
#[verifier::external_body]
pub struct ExFeatureInfo(FeatureInfo);

/// Calls `raw_cpuid::CpuId::new` and then `CpuId::get_vendor_info` (leaf 0)
/// on the CPU the code runs on. What it returns depends on the machine, so
/// nothing is claimed of it.
#[verifier::external_body]
fn host_vendor_info() -> (v: Option<VendorInfo>) {
    CpuId::new().get_vendor_info()
}

/// Calls `raw_cpuid::CpuId::new` and then `CpuId::get_processor_brand_string`
/// (leaves 0x8000_0002 to 0x8000_0004). Machine dependent; nothing is claimed of it.
#[verifier::external_body]
fn host_brand_string() -> (b: Option<ProcessorBrandString>) {
    CpuId::new().get_processor_brand_string()
}

/// Calls `raw_cpuid::CpuId::new` and then `CpuId::get_feature_info` (leaf 1).
/// Machine dependent; nothing is claimed of it.
#[verifier::external_body]
fn host_feature_info() -> (f: Option<FeatureInfo>) {
    CpuId::new().get_feature_info()
}

/// Calls `VendorInfo::as_str` and copies the text. Nothing is claimed of the
/// text: it is whatever the CPU reported (or raw-cpuid's placeholder for
/// invalid UTF-8).
#[verifier::external_body]
fn vendor_text(v: &VendorInfo) -> (s: String) {
    v.as_str().to_string()
}

/// Calls `ProcessorBrandString::as_str` and copies the text. Nothing is
/// claimed of the text.
#[verifier::external_body]
fn brand_text(b: &ProcessorBrandString) -> (s: String) {
    b.as_str().to_string()
}

/// Calls `FeatureInfo::base_family_id`: bits 8 to 11 of leaf 1's EAX, so
/// below 16, as the crate's source computes it.
#[verifier::external_body]
fn feature_base_family(f: &FeatureInfo) -> (v: u8)
    ensures
        v < 16,
{
    f.base_family_id()
}

/// Calls `FeatureInfo::extended_family_id`: bits 20 to 27 of leaf 1's EAX.
/// Nothing is claimed beyond the width of the result.
#[verifier::external_body]
fn feature_extended_family(f: &FeatureInfo) -> (v: u8) {
    f.extended_family_id()
}

/// Calls `FeatureInfo::model_id` (with the extended model folded in where
/// the vendor's rules ask for it). Nothing is claimed beyond the width of the result.
#[verifier::external_body]
fn feature_model(f: &FeatureInfo) -> (v: u8) {
    f.model_id()
}

/// Calls `FeatureInfo::stepping_id`: bits 0 to 3 of leaf 1's EAX, so below 16.
#[verifier::external_body]
fn feature_stepping(f: &FeatureInfo) -> (v: u8)
    ensures
        v < 16,
{
    f.stepping_id()
}

/// raw-cpuid treats the CPU as AMD when the vendor text is one of these two.
pub open spec fn is_amd_vendor_text(vendor: Seq<char>) -> bool {
    vendor == "AuthenticAMD"@ || vendor == "HygonGenuine"@
}

/// The display family of a CPU, by the rule that raw-cpuid's `family_id`
/// follows: AMD parts below base family 0xF and Intel parts other than base
/// family 0xF use the base family; all others add the extended family. The
/// sum is taken in `u32`, so it never wraps.
pub open spec fn cpu_family(vendor: Seq<char>, base: u8, extended: u8) -> u32 {
    if (is_amd_vendor_text(vendor) && base < 0xF) || (vendor == "GenuineIntel"@ && base != 0xF) {
        base as u32
    } else {
        (base + extended) as u32
    }
}

/// Computes the display family from the base and extended families.
pub fn display_family(vendor: &str, base: u8, extended: u8) -> (family: u32)
    ensures
        family == cpu_family(vendor@, base, extended),
{
    let amd = same_text(vendor, "AuthenticAMD") || same_text(vendor, "HygonGenuine");
    let intel = same_text(vendor, "GenuineIntel");
    if (amd && base < 0xF) || (intel && base != 0xF) {
        base as u32
    } else {
        base as u32 + extended as u32
    }
}

/// The text of an optional string.
pub open spec fn text_of(s: Option<String>) -> Option<Seq<char>> {
    match s {
        Some(t) => Some(t@),
        None => None,
    }
}

/// `info` is what the CPU check reports when CPUID gave the vendor text
/// `vendor`, the raw brand text `brand`, and the (base family, extended
/// family, model, stepping) ids `ids`, each absent when its leaf was not
/// available. A missing vendor or feature leaf means the CPU could not be
/// identified.
pub open spec fn cpu_info_from(
    info: HostCpuInfo,
    vendor: Option<Seq<char>>,
    brand: Option<Seq<char>>,
    ids: Option<(u8, u8, u8, u8)>,
) -> bool {
    &&& info.vendor@ == match vendor {
        Some(v) => v,
        None => "unknown"@,
    }
    &&& info.brand@ == match brand {
        Some(b) => trim_whitespace(b),
        None => "(unknown brand)"@,
    }
    &&& match ids {
        Some((base, extended, model, stepping)) => {
            &&& info.family == cpu_family(info.vendor@, base, extended)
            &&& info.model == model as u32
            &&& info.stepping == stepping as u32
        },
        None => info.family == 0 && info.model == 0 && info.stepping == 0,
    }
    &&& info.status == if vendor.is_none() || ids.is_none() {
        HostCpuStatus::Unknown
    } else {
        spec_classify(info.vendor@, info.family, info.model)
    }
}

/// Builds the CPU report from what CPUID gave: the vendor text, the raw
/// brand text, and the (base family, extended family, model, stepping) ids.
pub fn host_cpu_info(
    vendor: Option<String>,
    brand: Option<String>,
    ids: Option<(u8, u8, u8, u8)>,
) -> (info: HostCpuInfo)
    ensures
        cpu_info_from(info, text_of(vendor), text_of(brand), ids),
{
    let known_vendor = vendor.is_some();
    let vendor = match vendor {
        Some(v) => v,
        None => String::from_str("unknown"),
    };
    let brand = match brand {
        Some(b) => trim_text(b.as_str()),
        None => String::from_str("(unknown brand)"),
    };
    let (family, model, stepping) = match ids {
        Some((base, extended, model, stepping)) => (
            display_family(vendor.as_str(), base, extended),
            model as u32,
            stepping as u32,
        ),
        None => (0u32, 0u32, 0u32),
    };
    let status = if !known_vendor || ids.is_none() {
        HostCpuStatus::Unknown
    } else {
        classify(vendor.as_str(), family, model)
    };
    HostCpuInfo { vendor, brand, family, model, stepping, status }
}

/// Probe the host with CPUID and apply the project policy.
pub fn check_host_cpu() -> (info: HostCpuInfo)
    ensures
        exists|vendor: Option<Seq<char>>, brand: Option<Seq<char>>, ids: Option<(u8, u8, u8, u8)>|
            #[trigger] cpu_info_from(info, vendor, brand, ids),
{
    let vendor = match host_vendor_info() {
        Some(v) => Some(vendor_text(&v)),
        None => None,
    };
    let brand = match host_brand_string() {
        Some(b) => Some(brand_text(&b)),
        None => None,
    };
    let ids = match host_feature_info() {
        Some(f) => Some(
            (
                feature_base_family(&f),
                feature_extended_family(&f),
                feature_model(&f),
                feature_stepping(&f),
            ),
        ),
        None => None,
    };
    let ghost v = text_of(vendor);
    let ghost b = text_of(brand);
    let ghost i = ids;
    let info = host_cpu_info(vendor, brand, ids);
    assert(cpu_info_from(info, v, b, i));
    info
}

} // verus!
