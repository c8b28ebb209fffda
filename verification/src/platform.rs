//! Platform resolver: computes the native library file-name suffix from
//! the operating system, CPU architecture, pointer width, and the
//! security-mode (FIPS) flag. Deterministic and total: the suffix is
//! pinned, case by case, by [`suffix_spec`].

use vstd::prelude::*;
use vstd::string::StringExecFns;
use crate::text::{str_eq, str_starts_with, str_trim, starts_with_spec, trim_spec};

verus! {

#[derive(Clone, Copy, PartialEq, Eq, Structural, Debug)]
pub enum OsKind {
    Windows,
    MacOs,
    Aix,
    OtherUnix,
}

#[derive(Clone, Copy, PartialEq, Eq, Structural, Debug)]
pub enum ArchKind {
    Arm,
    Power,
    Other,
}

/// The suffix table: Windows and macOS and AIX come first; the Unix
/// family is then discriminated by architecture, security mode, and
/// pointer width.
pub open spec fn suffix_spec(os: OsKind, arch: ArchKind, bits: u32, fips: bool) -> Seq<char> {
    match os {
        OsKind::Windows => if bits == 32 {
            "x86.dll"@
        } else {
            "dll"@
        },
        OsKind::MacOs => "dylib"@,
        OsKind::Aix => "aix.so"@,
        OsKind::OtherUnix => if arch == ArchKind::Arm && fips {
            "arm.fips.so"@
        } else if arch == ArchKind::Arm {
            "arm.so"@
        } else if arch == ArchKind::Power {
            "power.so"@
        } else if bits == 32 {
            "x86.so"@
        } else if fips {
            "fips.so"@
        } else {
            "so"@
        },
    }
}

/// Compute the library file-name suffix for a platform.
pub fn resolve_suffix(os: OsKind, arch: ArchKind, bits: u32, fips: bool) -> (r: String)
    ensures
        r@ == suffix_spec(os, arch, bits, fips),
{
    match os {
        OsKind::Windows => if bits == 32 {
            String::from_str("x86.dll")
        } else {
            String::from_str("dll")
        },
        OsKind::MacOs => String::from_str("dylib"),
        OsKind::Aix => String::from_str("aix.so"),
        OsKind::OtherUnix => if matches!(arch, ArchKind::Arm) && fips {
            String::from_str("arm.fips.so")
        } else if matches!(arch, ArchKind::Arm) {
            String::from_str("arm.so")
        } else if matches!(arch, ArchKind::Power) {
            String::from_str("power.so")
        } else if bits == 32 {
            String::from_str("x86.so")
        } else if fips {
            String::from_str("fips.so")
        } else {
            String::from_str("so")
        },
    }
}

/// Identical platform descriptions always yield the identical suffix.
pub proof fn lemma_resolve_suffix_deterministic(
    os1: OsKind,
    arch1: ArchKind,
    bits1: u32,
    fips1: bool,
    os2: OsKind,
    arch2: ArchKind,
    bits2: u32,
    fips2: bool,
)
    requires
        os1 == os2,
        arch1 == arch2,
        bits1 == bits2,
        fips1 == fips2,
    ensures
        suffix_spec(os1, arch1, bits1, fips1) == suffix_spec(os2, arch2, bits2, fips2),
{
}

pub open spec fn os_kind_spec(s: Seq<char>) -> OsKind {
    if s == "windows"@ {
        OsKind::Windows
    } else if s == "macos"@ {
        OsKind::MacOs
    } else if s == "aix"@ {
        OsKind::Aix
    } else {
        OsKind::OtherUnix
    }
}

/// Classify an operating-system name (as reported by the runtime, in
/// lower case).
pub fn os_kind_of(os_name: &str) -> (k: OsKind)
    ensures
        k == os_kind_spec(os_name@),
{
    if str_eq(os_name, "windows") {
        OsKind::Windows
    } else if str_eq(os_name, "macos") {
        OsKind::MacOs
    } else if str_eq(os_name, "aix") {
        OsKind::Aix
    } else {
        OsKind::OtherUnix
    }
}

pub open spec fn arch_kind_spec(s: Seq<char>) -> ArchKind {
    if starts_with_spec(s, "arm"@) || starts_with_spec(s, "aarch"@) {
        ArchKind::Arm
    } else if s == "ppc64le"@ {
        ArchKind::Power
    } else {
        ArchKind::Other
    }
}

/// Classify a CPU architecture name (as reported by the runtime, in
/// lower case).
pub fn arch_kind_of(cpu: &str) -> (k: ArchKind)
    ensures
        k == arch_kind_spec(cpu@),
{
    if str_starts_with(cpu, "arm") || str_starts_with(cpu, "aarch") {
        ArchKind::Arm
    } else if str_eq(cpu, "ppc64le") {
        ArchKind::Power
    } else {
        ArchKind::Other
    }
}

/// The security-mode indicator reads as enabled exactly when its content,
/// with surrounding whitespace removed, is "1". An unreadable indicator
/// is passed in as the empty string and reads as disabled.
pub open spec fn fips_indicator_spec(content: Seq<char>) -> bool {
    trim_spec(content) == "1"@
}

pub fn fips_enabled_from(content: &str) -> (b: bool)
    ensures
        b == fips_indicator_spec(content@),
{
    str_eq(str_trim(content), "1")
}

/// The full native library file name for a platform.
pub fn library_file_name(os: OsKind, arch: ArchKind, bits: u32, fips: bool) -> (r: String)
    ensures
        r@ == "teradatasql."@ + suffix_spec(os, arch, bits, fips),
{
    let mut name = String::from_str("teradatasql.");
    let suffix = resolve_suffix(os, arch, bits, fips);
    name.append(suffix.as_str());
    name
}

} // verus!
