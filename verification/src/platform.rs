//! Platform resolver: maps a host operating system and CPU architecture to
//! the vendor-specific identifiers used to build runtime download URLs.
//!
//! The identifiers form a fixed capability table; `Unknown` rows yield the
//! literal identifier `"unknown"`, which callers must treat as a hard
//! failure further downstream (URL construction would not resolve).

use vstd::prelude::*;

verus! {

/// Host operating system, as the build target reports it.
#[derive(Clone, Copy, PartialEq, Eq, Structural, Debug)]
pub enum Os {
    Linux,
    LinuxMusl,
    Windows,
    Mac,
    Solaris,
    Aix,
    Android,
    Ios,
    Unknown,
}

/// Host CPU architecture, as the build target reports it.
#[derive(Clone, Copy, PartialEq, Eq, Structural, Debug)]
pub enum Arch {
    X64,
    X32,
    Aarch64,
    Arm,
    Ppc64,
    Ppc64le,
    S390x,
    Sparcv9,
    Riscv64,
    Unknown,
}

/// The vendor identifier the runtime download endpoint expects for `t`.
pub open spec fn os_identifier(t: Os) -> Seq<char> {
    match t {
        Os::Linux => "linux"@,
        Os::LinuxMusl => "alpine-linux"@,
        Os::Windows => "windows"@,
        Os::Mac => "mac"@,
        Os::Solaris => "solaris"@,
        Os::Aix => "aix"@,
        Os::Android => "android"@,
        Os::Ios => "ios"@,
        Os::Unknown => "unknown"@,
    }
}

/// The vendor identifier the runtime download endpoint expects for `t`.
pub open spec fn arch_identifier(t: Arch) -> Seq<char> {
    match t {
        Arch::X64 => "x64"@,
        Arch::X32 => "x32"@,
        Arch::Aarch64 => "aarch64"@,
        Arch::Arm => "arm"@,
        Arch::Ppc64 => "ppc64"@,
        Arch::Ppc64le => "ppc64le"@,
        Arch::S390x => "s390x"@,
        Arch::Sparcv9 => "sparcv9"@,
        Arch::Riscv64 => "riscv64"@,
        Arch::Unknown => "unknown"@,
    }
}

/// Maps the host operating system to its vendor identifier.
pub fn detect_os(target: Os) -> (r: &'static str)
    ensures
        r@ == os_identifier(target),
{
    match target {
        Os::Linux => "linux",
        Os::LinuxMusl => "alpine-linux",
        Os::Windows => "windows",
        Os::Mac => "mac",
        Os::Solaris => "solaris",
        Os::Aix => "aix",
        Os::Android => "android",
        Os::Ios => "ios",
        Os::Unknown => "unknown",
    }
}

/// Maps the host CPU architecture to its vendor identifier.
pub fn detect_architecture(target: Arch) -> (r: &'static str)
    ensures
        r@ == arch_identifier(target),
{
    match target {
        Arch::X64 => "x64",
        Arch::X32 => "x32",
        Arch::Aarch64 => "aarch64",
        Arch::Arm => "arm",
        Arch::Ppc64 => "ppc64",
        Arch::Ppc64le => "ppc64le",
        Arch::S390x => "s390x",
        Arch::Sparcv9 => "sparcv9",
        Arch::Riscv64 => "riscv64",
        Arch::Unknown => "unknown",
    }
}

/// Name of the Java launcher executable inside the runtime's `bin`
/// directory on `target`.
pub fn get_java_exec_name(target: Os) -> (r: &'static str)
    ensures
        target == Os::Windows ==> r@ == "javaw.exe"@,
        target != Os::Windows ==> r@ == "java"@,
{
    match target {
        Os::Windows => "javaw.exe",
        _ => "java",
    }
}

} // verus!
