//! The conda platforms the backend distinguishes.

use vstd::prelude::*;

verus! {

/// The conda platform a package is built for (the host platform of the
/// build), as far as the backend tells platforms apart: every platform with
/// a zig target triple has a variant of its own, and any other platform is
/// carried by its conda name.
#[derive(Debug, Clone)]
pub enum Platform {
    Linux32,
    Linux64,
    LinuxAarch64,
    LinuxArmV6l,
    LinuxArmV7l,
    LinuxPpc64le,
    LinuxPpc64,
    LinuxS390X,
    LinuxRiscv64,
    LinuxLoongArch64,
    Osx64,
    OsxArm64,
    Win32,
    Win64,
    WinArm64,
    EmscriptenWasm32,
    WasiWasm32,
    FreeBsd64,
    FreeBsdArm64,
    /// A platform zig has no obvious triple for, by its conda name
    /// (e.g. `zos-z`).
    Other(String),
}

/// The Windows platforms.
pub open spec fn platform_is_windows(p: Platform) -> bool {
    p is Win32 || p is Win64 || p is WinArm64
}

/// The macOS platforms.
pub open spec fn platform_is_osx(p: Platform) -> bool {
    p is Osx64 || p is OsxArm64
}

impl Platform {
    pub fn is_windows(&self) -> (r: bool)
        ensures
            r == platform_is_windows(*self),
    {
        match self {
            Platform::Win32 | Platform::Win64 | Platform::WinArm64 => true,
            _ => false,
        }
    }

    pub fn is_osx(&self) -> (r: bool)
        ensures
            r == platform_is_osx(*self),
    {
        match self {
            Platform::Osx64 | Platform::OsxArm64 => true,
            _ => false,
        }
    }
}

} // verus!
