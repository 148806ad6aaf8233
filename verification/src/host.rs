//! The machine that the tools are installed on.

use vstd::prelude::*;

verus! {

/// Operating systems that the host may report.
#[derive(Debug, Clone, Copy, PartialEq, Eq, Structural)]
pub enum HostOS {
    Android,
    Dragonfly,
    FreeBSD,
    IOS,
    Linux,
    MacOS,
    NetBSD,
    OpenBSD,
    Solaris,
    Windows,
}

/// Processor architectures that the host may report.
#[derive(Debug, Clone, Copy, PartialEq, Eq, Structural)]
pub enum HostArch {
    X86,
    X64,
    Arm,
    Arm64,
    LongArm64,
    M68k,
    Mips,
    Mips64,
    Powerpc,
    Powerpc64,
    Riscv64,
    S390x,
    Sparc64,
}

/// What the host reports of itself.
#[derive(Debug, Clone, Copy, PartialEq, Eq, Structural)]
pub struct HostEnvironment {
    pub os: HostOS,
    pub arch: HostArch,
}

impl HostOS {
    /// Whether this is Windows.
    pub fn is_windows(&self) -> (windows: bool)
        ensures
            windows == (*self == HostOS::Windows),
    {
        match self {
            HostOS::Windows => true,
            _ => false,
        }
    }
}

} // verus!
