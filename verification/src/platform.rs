//! The operating system and processor the tool runs on.
use vstd::prelude::*;

verus! {

/// An operating system.
#[derive(Debug, Clone, Copy, PartialEq, Eq, Structural)]
pub enum TargetOs {
    Windows,
    MacOs,
    Linux,
    /// Another system of the Unix family.
    OtherUnix,
    /// Any other system.
    Other,
}

/// A processor architecture.
#[derive(Debug, Clone, Copy, PartialEq, Eq, Structural)]
pub enum TargetArch {
    X86_64,
    Aarch64,
    Other,
}

/// The name of a supported system in download file names.
pub open spec fn spec_os_name(os: TargetOs) -> Seq<char> {
    match os {
        TargetOs::Windows => "windows"@,
        TargetOs::MacOs => "macos"@,
        TargetOs::Linux => "linux"@,
        _ => Seq::empty(),
    }
}

/// The name of a supported architecture in download file names.
pub open spec fn spec_arch_name(arch: TargetArch) -> Seq<char> {
    match arch {
        TargetArch::X86_64 => "x86_64"@,
        TargetArch::Aarch64 => "aarch64"@,
        TargetArch::Other => Seq::empty(),
    }
}

/// Whether the system is one the tools are published for.
pub open spec fn supported_os(os: TargetOs) -> bool {
    os == TargetOs::Windows || os == TargetOs::MacOs || os == TargetOs::Linux
}

/// The name of a supported system.
pub fn os_name(os: TargetOs) -> (r: &'static str)
    requires
        supported_os(os),
    ensures
        r@ == spec_os_name(os),
{
    match os {
        TargetOs::Windows => "windows",
        TargetOs::MacOs => "macos",
        _ => "linux",
    }
}

/// The name of a supported architecture.
pub fn arch_name(arch: TargetArch) -> (r: &'static str)
    requires
        arch != TargetArch::Other,
    ensures
        r@ == spec_arch_name(arch),
{
    match arch {
        TargetArch::X86_64 => "x86_64",
        _ => "aarch64",
    }
}

} // verus!
