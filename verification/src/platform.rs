use vstd::prelude::*;

verus! {

/// The host operating systems the manager distinguishes.
#[derive(Clone, Copy, Debug, PartialEq, Eq, Structural)]
pub enum HostOS {
    Linux,
    MacOS,
    Windows,
}

/// The host architectures the manager distinguishes.
#[derive(Clone, Copy, Debug, PartialEq, Eq, Structural)]
pub enum HostArch {
    X64,
    Arm64,
    X86,
}

pub open spec fn spec_arch_name(arch: HostArch) -> Seq<char> {
    match arch {
        HostArch::Arm64 => "arm64"@,
        HostArch::X64 => "x64"@,
        HostArch::X86 => "x86"@,
    }
}

/// The architecture's name as it appears in download file names.
pub fn map_arch(arch: HostArch) -> (r: String)
    ensures
        r@ == spec_arch_name(arch),
{
    match arch {
        HostArch::Arm64 => "arm64".to_owned(),
        HostArch::X64 => "x64".to_owned(),
        HostArch::X86 => "x86".to_owned(),
    }
}

pub open spec fn spec_os_name(os: HostOS) -> Seq<char> {
    match os {
        HostOS::Linux => "linux"@,
        HostOS::MacOS => "darwin"@,
        HostOS::Windows => "win"@,
    }
}

/// The operating system's name as it appears in download file names.
pub fn map_os(os: HostOS) -> (r: String)
    ensures
        r@ == spec_os_name(os),
{
    match os {
        HostOS::Linux => "linux".to_owned(),
        HostOS::MacOS => "darwin".to_owned(),
        HostOS::Windows => "win".to_owned(),
    }
}

} // verus!
