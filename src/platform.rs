//! Operating systems, architectures, and the asset names derived from them.
use vstd::prelude::*;

verus! {

/// An operating system family that release assets are built for.
#[derive(Clone, Copy, Debug, PartialEq, Eq, Structural)]
pub enum Os {
    Mac,
    Linux,
    Windows,
}

/// A CPU architecture that release assets are built for.
#[derive(Clone, Copy, Debug, PartialEq, Eq, Structural)]
pub enum Architecture {
    Aarch64,
    X86,
    X8664,
}

/// The architecture part of an asset name.
pub open spec fn arch_text(arch: Architecture) -> Seq<char> {
    match arch {
        Architecture::Aarch64 => "aarch64"@,
        Architecture::X86 => "x86"@,
        Architecture::X8664 => "x86_64"@,
    }
}

/// The operating-system part (target triple suffix) of an asset name.
pub open spec fn os_text(os: Os) -> Seq<char> {
    match os {
        Os::Mac => "apple-darwin"@,
        Os::Linux => "unknown-linux-gnu"@,
        Os::Windows => "windows"@,
    }
}

/// The asset name `<tool>-<arch>-<os>` of a release built for a platform.
pub open spec fn asset_name_of(tool: Seq<char>, os: Os, arch: Architecture) -> Seq<char> {
    tool + "-"@ + arch_text(arch) + "-"@ + os_text(os)
}

/// Returns the architecture part of an asset name.
pub fn arch_str(arch: Architecture) -> (r: &'static str)
    ensures
        r@ == arch_text(arch),
{
    proof {
        reveal_strlit("aarch64");
        reveal_strlit("x86");
        reveal_strlit("x86_64");
    }
    match arch {
        Architecture::Aarch64 => "aarch64",
        Architecture::X86 => "x86",
        Architecture::X8664 => "x86_64",
    }
}

/// Returns the operating-system part of an asset name.
pub fn os_str(os: Os) -> (r: &'static str)
    ensures
        r@ == os_text(os),
{
    proof {
        reveal_strlit("apple-darwin");
        reveal_strlit("unknown-linux-gnu");
        reveal_strlit("windows");
    }
    match os {
        Os::Mac => "apple-darwin",
        Os::Linux => "unknown-linux-gnu",
        Os::Windows => "windows",
    }
}

/// Builds the asset name `<tool>-<arch>-<os>` for the given platform.
pub fn asset_name_for(tool: &str, os: Os, arch: Architecture) -> (r: String)
    ensures
        r@ == asset_name_of(tool@, os, arch),
{
    proof {
        reveal_strlit("-");
    }
    let mut r = String::from_str(tool);
    r.append("-");
    r.append(arch_str(arch));
    r.append("-");
    r.append(os_str(os));
    r
}

/// Relies on zed_extension_api::current_platform: the host reports the
/// operating system and architecture it runs on; each value is mapped to the
/// variant of the same name.
#[verifier::external_body]
pub(crate) fn current_platform() -> (r: (Os, Architecture)) {
    let (os, arch) = zed_extension_api::current_platform();
    let os = match os {
        zed_extension_api::Os::Mac => Os::Mac,
        zed_extension_api::Os::Linux => Os::Linux,
        zed_extension_api::Os::Windows => Os::Windows,
    };
    let arch = match arch {
        zed_extension_api::Architecture::Aarch64 => Architecture::Aarch64,
        zed_extension_api::Architecture::X86 => Architecture::X86,
        zed_extension_api::Architecture::X8664 => Architecture::X8664,
    };
    (os, arch)
}

} // verus!
