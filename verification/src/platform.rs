//! The supported-platform allow-list.
//!
//! A single total mapping from the reported (operating system, architecture)
//! pair to the naming data every later step uses: the tags that appear in
//! asset names, the archive format to unpack, and the suffix of the installed
//! binary's file name. Pairs outside the allow-list fail fast with an error
//! naming the unsupported value.

use vstd::prelude::*;

use crate::errors::ProvisionError;

verus! {

/// Operating systems the editor host can report.
#[derive(Clone, Copy, Debug, PartialEq, Eq, Structural)]
pub enum Os {
    Mac,
    Linux,
    Windows,
}

/// Processor architectures the editor host can report.
#[derive(Clone, Copy, Debug, PartialEq, Eq, Structural)]
pub enum Architecture {
    Aarch64,
    X86,
    X8664,
}

/// Archive formats the installer knows how to unpack.
#[derive(Clone, Copy, Debug, PartialEq, Eq, Structural)]
pub enum ArchiveKind {
    GzipTar,
}

/// The naming data of one supported platform, derived once per resolution
/// and reused at every step that needs it.
#[derive(Debug)]
pub struct PlatformInfo {
    /// Tag standing for the operating system in asset names.
    pub os_tag: String,
    /// Tag standing for the architecture in asset names.
    pub arch_tag: String,
    /// File-name extension of the release archive.
    pub archive_ext: String,
    /// Suffix of the installed binary's file name (empty on every platform
    /// supported today; kept so the mapping stays general).
    pub binary_suffix: String,
    /// How the release archive is unpacked.
    pub archive_kind: ArchiveKind,
}

/// The allow-list: only macOS, on either 64-bit architecture, is supported.
pub open spec fn supported(os: Os, arch: Architecture) -> bool {
    os is Mac && (arch is Aarch64 || arch is X8664)
}

/// Operating-system tag of a supported platform.
pub open spec fn os_tag_spec(os: Os) -> Seq<char> {
    match os {
        Os::Mac => "darwin"@,
        Os::Linux => Seq::<char>::empty(),
        Os::Windows => Seq::<char>::empty(),
    }
}

/// Architecture tag of a supported platform.
pub open spec fn arch_tag_spec(arch: Architecture) -> Seq<char> {
    match arch {
        Architecture::Aarch64 => "arm64"@,
        Architecture::X8664 => "x64"@,
        Architecture::X86 => Seq::<char>::empty(),
    }
}

/// Archive extension of a supported platform.
pub open spec fn archive_ext_spec(os: Os) -> Seq<char> {
    "tar.gz"@
}

/// Binary-name suffix of a supported platform.
pub open spec fn binary_suffix_spec(os: Os) -> Seq<char> {
    Seq::<char>::empty()
}

/// Archive format of a supported platform.
pub open spec fn archive_kind_spec(os: Os) -> ArchiveKind {
    ArchiveKind::GzipTar
}

/// Name of an operating-system value, as reported in errors.
pub open spec fn os_name_spec(os: Os) -> Seq<char> {
    match os {
        Os::Mac => "Mac"@,
        Os::Linux => "Linux"@,
        Os::Windows => "Windows"@,
    }
}

/// Name of an architecture value, as reported in errors.
pub open spec fn arch_name_spec(arch: Architecture) -> Seq<char> {
    match arch {
        Architecture::Aarch64 => "Aarch64"@,
        Architecture::X86 => "X86"@,
        Architecture::X8664 => "X8664"@,
    }
}

/// The value named by the error for an unsupported pair: the operating
/// system where it is the problem, else the architecture.
pub open spec fn unsupported_value_spec(os: Os, arch: Architecture) -> Seq<char> {
    if !(os is Mac) {
        os_name_spec(os)
    } else {
        arch_name_spec(arch)
    }
}

/// What `platform_info` returns for a supported pair.
pub open spec fn info_for(os: Os, arch: Architecture, info: PlatformInfo) -> bool {
    &&& info.os_tag@ == os_tag_spec(os)
    &&& info.arch_tag@ == arch_tag_spec(arch)
    &&& info.archive_ext@ == archive_ext_spec(os)
    &&& info.binary_suffix@ == binary_suffix_spec(os)
    &&& info.archive_kind == archive_kind_spec(os)
}

/// Name of an operating-system value, for error reporting.
pub fn os_name(os: Os) -> (r: String)
    ensures
        r@ == os_name_spec(os),
{
    match os {
        Os::Mac => "Mac".to_owned(),
        Os::Linux => "Linux".to_owned(),
        Os::Windows => "Windows".to_owned(),
    }
}

/// Name of an architecture value, for error reporting.
pub fn arch_name(arch: Architecture) -> (r: String)
    ensures
        r@ == arch_name_spec(arch),
{
    match arch {
        Architecture::Aarch64 => "Aarch64".to_owned(),
        Architecture::X86 => "X86".to_owned(),
        Architecture::X8664 => "X8664".to_owned(),
    }
}

/// The one total lookup of the allow-list: naming data for a supported
/// pair, an `UnsupportedPlatform` error naming the offending value for
/// every other pair.
pub fn platform_info(os: Os, arch: Architecture) -> (r: Result<PlatformInfo, ProvisionError>)
    ensures
        supported(os, arch) ==> (r matches Ok(info) && info_for(os, arch, info)),
        !supported(os, arch) ==> (r matches Err(e) && e matches ProvisionError::UnsupportedPlatform(v)
            && v@ == unsupported_value_spec(os, arch)),
{
    match os {
        Os::Mac => (),
        _ => {
            return Err(ProvisionError::UnsupportedPlatform(os_name(os)));
        },
    }
    let (os_tag, archive_ext, binary_suffix): (String, String, String) =
        ("darwin".to_owned(), "tar.gz".to_owned(), String::new());
    let arch_tag: String = match arch {
        Architecture::Aarch64 => "arm64".to_owned(),
        Architecture::X8664 => "x64".to_owned(),
        Architecture::X86 => {
            return Err(ProvisionError::UnsupportedPlatform(arch_name(arch)));
        },
    };
    Ok(PlatformInfo {
        os_tag,
        arch_tag,
        archive_ext,
        binary_suffix,
        archive_kind: ArchiveKind::GzipTar,
    })
}

} // verus!
