//! Deterministic naming of release assets and installation paths.
//!
//! Every name is a pure function of the release version string and the
//! platform naming data, so resolving the same release twice computes the
//! same asset name, version directory and binary path.

use vstd::prelude::*;

use crate::platform::PlatformInfo;

verus! {

/// The well-known name of the language-server binary, also the stem of
/// every derived name.
pub open spec fn server_name_spec() -> Seq<char> {
    "nesfab-language-server"@
}

/// The asset file name expected of a release:
/// `{server-name}-{version}-{os-tag}-{arch-tag}.{archive-extension}`.
pub open spec fn asset_name_spec(
    version: Seq<char>,
    os_tag: Seq<char>,
    arch_tag: Seq<char>,
    archive_ext: Seq<char>,
) -> Seq<char> {
    server_name_spec() + "-"@ + version + "-"@ + os_tag + "-"@ + arch_tag + "."@ + archive_ext
}

/// The installation directory of one version: `{server-name}-{version}`.
pub open spec fn version_dir_spec(version: Seq<char>) -> Seq<char> {
    server_name_spec() + "-"@ + version
}

/// Where the binary lands inside a version directory:
/// `{version-dir}/bin/{server-name}{binary-suffix}`.
pub open spec fn binary_path_spec(version: Seq<char>, binary_suffix: Seq<char>) -> Seq<char> {
    version_dir_spec(version) + "/bin/"@ + server_name_spec() + binary_suffix
}

/// Relies on `String::push_str`: appends the slice's characters to the end
/// of the string.
pub assume_specification[ String::push_str ](s: &mut String, other: &str)
    ensures
        final(s)@ == old(s)@ + other@,
;

/// The well-known name of the language-server binary.
pub fn server_name() -> (r: String)
    ensures
        r@ == server_name_spec(),
{
    "nesfab-language-server".to_owned()
}

/// Expected asset file name for a version on a platform.
pub fn asset_name(version: &str, info: &PlatformInfo) -> (r: String)
    ensures
        r@ == asset_name_spec(version@, info.os_tag@, info.arch_tag@, info.archive_ext@),
{
    let mut s = server_name();
    s.push_str("-");
    s.push_str(version);
    s.push_str("-");
    s.push_str(info.os_tag.as_str());
    s.push_str("-");
    s.push_str(info.arch_tag.as_str());
    s.push_str(".");
    s.push_str(info.archive_ext.as_str());
    s
}

/// Installation directory name for a version.
pub fn version_dir(version: &str) -> (r: String)
    ensures
        r@ == version_dir_spec(version@),
{
    let mut s = server_name();
    s.push_str("-");
    s.push_str(version);
    s
}

/// Expected binary path for a version on a platform.
pub fn binary_path(version: &str, info: &PlatformInfo) -> (r: String)
    ensures
        r@ == binary_path_spec(version@, info.binary_suffix@),
{
    let mut s = version_dir(version);
    s.push_str("/bin/");
    s.push_str("nesfab-language-server");
    s.push_str(info.binary_suffix.as_str());
    s
}

} // verus!
