use nesfab_provision::errors::ProvisionError;
use nesfab_provision::naming::asset_name;
use nesfab_provision::naming::binary_path;
use nesfab_provision::naming::server_name;
use nesfab_provision::naming::version_dir;
use nesfab_provision::platform::arch_name;
use nesfab_provision::platform::os_name;
use nesfab_provision::platform::platform_info;
use nesfab_provision::platform::Architecture;
use nesfab_provision::platform::ArchiveKind;
use nesfab_provision::platform::Os;
use nesfab_provision::provision::command_for;
use nesfab_provision::provision::stale_entries;
use nesfab_provision::release::find_asset;
use nesfab_provision::release::AssetDescriptor;

#[test]
fn server_name_is_well_known() {
    assert_eq!(server_name(), "nesfab-language-server");
}

#[test]
fn platform_info_supported_mac_arm() {
    let info = platform_info(Os::Mac, Architecture::Aarch64).unwrap();
    assert_eq!(info.os_tag, "darwin");
    assert_eq!(info.arch_tag, "arm64");
    assert_eq!(info.archive_ext, "tar.gz");
    assert_eq!(info.binary_suffix, "");
    assert_eq!(info.archive_kind, ArchiveKind::GzipTar);
}

#[test]
fn platform_info_supported_mac_x64() {
    let info = platform_info(Os::Mac, Architecture::X8664).unwrap();
    assert_eq!(info.os_tag, "darwin");
    assert_eq!(info.arch_tag, "x64");
}

#[test]
fn platform_info_rejects_other_os() {
    for os in [Os::Linux, Os::Windows] {
        for arch in [Architecture::Aarch64, Architecture::X86, Architecture::X8664] {
            let err = platform_info(os, arch).unwrap_err();
            assert_eq!(err, ProvisionError::UnsupportedPlatform(os_name(os)));
        }
    }
}

#[test]
fn platform_info_rejects_x86_on_mac() {
    let err = platform_info(Os::Mac, Architecture::X86).unwrap_err();
    assert_eq!(
        err,
        ProvisionError::UnsupportedPlatform(arch_name(Architecture::X86))
    );
    assert_eq!(err, ProvisionError::UnsupportedPlatform("X86".to_owned()));
}

#[test]
fn names_for_version_on_mac_arm() {
    let info = platform_info(Os::Mac, Architecture::Aarch64).unwrap();
    assert_eq!(
        asset_name("1.2.0", &info),
        "nesfab-language-server-1.2.0-darwin-arm64.tar.gz"
    );
    assert_eq!(version_dir("1.2.0"), "nesfab-language-server-1.2.0");
    assert_eq!(
        binary_path("1.2.0", &info),
        "nesfab-language-server-1.2.0/bin/nesfab-language-server"
    );
}

#[test]
fn names_for_version_on_mac_x64() {
    let info = platform_info(Os::Mac, Architecture::X8664).unwrap();
    assert_eq!(
        asset_name("0.9.17", &info),
        "nesfab-language-server-0.9.17-darwin-x64.tar.gz"
    );
    assert_eq!(
        binary_path("0.9.17", &info),
        "nesfab-language-server-0.9.17/bin/nesfab-language-server"
    );
}

#[test]
fn names_for_empty_version() {
    let info = platform_info(Os::Mac, Architecture::Aarch64).unwrap();
    assert_eq!(
        asset_name("", &info),
        "nesfab-language-server--darwin-arm64.tar.gz"
    );
    assert_eq!(version_dir(""), "nesfab-language-server-");
}

fn asset(name: &str, url: &str) -> AssetDescriptor {
    AssetDescriptor {
        name: name.to_owned(),
        download_url: url.to_owned(),
    }
}

#[test]
fn find_asset_exact_match_only() {
    let assets = vec![
        asset("other.zip", "u0"),
        asset("wanted.tar.gz", "u1"),
        asset("Wanted.tar.gz", "u2"),
    ];
    assert_eq!(find_asset(&assets, &"wanted.tar.gz".to_owned()), Some(1));
    assert_eq!(find_asset(&assets, &"wanted.tar".to_owned()), None);
    assert_eq!(find_asset(&assets, &"WANTED.TAR.GZ".to_owned()), None);
}

#[test]
fn find_asset_returns_first_of_equal_names() {
    let assets = vec![asset("dup", "first"), asset("dup", "second")];
    assert_eq!(find_asset(&assets, &"dup".to_owned()), Some(0));
}

#[test]
fn find_asset_empty_collection() {
    let assets: Vec<AssetDescriptor> = Vec::new();
    assert_eq!(find_asset(&assets, &"x".to_owned()), None);
}

#[test]
fn stale_entries_keeps_only_version_dir() {
    let entries = vec![
        "nesfab-language-server-1.0.0".to_owned(),
        "nesfab-language-server-1.2.0".to_owned(),
        "scratch".to_owned(),
    ];
    let removed = stale_entries(&entries, &"nesfab-language-server-1.2.0".to_owned());
    assert_eq!(
        removed,
        vec![
            "nesfab-language-server-1.0.0".to_owned(),
            "scratch".to_owned()
        ]
    );
}

#[test]
fn stale_entries_empty_listing() {
    let entries: Vec<String> = Vec::new();
    let removed = stale_entries(&entries, &"keep".to_owned());
    assert!(removed.is_empty());
}

#[test]
fn stale_entries_all_duplicates_of_kept() {
    let entries = vec!["keep".to_owned(), "keep".to_owned()];
    let removed = stale_entries(&entries, &"keep".to_owned());
    assert!(removed.is_empty());
}

#[test]
fn command_has_no_args_or_env() {
    let cmd = command_for("a/b/c".to_owned());
    assert_eq!(cmd.path, "a/b/c");
    assert!(cmd.args.is_empty());
    assert!(cmd.env.is_empty());
}
