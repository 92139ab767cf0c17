use nesfab_provision::errors::ProvisionError;
use nesfab_provision::platform::Architecture;
use nesfab_provision::platform::Os;
use nesfab_provision::provision::Action;
use nesfab_provision::provision::Event;
use nesfab_provision::provision::Provisioner;
use nesfab_provision::provision::Status;
use nesfab_provision::release::AssetDescriptor;
use nesfab_provision::release::ReleaseDescriptor;

/// A scripted host: answers each action from fixed data and records what
/// the machine asked it to do.
struct Host {
    which: Option<String>,
    existing_files: Vec<String>,
    release: Result<(String, Vec<(String, String)>), String>,
    platform: (Os, Architecture),
    download_result: Result<(), String>,
    dir_entries: Result<Vec<String>, String>,
    // records
    notifications: Vec<Status>,
    downloads: Vec<(String, String)>,
    removed: Vec<String>,
    release_queries: usize,
    file_checks: Vec<String>,
    path_lookups: usize,
}

impl Host {
    fn new() -> Host {
        Host {
            which: None,
            existing_files: Vec::new(),
            release: Err("no release scripted".to_owned()),
            platform: (Os::Mac, Architecture::Aarch64),
            download_result: Ok(()),
            dir_entries: Ok(Vec::new()),
            notifications: Vec::new(),
            downloads: Vec::new(),
            removed: Vec::new(),
            release_queries: 0,
            file_checks: Vec::new(),
            path_lookups: 0,
        }
    }

    fn respond(&mut self, action: Action) -> Result<Event, Result<String, ProvisionError>> {
        match action {
            Action::FindInPath { name } => {
                assert_eq!(name, "nesfab-language-server");
                self.path_lookups += 1;
                Ok(Event::PathFound(self.which.clone()))
            }
            Action::CheckFile { path } => {
                self.file_checks.push(path.clone());
                Ok(Event::FileStatus(self.existing_files.contains(&path)))
            }
            Action::Notify { status } => {
                self.notifications.push(status);
                Ok(Event::Notified)
            }
            Action::QueryRelease {
                repo,
                require_assets,
                pre_release,
            } => {
                assert_eq!(repo, "hnd2/nesfab-language-server");
                assert!(require_assets);
                assert!(!pre_release);
                self.release_queries += 1;
                Ok(Event::Release(self.release.clone().map(
                    |(version, assets)| ReleaseDescriptor {
                        version,
                        assets: assets
                            .into_iter()
                            .map(|(name, download_url)| AssetDescriptor { name, download_url })
                            .collect(),
                    },
                )))
            }
            Action::ProbePlatform => Ok(Event::Platform(self.platform.0, self.platform.1)),
            Action::Download {
                url,
                directory,
                kind: _,
            } => {
                self.downloads.push((url, directory.clone()));
                if self.download_result.is_ok() {
                    // extraction drops the binary into the version directory
                    self.existing_files
                        .push(format!("{directory}/bin/nesfab-language-server"));
                }
                Ok(Event::Downloaded(self.download_result.clone()))
            }
            Action::ListWorkDir => Ok(Event::DirEntries(self.dir_entries.clone())),
            Action::RemoveEntries { names } => {
                for name in &names {
                    self.dir_entries = self
                        .dir_entries
                        .clone()
                        .map(|entries| entries.into_iter().filter(|e| e != name).collect());
                }
                self.removed.extend(names);
                Ok(Event::Removed)
            }
            Action::Done { result } => Err(result),
        }
    }

    fn resolve(&mut self, machine: &mut Provisioner) -> Result<String, ProvisionError> {
        let mut event = Event::Start;
        loop {
            assert!(machine.accepts(&event));
            let action = machine.step(event);
            match self.respond(action) {
                Ok(next) => event = next,
                Err(outcome) => return outcome,
            }
        }
    }
}

fn scripted_release() -> Result<(String, Vec<(String, String)>), String> {
    Ok((
        "1.2.0".to_owned(),
        vec![
            (
                "nesfab-language-server-1.2.0-darwin-arm64.tar.gz".to_owned(),
                "https://releases.example/arm64.tar.gz".to_owned(),
            ),
            (
                "nesfab-language-server-1.2.0-darwin-x64.tar.gz".to_owned(),
                "https://releases.example/x64.tar.gz".to_owned(),
            ),
        ],
    ))
}

#[test]
fn unsupported_os_fails_without_download() {
    let mut host = Host::new();
    host.release = scripted_release();
    host.platform = (Os::Linux, Architecture::Aarch64);
    let mut machine = Provisioner::new();
    let outcome = host.resolve(&mut machine);
    assert_eq!(
        outcome,
        Err(ProvisionError::UnsupportedPlatform("Linux".to_owned()))
    );
    assert!(host.downloads.is_empty());
}

#[test]
fn unsupported_architecture_fails_without_download() {
    let mut host = Host::new();
    host.release = scripted_release();
    host.platform = (Os::Mac, Architecture::X86);
    let mut machine = Provisioner::new();
    let outcome = host.resolve(&mut machine);
    assert_eq!(
        outcome,
        Err(ProvisionError::UnsupportedPlatform("X86".to_owned()))
    );
    assert!(host.downloads.is_empty());
}

#[test]
fn search_path_takes_precedence() {
    let mut host = Host::new();
    host.which = Some("/usr/local/bin/nesfab-language-server".to_owned());
    let mut machine = Provisioner::new();
    let outcome = host.resolve(&mut machine);
    assert_eq!(
        outcome,
        Ok("/usr/local/bin/nesfab-language-server".to_owned())
    );
    // no cache check, release query, notification or download happened
    assert!(host.file_checks.is_empty());
    assert_eq!(host.release_queries, 0);
    assert!(host.notifications.is_empty());
    assert!(host.downloads.is_empty());
}

#[test]
fn fresh_install_downloads_and_cleans_up() {
    let mut host = Host::new();
    host.release = scripted_release();
    host.dir_entries = Ok(vec![
        "nesfab-language-server-1.0.0".to_owned(),
        "nesfab-language-server-1.2.0".to_owned(),
        "scratch".to_owned(),
    ]);
    let mut machine = Provisioner::new();
    let outcome = host.resolve(&mut machine);
    assert_eq!(
        outcome,
        Ok("nesfab-language-server-1.2.0/bin/nesfab-language-server".to_owned())
    );
    assert_eq!(
        host.notifications,
        vec![Status::CheckingForUpdate, Status::Downloading]
    );
    assert_eq!(
        host.downloads,
        vec![(
            "https://releases.example/arm64.tar.gz".to_owned(),
            "nesfab-language-server-1.2.0".to_owned()
        )]
    );
    // exactly the version directory survives the cleanup
    assert_eq!(
        host.removed,
        vec!["nesfab-language-server-1.0.0".to_owned(), "scratch".to_owned()]
    );
    assert_eq!(
        host.dir_entries,
        Ok(vec!["nesfab-language-server-1.2.0".to_owned()])
    );
}

#[test]
fn x64_platform_picks_its_own_asset() {
    let mut host = Host::new();
    host.release = scripted_release();
    host.platform = (Os::Mac, Architecture::X8664);
    let mut machine = Provisioner::new();
    let outcome = host.resolve(&mut machine);
    assert_eq!(
        outcome,
        Ok("nesfab-language-server-1.2.0/bin/nesfab-language-server".to_owned())
    );
    assert_eq!(
        host.downloads,
        vec![(
            "https://releases.example/x64.tar.gz".to_owned(),
            "nesfab-language-server-1.2.0".to_owned()
        )]
    );
}

#[test]
fn missing_asset_names_the_expected_one() {
    let mut host = Host::new();
    host.release = Ok((
        "1.2.0".to_owned(),
        vec![(
            "nesfab-language-server-1.2.0-linux-x64.tar.gz".to_owned(),
            "https://releases.example/other".to_owned(),
        )],
    ));
    let mut machine = Provisioner::new();
    let outcome = host.resolve(&mut machine);
    assert_eq!(
        outcome,
        Err(ProvisionError::AssetNotFound(
            "nesfab-language-server-1.2.0-darwin-arm64.tar.gz".to_owned()
        ))
    );
    assert!(host.downloads.is_empty());
}

#[test]
fn existing_binary_skips_download() {
    let mut host = Host::new();
    host.release = scripted_release();
    host.existing_files = vec![
        "nesfab-language-server-1.2.0/bin/nesfab-language-server".to_owned(),
    ];
    let mut machine = Provisioner::new();
    let outcome = host.resolve(&mut machine);
    assert_eq!(
        outcome,
        Ok("nesfab-language-server-1.2.0/bin/nesfab-language-server".to_owned())
    );
    assert!(host.downloads.is_empty());
    assert_eq!(host.notifications, vec![Status::CheckingForUpdate]);
}

#[test]
fn second_call_returns_cached_path_silently() {
    let mut host = Host::new();
    host.release = scripted_release();
    let mut machine = Provisioner::new();
    let first = host.resolve(&mut machine).unwrap();
    assert_eq!(host.downloads.len(), 1);

    // second attempt: the binary file is still present
    host.notifications.clear();
    host.release_queries = 0;
    let second = host.resolve(&mut machine).unwrap();
    assert_eq!(second, first);
    assert!(host.notifications.is_empty());
    assert_eq!(host.release_queries, 0);
    assert_eq!(host.downloads.len(), 1);
    // the cached path was validated against the filesystem
    assert_eq!(host.file_checks.last().map(String::as_str), Some(second.as_str()));
}

#[test]
fn stale_cache_restarts_resolution() {
    let mut host = Host::new();
    host.release = scripted_release();
    let mut machine = Provisioner::new();
    let first = host.resolve(&mut machine).unwrap();

    // the installed file vanishes: resolution must run afresh and re-download
    host.existing_files.clear();
    let second = host.resolve(&mut machine).unwrap();
    assert_eq!(second, first);
    assert_eq!(host.downloads.len(), 2);
}

#[test]
fn release_lookup_failure_is_terminal() {
    let mut host = Host::new();
    host.release = Err("network unreachable".to_owned());
    let mut machine = Provisioner::new();
    let outcome = host.resolve(&mut machine);
    assert_eq!(
        outcome,
        Err(ProvisionError::ReleaseLookupFailed(
            "network unreachable".to_owned()
        ))
    );
    assert!(host.downloads.is_empty());
}

#[test]
fn download_failure_is_install_failure() {
    let mut host = Host::new();
    host.release = scripted_release();
    host.download_result = Err("connection reset".to_owned());
    let mut machine = Provisioner::new();
    let outcome = host.resolve(&mut machine);
    assert_eq!(
        outcome,
        Err(ProvisionError::InstallFailed("connection reset".to_owned()))
    );
}

#[test]
fn listing_failure_after_download_is_install_failure() {
    let mut host = Host::new();
    host.release = scripted_release();
    host.dir_entries = Err("permission denied".to_owned());
    let mut machine = Provisioner::new();
    let outcome = host.resolve(&mut machine);
    assert_eq!(
        outcome,
        Err(ProvisionError::InstallFailed("permission denied".to_owned()))
    );
    // the download itself had succeeded before the listing failed
    assert_eq!(host.downloads.len(), 1);
}

#[test]
fn machine_rejects_events_out_of_turn() {
    let machine = Provisioner::new();
    assert!(machine.accepts(&Event::Start));
    assert!(!machine.accepts(&Event::Notified));
    assert!(!machine.accepts(&Event::PathFound(None)));
    assert!(!machine.accepts(&Event::FileStatus(true)));
}
