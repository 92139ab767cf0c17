//! The resolution procedure, as a step-driven decision machine.
//!
//! Resolution is a strict linear fallback chain: probe the project search
//! path, probe the in-memory cache against the filesystem, query the latest
//! release, then download and install. The machine owns every decision in
//! that chain; the embedding program only performs the filesystem, network
//! and notification work. Each call of [`Provisioner::step`] consumes the
//! outcome of the previous action and returns the next action to perform,
//! ending in [`Action::Done`] with the resolved binary path or a terminal
//! error.

use vstd::prelude::*;

use crate::errors::ProvisionError;
use crate::naming::asset_name;
use crate::naming::asset_name_spec;
use crate::naming::binary_path;
use crate::naming::binary_path_spec;
use crate::naming::server_name;
use crate::naming::server_name_spec;
use crate::naming::version_dir;
use crate::naming::version_dir_spec;
use crate::platform::arch_tag_spec;
use crate::platform::archive_ext_spec;
use crate::platform::archive_kind_spec;
use crate::platform::binary_suffix_spec;
use crate::platform::os_tag_spec;
use crate::platform::platform_info;
use crate::platform::supported;
use crate::platform::unsupported_value_spec;
use crate::platform::Architecture;
use crate::platform::ArchiveKind;
use crate::platform::Os;
use crate::release::find_asset;
use crate::release::has_asset;
use crate::release::AssetDescriptor;
use crate::release::ReleaseDescriptor;

verus! {

/// Installation status reported to the host, in the order the procedure
/// reaches it: a fresh install first checks for an update, and notifies of
/// a download only when one is needed.
#[derive(Clone, Copy, Debug, PartialEq, Eq, Structural)]
pub enum Status {
    CheckingForUpdate,
    Downloading,
}

/// What the embedding program must do next. Every action but `Done` is
/// answered by the matching [`Event`].
pub enum Action {
    /// Look for an executable of this name on the project search path;
    /// answer with `Event::PathFound`.
    FindInPath { name: String },
    /// Report whether a regular file exists at this path; answer with
    /// `Event::FileStatus`.
    CheckFile { path: String },
    /// Report this installation status to the host; answer with
    /// `Event::Notified`.
    Notify { status: Status },
    /// Query the release source for the latest release of this repository;
    /// answer with `Event::Release`.
    QueryRelease { repo: String, require_assets: bool, pre_release: bool },
    /// Report the running (operating system, architecture) pair; answer
    /// with `Event::Platform`.
    ProbePlatform,
    /// Download the archive at `url` and unpack it into `directory`; answer
    /// with `Event::Downloaded`.
    Download { url: String, directory: String, kind: ArchiveKind },
    /// List the entry names of the working directory; answer with
    /// `Event::DirEntries`.
    ListWorkDir,
    /// Remove each named entry, best-effort: removal failures are
    /// swallowed, never reported. Answer with `Event::Removed`.
    RemoveEntries { names: Vec<String> },
    /// Resolution finished with this outcome; the machine is ready for a
    /// fresh attempt.
    Done { result: Result<String, ProvisionError> },
}

/// The outcome of the previous action, handed back to the machine.
pub enum Event {
    /// Begin a resolution attempt.
    Start,
    /// Outcome of `Action::FindInPath`.
    PathFound(Option<String>),
    /// Outcome of `Action::CheckFile`: whether a regular file exists there.
    FileStatus(bool),
    /// Acknowledges `Action::Notify`.
    Notified,
    /// Outcome of `Action::QueryRelease`.
    Release(Result<ReleaseDescriptor, String>),
    /// Outcome of `Action::ProbePlatform`.
    Platform(Os, Architecture),
    /// Outcome of `Action::Download`.
    Downloaded(Result<(), String>),
    /// Outcome of `Action::ListWorkDir`.
    DirEntries(Result<Vec<String>, String>),
    /// Acknowledges `Action::RemoveEntries`.
    Removed,
}

/// Where the machine stands between steps: which action is outstanding,
/// with the values later steps still need.
pub enum State {
    /// No attempt under way.
    Idle,
    /// A `FindInPath` action is outstanding.
    AwaitingPathLookup,
    /// A `CheckFile` on the remembered cached path is outstanding.
    AwaitingCacheProbe { cached: String },
    /// A `Notify(CheckingForUpdate)` is outstanding.
    AwaitingCheckingNotice,
    /// A `QueryRelease` is outstanding.
    AwaitingRelease,
    /// A `ProbePlatform` is outstanding.
    AwaitingPlatform { version: String, assets: Vec<AssetDescriptor> },
    /// A `CheckFile` on the expected binary path is outstanding.
    AwaitingBinaryProbe { url: String, install_dir: String, binary: String, kind: ArchiveKind },
    /// A `Notify(Downloading)` is outstanding.
    AwaitingDownloadNotice { url: String, install_dir: String, binary: String, kind: ArchiveKind },
    /// A `Download` is outstanding.
    AwaitingDownload { install_dir: String, binary: String },
    /// A `ListWorkDir` for stale-version cleanup is outstanding.
    AwaitingCleanupList { install_dir: String, binary: String },
    /// A `RemoveEntries` is outstanding.
    AwaitingCleanup { binary: String },
}

/// The decision machine: the in-memory cached binary path, surviving across
/// attempts within one process, and the current position in an attempt.
pub struct Provisioner {
    pub cached_binary_path: Option<String>,
    pub state: State,
}

/// The repository queried for releases.
pub open spec fn repo_spec() -> Seq<char> {
    "hnd2/nesfab-language-server"@
}

/// The asset name expected of a release version on a supported platform.
pub open spec fn expected_asset_name(version: Seq<char>, os: Os, arch: Architecture) -> Seq<
    char,
> {
    asset_name_spec(version, os_tag_spec(os), arch_tag_spec(arch), archive_ext_spec(os))
}

/// The binary path expected of a release version on a supported platform.
pub open spec fn expected_binary_path(version: Seq<char>, os: Os) -> Seq<char> {
    binary_path_spec(version, binary_suffix_spec(os))
}

/// `url` is the download URL of the first asset named exactly `name`.
pub open spec fn first_match_url(assets: Seq<AssetDescriptor>, name: Seq<char>, url: Seq<
    char,
>) -> bool {
    exists|j: int|
        #![trigger assets[j]]
        0 <= j < assets.len() && assets[j].name@ == name && (forall|k: int|
            0 <= k < j ==> assets[k].name@ != name) && url == assets[j].download_url@
}

/// The removal choice of the cleanup step: `removed` holds exactly the
/// entries whose name differs from `keep` — every removed name occurs in
/// the listing and differs from `keep`, and every listed name other than
/// `keep` is removed.
pub open spec fn removal_selection(
    entries: Seq<String>,
    keep: Seq<char>,
    removed: Seq<String>,
) -> bool {
    &&& forall|i: int|
        #![trigger removed[i]]
        0 <= i < removed.len() ==> removed[i]@ != keep && (exists|j: int|
            0 <= j < entries.len() && entries[j]@ == removed[i]@)
    &&& forall|j: int|
        #![trigger entries[j]]
        0 <= j < entries.len() && entries[j]@ != keep ==> (exists|i: int|
            0 <= i < removed.len() && removed[i]@ == entries[j]@)
}

/// Which event answers the outstanding action of a state.
pub open spec fn event_fits(s: State, e: Event) -> bool {
    match s {
        State::Idle => e is Start,
        State::AwaitingPathLookup => e is PathFound,
        State::AwaitingCacheProbe { .. } => e is FileStatus,
        State::AwaitingCheckingNotice => e is Notified,
        State::AwaitingRelease => e is Release,
        State::AwaitingPlatform { .. } => e is Platform,
        State::AwaitingBinaryProbe { .. } => e is FileStatus,
        State::AwaitingDownloadNotice { .. } => e is Notified,
        State::AwaitingDownload { .. } => e is Downloaded,
        State::AwaitingCleanupList { .. } => e is DirEntries,
        State::AwaitingCleanup { .. } => e is Removed,
    }
}

/// The transition relation of the machine: what `step` returns and how it
/// changes the machine, for every admissible state and event. It is false
/// for an event that does not answer the outstanding action.
pub open spec fn step_rel(pre: Provisioner, event: Event, post: Provisioner, r: Action) -> bool {
    match pre.state {
        State::Idle => match event {
            Event::Start => {
                &&& r matches Action::FindInPath { name } && name@ == server_name_spec()
                &&& post.state is AwaitingPathLookup
                &&& post.cached_binary_path == pre.cached_binary_path
            },
            _ => false,
        },
        State::AwaitingPathLookup => match event {
            Event::PathFound(found) => match found {
                Some(p) => {
                    &&& r matches Action::Done { result } && result matches Ok(q) && q == p
                    &&& post.state is Idle
                    &&& post.cached_binary_path == pre.cached_binary_path
                },
                None => match pre.cached_binary_path {
                    Some(c) => {
                        &&& r matches Action::CheckFile { path } && path == c
                        &&& post.state matches State::AwaitingCacheProbe { cached } && cached == c
                        &&& post.cached_binary_path == pre.cached_binary_path
                    },
                    None => {
                        &&& r matches Action::Notify { status } && status is CheckingForUpdate
                        &&& post.state is AwaitingCheckingNotice
                        &&& post.cached_binary_path == pre.cached_binary_path
                    },
                },
            },
            _ => false,
        },
        State::AwaitingCacheProbe { cached } => match event {
            Event::FileStatus(present) => if present {
                &&& r matches Action::Done { result } && result matches Ok(q) && q == cached
                &&& post.state is Idle
                &&& post.cached_binary_path == pre.cached_binary_path
            } else {
                &&& r matches Action::Notify { status } && status is CheckingForUpdate
                &&& post.state is AwaitingCheckingNotice
                &&& post.cached_binary_path == pre.cached_binary_path
            },
            _ => false,
        },
        State::AwaitingCheckingNotice => match event {
            Event::Notified => {
                &&& r matches Action::QueryRelease { repo, require_assets, pre_release }
                    && repo@ == repo_spec() && require_assets && !pre_release
                &&& post.state is AwaitingRelease
                &&& post.cached_binary_path == pre.cached_binary_path
            },
            _ => false,
        },
        State::AwaitingRelease => match event {
            Event::Release(outcome) => match outcome {
                Ok(rel) => {
                    &&& r is ProbePlatform
                    &&& post.state matches State::AwaitingPlatform { version, assets }
                        && version == rel.version && assets == rel.assets
                    &&& post.cached_binary_path == pre.cached_binary_path
                },
                Err(cause) => {
                    &&& r matches Action::Done { result } && result matches Err(e)
                        && e matches ProvisionError::ReleaseLookupFailed(m) && m == cause
                    &&& post.state is Idle
                    &&& post.cached_binary_path == pre.cached_binary_path
                },
            },
            _ => false,
        },
        State::AwaitingPlatform { version, assets } => match event {
            Event::Platform(os, arch) => if !supported(os, arch) {
                &&& r matches Action::Done { result } && result matches Err(e)
                    && e matches ProvisionError::UnsupportedPlatform(v)
                    && v@ == unsupported_value_spec(os, arch)
                &&& post.state is Idle
                &&& post.cached_binary_path == pre.cached_binary_path
            } else if !has_asset(assets@, expected_asset_name(version@, os, arch)) {
                &&& r matches Action::Done { result } && result matches Err(e)
                    && e matches ProvisionError::AssetNotFound(n)
                    && n@ == expected_asset_name(version@, os, arch)
                &&& post.state is Idle
                &&& post.cached_binary_path == pre.cached_binary_path
            } else {
                &&& r matches Action::CheckFile { path }
                    && path@ == expected_binary_path(version@, os)
                &&& post.state matches State::AwaitingBinaryProbe { url, install_dir, binary, kind }
                    && install_dir@ == version_dir_spec(version@)
                    && binary@ == expected_binary_path(version@, os)
                    && kind == archive_kind_spec(os)
                    && first_match_url(assets@, expected_asset_name(version@, os, arch), url@)
                &&& post.cached_binary_path == pre.cached_binary_path
            },
            _ => false,
        },
        State::AwaitingBinaryProbe { url, install_dir, binary, kind } => match event {
            Event::FileStatus(present) => if present {
                &&& r matches Action::Done { result } && result matches Ok(q) && q == binary
                &&& post.state is Idle
                &&& post.cached_binary_path matches Some(c) && c == binary
            } else {
                &&& r matches Action::Notify { status } && status is Downloading
                &&& post.state matches State::AwaitingDownloadNotice {
                    url: u2,
                    install_dir: d2,
                    binary: b2,
                    kind: k2,
                } && u2 == url && d2 == install_dir && b2 == binary && k2 == kind
                &&& post.cached_binary_path == pre.cached_binary_path
            },
            _ => false,
        },
        State::AwaitingDownloadNotice { url, install_dir, binary, kind } => match event {
            Event::Notified => {
                &&& r matches Action::Download { url: u, directory, kind: k }
                    && u == url && directory == install_dir && k == kind
                &&& post.state matches State::AwaitingDownload { install_dir: d2, binary: b2 }
                    && d2 == install_dir && b2 == binary
                &&& post.cached_binary_path == pre.cached_binary_path
            },
            _ => false,
        },
        State::AwaitingDownload { install_dir, binary } => match event {
            Event::Downloaded(outcome) => match outcome {
                Ok(_) => {
                    &&& r is ListWorkDir
                    &&& post.state matches State::AwaitingCleanupList {
                        install_dir: d2,
                        binary: b2,
                    } && d2 == install_dir && b2 == binary
                    &&& post.cached_binary_path == pre.cached_binary_path
                },
                Err(cause) => {
                    &&& r matches Action::Done { result } && result matches Err(e)
                        && e matches ProvisionError::InstallFailed(m) && m == cause
                    &&& post.state is Idle
                    &&& post.cached_binary_path == pre.cached_binary_path
                },
            },
            _ => false,
        },
        State::AwaitingCleanupList { install_dir, binary } => match event {
            Event::DirEntries(outcome) => match outcome {
                Ok(entries) => {
                    &&& r matches Action::RemoveEntries { names }
                        && removal_selection(entries@, install_dir@, names@)
                    &&& post.state matches State::AwaitingCleanup { binary: b2 } && b2 == binary
                    &&& post.cached_binary_path == pre.cached_binary_path
                },
                Err(cause) => {
                    &&& r matches Action::Done { result } && result matches Err(e)
                        && e matches ProvisionError::InstallFailed(m) && m == cause
                    &&& post.state is Idle
                    &&& post.cached_binary_path == pre.cached_binary_path
                },
            },
            _ => false,
        },
        State::AwaitingCleanup { binary } => match event {
            Event::Removed => {
                &&& r matches Action::Done { result } && result matches Ok(q) && q == binary
                &&& post.state is Idle
                &&& post.cached_binary_path matches Some(c) && c == binary
            },
            _ => false,
        },
    }
}

impl Provisioner {
    /// A fresh machine: nothing cached, no attempt under way.
    pub fn new() -> (r: Provisioner)
        ensures
            r.state is Idle,
            r.cached_binary_path is None,
    {
        Provisioner { cached_binary_path: None, state: State::Idle }
    }

    /// Whether an event answers the machine's outstanding action.
    pub fn accepts(&self, event: &Event) -> (r: bool)
        ensures
            r == event_fits(self.state, *event),
    {
        match (&self.state, event) {
            (State::Idle, Event::Start) => true,
            (State::AwaitingPathLookup, Event::PathFound(_)) => true,
            (State::AwaitingCacheProbe { .. }, Event::FileStatus(_)) => true,
            (State::AwaitingCheckingNotice, Event::Notified) => true,
            (State::AwaitingRelease, Event::Release(_)) => true,
            (State::AwaitingPlatform { .. }, Event::Platform(..)) => true,
            (State::AwaitingBinaryProbe { .. }, Event::FileStatus(_)) => true,
            (State::AwaitingDownloadNotice { .. }, Event::Notified) => true,
            (State::AwaitingDownload { .. }, Event::Downloaded(_)) => true,
            (State::AwaitingCleanupList { .. }, Event::DirEntries(_)) => true,
            (State::AwaitingCleanup { .. }, Event::Removed) => true,
            _ => false,
        }
    }

    /// One decision of the resolution chain: consume the outcome of the
    /// previous action and return the next action. The whole behaviour is
    /// pinned by [`step_rel`].
    pub fn step(&mut self, event: Event) -> (r: Action)
        requires
            event_fits(old(self).state, event),
        ensures
            step_rel(*old(self), event, *final(self), r),
    {
        let mut st = State::Idle;
        core::mem::swap(&mut st, &mut self.state);
        match (st, event) {
            (State::Idle, Event::Start) => {
                self.state = State::AwaitingPathLookup;
                Action::FindInPath { name: server_name() }
            },
            (State::AwaitingPathLookup, Event::PathFound(Some(p))) => {
                Action::Done { result: Ok(p) }
            },
            (State::AwaitingPathLookup, Event::PathFound(None)) => {
                match &self.cached_binary_path {
                    Some(c) => {
                        let cc = c.clone();
                        self.state = State::AwaitingCacheProbe { cached: cc.clone() };
                        Action::CheckFile { path: cc }
                    },
                    None => {
                        self.state = State::AwaitingCheckingNotice;
                        Action::Notify { status: Status::CheckingForUpdate }
                    },
                }
            },
            (State::AwaitingCacheProbe { cached }, Event::FileStatus(true)) => {
                Action::Done { result: Ok(cached) }
            },
            (State::AwaitingCacheProbe { .. }, Event::FileStatus(false)) => {
                self.state = State::AwaitingCheckingNotice;
                Action::Notify { status: Status::CheckingForUpdate }
            },
            (State::AwaitingCheckingNotice, Event::Notified) => {
                self.state = State::AwaitingRelease;
                Action::QueryRelease {
                    repo: "hnd2/nesfab-language-server".to_owned(),
                    require_assets: true,
                    pre_release: false,
                }
            },
            (State::AwaitingRelease, Event::Release(Ok(rel))) => {
                self.state = State::AwaitingPlatform { version: rel.version, assets: rel.assets };
                Action::ProbePlatform
            },
            (State::AwaitingRelease, Event::Release(Err(cause))) => {
                Action::Done { result: Err(ProvisionError::ReleaseLookupFailed(cause)) }
            },
            (State::AwaitingPlatform { version, assets }, Event::Platform(os, arch)) => {
                let info = match platform_info(os, arch) {
                    Ok(info) => info,
                    Err(e) => {
                        return Action::Done { result: Err(e) };
                    },
                };
                let name = asset_name(version.as_str(), &info);
                let idx = match find_asset(&assets, &name) {
                    Some(i) => i,
                    None => {
                        return Action::Done { result: Err(ProvisionError::AssetNotFound(name)) };
                    },
                };
                let url = assets[idx].download_url.clone();
                let dir = version_dir(version.as_str());
                let bin = binary_path(version.as_str(), &info);
                proof {
                    assert(first_match_url(
                        assets@,
                        expected_asset_name(version@, os, arch),
                        url@,
                    ));
                }
                self.state = State::AwaitingBinaryProbe {
                    url,
                    install_dir: dir,
                    binary: bin.clone(),
                    kind: info.archive_kind,
                };
                Action::CheckFile { path: bin }
            },
            (State::AwaitingBinaryProbe { binary, .. }, Event::FileStatus(true)) => {
                self.cached_binary_path = Some(binary.clone());
                Action::Done { result: Ok(binary) }
            },
            (
                State::AwaitingBinaryProbe { url, install_dir, binary, kind },
                Event::FileStatus(false),
            ) => {
                self.state = State::AwaitingDownloadNotice { url, install_dir, binary, kind };
                Action::Notify { status: Status::Downloading }
            },
            (
                State::AwaitingDownloadNotice { url, install_dir, binary, kind },
                Event::Notified,
            ) => {
                self.state = State::AwaitingDownload {
                    install_dir: install_dir.clone(),
                    binary,
                };
                Action::Download { url, directory: install_dir, kind }
            },
            (State::AwaitingDownload { install_dir, binary }, Event::Downloaded(Ok(_))) => {
                self.state = State::AwaitingCleanupList { install_dir, binary };
                Action::ListWorkDir
            },
            (State::AwaitingDownload { .. }, Event::Downloaded(Err(cause))) => {
                Action::Done { result: Err(ProvisionError::InstallFailed(cause)) }
            },
            (
                State::AwaitingCleanupList { install_dir, binary },
                Event::DirEntries(Ok(entries)),
            ) => {
                let names = stale_entries(&entries, &install_dir);
                self.state = State::AwaitingCleanup { binary };
                Action::RemoveEntries { names }
            },
            (State::AwaitingCleanupList { .. }, Event::DirEntries(Err(cause))) => {
                Action::Done { result: Err(ProvisionError::InstallFailed(cause)) }
            },
            (State::AwaitingCleanup { binary }, Event::Removed) => {
                self.cached_binary_path = Some(binary.clone());
                Action::Done { result: Ok(binary) }
            },
            _ => {
                vstd::pervasive::unreached()
            },
        }
    }
}

/// What the host needs to launch the resolved binary: its path, with no
/// arguments and no extra environment.
pub struct ExecutableSpec {
    pub path: String,
    pub args: Vec<String>,
    pub env: Vec<(String, String)>,
}

/// The launch specification of a resolved binary: the path as resolved,
/// an empty argument list and an empty environment.
pub fn command_for(path: String) -> (r: ExecutableSpec)
    ensures
        r.path == path,
        r.args@ == Seq::<String>::empty(),
        r.env@ == Seq::<(String, String)>::empty(),
{
    ExecutableSpec { path, args: Vec::new(), env: Vec::new() }
}

/// The names to remove during cleanup: every listed entry whose name is not
/// `keep`, in listing order.
pub fn stale_entries(entries: &Vec<String>, keep: &String) -> (r: Vec<String>)
    ensures
        removal_selection(entries@, keep@, r@),
{
    let mut out: Vec<String> = Vec::new();
    let mut i: usize = 0;
    while i < entries.len()
        invariant
            i <= entries@.len(),
            forall|k: int|
                #![trigger out@[k]]
                0 <= k < out@.len() ==> out@[k]@ != keep@ && (exists|j: int|
                    0 <= j < entries@.len() && entries@[j]@ == out@[k]@),
            forall|j: int|
                #![trigger entries@[j]]
                0 <= j < i && entries@[j]@ != keep@ ==> (exists|k: int|
                    0 <= k < out@.len() && out@[k]@ == entries@[j]@),
        decreases entries@.len() - i,
    {
        let ghost prev = out@;
        if !(entries[i] == *keep) {
            out.push(entries[i].clone());
        }
        proof {
            assert forall|j: int| 0 <= j < i + 1 && entries@[j]@ != keep@ implies (exists|k: int|
                0 <= k < out@.len() && out@[k]@ == entries@[j]@) by {
                if j == i {
                    assert(out@[out@.len() - 1]@ == entries@[j]@);
                } else {
                    let k = choose|k: int| 0 <= k < prev.len() && prev[k]@ == entries@[j]@;
                    assert(out@[k]@ == entries@[j]@);
                }
            }
        }
        i += 1;
    }
    out
}

} // verus!
