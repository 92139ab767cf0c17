//! The guarantees of the resolution chain, proved from its transition
//! relation.

use vstd::prelude::*;

use crate::errors::ProvisionError;
use crate::platform::supported;
use crate::platform::unsupported_value_spec;
use crate::platform::Architecture;
use crate::platform::Os;
use crate::naming::server_name_spec;
use crate::provision::removal_selection;
use crate::provision::step_rel;
use crate::provision::Action;
use crate::provision::Event;
use crate::provision::Provisioner;

verus! {

/// An unsupported (operating system, architecture) pair ends the attempt at
/// the platform step: the outcome is an `UnsupportedPlatform` error naming
/// the offending value, the machine returns to rest, and in particular no
/// download action is issued — the unsupported pair is rejected before any
/// downloading can begin.
pub proof fn lemma_unsupported_platform_fails(
    pre: Provisioner,
    os: Os,
    arch: Architecture,
    post: Provisioner,
    r: Action,
)
    requires
        pre.state is AwaitingPlatform,
        !supported(os, arch),
        step_rel(pre, Event::Platform(os, arch), post, r),
    ensures
        r matches Action::Done { result } && result matches Err(e)
            && e matches ProvisionError::UnsupportedPlatform(v)
            && v@ == unsupported_value_spec(os, arch),
        post.state is Idle,
        post.cached_binary_path == pre.cached_binary_path,
{
}

/// A download action arises only from the download-notice state: no other
/// state ever issues one.
pub proof fn lemma_download_only_after_notice(
    pre: Provisioner,
    event: Event,
    post: Provisioner,
    r: Action,
)
    requires
        step_rel(pre, event, post, r),
        r is Download,
    ensures
        pre.state is AwaitingDownloadNotice,
{
}

/// The download-notice state is entered only when the probe of the expected
/// binary path reports no file there. Together with
/// [`lemma_download_only_after_notice`], a download occurs only when the
/// binary was missing at its expected path.
pub proof fn lemma_download_notice_needs_missing_binary(
    pre: Provisioner,
    event: Event,
    post: Provisioner,
    r: Action,
)
    requires
        step_rel(pre, event, post, r),
        post.state is AwaitingDownloadNotice,
    ensures
        pre.state is AwaitingBinaryProbe,
        event == Event::FileStatus(false),
{
}

/// A binary already present at the expected path ends the attempt at the
/// probe: its path is returned and remembered, and no download-notice state
/// is entered, so no download occurs.
pub proof fn lemma_existing_binary_skips_download(pre: Provisioner, post: Provisioner, r: Action)
    requires
        pre.state is AwaitingBinaryProbe,
        step_rel(pre, Event::FileStatus(true), post, r),
    ensures
        r matches Action::Done { result } && result matches Ok(q)
            && q == pre.state->AwaitingBinaryProbe_binary,
        post.cached_binary_path matches Some(c) && c == pre.state->AwaitingBinaryProbe_binary,
        post.state is Idle,
{
}

/// A path found on the project search path ends the attempt at once: it is
/// returned as-is, the machine returns to rest, and neither a cache probe,
/// nor a release query, nor a download is ever issued for the attempt.
pub proof fn lemma_search_path_takes_precedence(
    pre: Provisioner,
    p: String,
    post: Provisioner,
    r: Action,
)
    requires
        pre.state is AwaitingPathLookup,
        step_rel(pre, Event::PathFound(Some(p)), post, r),
    ensures
        r matches Action::Done { result } && result matches Ok(q) && q == p,
        post.state is Idle,
        post.cached_binary_path == pre.cached_binary_path,
{
}

/// A status notification is only ever issued after a miss: the search path
/// found nothing and no cached path was held, the cached path's file was
/// gone, or the expected binary was missing. In particular a resolution
/// served from the search path or from a validated cached path emits no
/// notification.
pub proof fn lemma_notice_needs_a_miss(
    pre: Provisioner,
    event: Event,
    post: Provisioner,
    r: Action,
)
    requires
        step_rel(pre, event, post, r),
        r is Notify,
    ensures
        ({
            ||| pre.state is AwaitingPathLookup && event == Event::PathFound(None::<String>)
                && pre.cached_binary_path is None
            ||| pre.state is AwaitingCacheProbe && event == Event::FileStatus(false)
            ||| pre.state is AwaitingBinaryProbe && event == Event::FileStatus(false)
        }),
{
}

/// The resolved binary path is a pure function of the release version and
/// the platform mapping: two platform steps on releases with the same
/// version string that both reach the binary probe compute the same
/// expected path, whatever else differs between the two machines.
pub proof fn lemma_resolved_path_deterministic(
    pre1: Provisioner,
    pre2: Provisioner,
    os: Os,
    arch: Architecture,
    post1: Provisioner,
    post2: Provisioner,
    r1: Action,
    r2: Action,
)
    requires
        pre1.state is AwaitingPlatform,
        pre2.state is AwaitingPlatform,
        (pre1.state->AwaitingPlatform_version)@ == (pre2.state->AwaitingPlatform_version)@,
        step_rel(pre1, Event::Platform(os, arch), post1, r1),
        step_rel(pre2, Event::Platform(os, arch), post2, r2),
        r1 is CheckFile,
        r2 is CheckFile,
    ensures
        (r1->CheckFile_path)@ == (r2->CheckFile_path)@,
        post1.state is AwaitingBinaryProbe,
        post2.state is AwaitingBinaryProbe,
        (post1.state->AwaitingBinaryProbe_binary)@ == (post2.state->AwaitingBinaryProbe_binary)@,
        (post1.state->AwaitingBinaryProbe_install_dir)@ == (
        post2.state->AwaitingBinaryProbe_install_dir)@,
{
}

/// The cleanup step removes exactly the working-directory entries whose
/// name is not the version directory, so every entry that survives it is
/// the version directory itself: after a successful install exactly one
/// version directory remains.
pub proof fn lemma_cleanup_leaves_only_version_dir(
    pre: Provisioner,
    entries: Vec<String>,
    post: Provisioner,
    r: Action,
)
    requires
        pre.state is AwaitingCleanupList,
        step_rel(pre, Event::DirEntries(Ok(entries)), post, r),
    ensures
        r is RemoveEntries,
        removal_selection(
            entries@,
            (pre.state->AwaitingCleanupList_install_dir)@,
            (r->RemoveEntries_names)@,
        ),
        forall|j: int|
            #![trigger entries@[j]]
            0 <= j < entries@.len() && (forall|i: int|
                0 <= i < (r->RemoveEntries_names)@.len() ==> (r->RemoveEntries_names)@[i]@
                    != entries@[j]@) ==> entries@[j]@ == (
            pre.state->AwaitingCleanupList_install_dir)@,
{
}

/// A run of the machine: starting from `p0`, the events are consumed in
/// turn, with `states[i]` the machine after step `i` and `actions[i]` the
/// action that step returned.
pub open spec fn run_rel(
    p0: Provisioner,
    events: Seq<Event>,
    states: Seq<Provisioner>,
    actions: Seq<Action>,
) -> bool {
    &&& states.len() == events.len()
    &&& actions.len() == events.len()
    &&& forall|i: int|
        #![trigger events[i]]
        0 <= i < events.len() ==> step_rel(
            if i == 0 {
                p0
            } else {
                states[i - 1]
            },
            events[i],
            states[i],
            actions[i],
        )
}

/// A resolution served from the project search path does nothing else: a
/// run that begins at rest and whose path lookup answers with a path is
/// over after its second step — the path is returned unchanged, the machine
/// is back at rest, and no file probe, release query, notification or
/// download was ever asked for.
pub proof fn lemma_search_path_run_is_two_steps(
    p0: Provisioner,
    p: String,
    events: Seq<Event>,
    states: Seq<Provisioner>,
    actions: Seq<Action>,
)
    requires
        run_rel(p0, events, states, actions),
        p0.state is Idle,
        events.len() == 2,
        events[0] == Event::Start,
        events[1] == Event::PathFound(Some(p)),
    ensures
        actions[0] matches Action::FindInPath { name } && name@ == server_name_spec(),
        actions[1] matches Action::Done { result } && result matches Ok(q) && q == p,
        states[1].state is Idle,
        states[1].cached_binary_path == p0.cached_binary_path,
{
    assert(step_rel(p0, events[0], states[0], actions[0]));
    assert(step_rel(states[0], events[1], states[1], actions[1]));
}

/// A resolution served from a still-valid cached path is silent: a run that
/// begins at rest holding a cached path, whose path lookup finds nothing
/// and whose file probe confirms the cached file, is over after its third
/// step — the cached path is returned, the machine is back at rest, and no
/// status notification, release query or download was ever asked for.
pub proof fn lemma_valid_cache_run_is_three_steps(
    p0: Provisioner,
    c: String,
    events: Seq<Event>,
    states: Seq<Provisioner>,
    actions: Seq<Action>,
)
    requires
        run_rel(p0, events, states, actions),
        p0.state is Idle,
        p0.cached_binary_path == Some(c),
        events.len() == 3,
        events[0] == Event::Start,
        events[1] == Event::PathFound(None::<String>),
        events[2] == Event::FileStatus(true),
    ensures
        actions[1] matches Action::CheckFile { path } && path == c,
        actions[2] matches Action::Done { result } && result matches Ok(q) && q == c,
        forall|i: int| #![trigger actions[i]] 0 <= i < 3 ==> !(actions[i] is Notify),
        states[2].state is Idle,
        states[2].cached_binary_path == Some(c),
{
    assert(step_rel(p0, events[0], states[0], actions[0]));
    assert(step_rel(states[0], events[1], states[1], actions[1]));
    assert(step_rel(states[1], events[2], states[2], actions[2]));
}

/// Nowhere in a run that starts at rest does a download occur without a
/// prior probe of the expected binary path reporting the file missing: the
/// steps just before any download are that probe's miss and the download
/// notice. In particular a run in which every probed file exists, or that
/// fails before the binary probe — on an unsupported platform, a failed
/// release query or a missing asset — downloads nothing.
pub proof fn lemma_download_needs_prior_missing_binary(
    p0: Provisioner,
    events: Seq<Event>,
    states: Seq<Provisioner>,
    actions: Seq<Action>,
    i: int,
)
    requires
        run_rel(p0, events, states, actions),
        p0.state is Idle,
        0 <= i < events.len(),
        actions[i] is Download,
    ensures
        i >= 2,
        states[i - 1].state is AwaitingDownloadNotice,
        states[i - 2].state is AwaitingBinaryProbe,
        events[i - 1] == Event::FileStatus(false),
        actions[i - 1] matches Action::Notify { status } && status is Downloading,
{
    assert(step_rel(if i == 0 { p0 } else { states[i - 1] }, events[i], states[i], actions[i]));
    assert(i >= 1);
    assert(step_rel(
        if i - 1 == 0 {
            p0
        } else {
            states[i - 2]
        },
        events[i - 1],
        states[i - 1],
        actions[i - 1],
    ));
    assert(i >= 2);
}

} // verus!
