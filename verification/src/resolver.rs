//! The binary-acquisition state machine.
//!
//! One `Resolver` owns the only cross-call state of the library: the path a
//! previous attempt resolved to. A resolution attempt is driven as a dialogue:
//! `start` and `on_event` each return the next [`Action`] the host must
//! perform (probe a file, look up the latest release, download and unpack an
//! archive, mark a file executable), and the host feeds the outcome back as
//! an [`Event`]. The attempt ends with [`Action::Finish`] carrying the
//! binary's path, or [`Action::Fail`] carrying the error; either way the
//! machine is idle again and a later attempt starts from scratch.
//!
//! The host is expected to drive one attempt at a time per resolver; the
//! machine itself holds no lock.

use vstd::prelude::*;
use vstd::string::StringExecFns;

use crate::error::Error;
use crate::paths::{
    binary_path, binary_path_spec, dev_override_path, dev_override_path_spec, github_repo,
    github_repo_spec, version_dir, version_dir_spec,
};
use crate::platform::{
    ArchiveKind, PlatformKey, archive_kind, archive_kind_spec, asset_name_spec,
    compute_asset_name,
};
use crate::release::{Release, has_asset, is_first_asset_match, select_asset};

verus! {

/// What one resolution attempt is asked to resolve: the worktree a
/// developer-supplied build may sit in, and the platform whose asset to fetch.
pub struct Request {
    pub worktree_root: String,
    pub platform: PlatformKey,
}

/// Where the machine stands inside one resolution attempt, with the values
/// the remaining steps need.
pub enum Phase {
    /// No attempt is under way.
    Idle,
    /// Waiting to hear whether the previously cached path still exists.
    CacheProbe { req: Request, path: String },
    /// Waiting to hear whether a developer-supplied build sits in the worktree.
    DevProbe { req: Request, path: String },
    /// Waiting for the release index's answer.
    ReleaseWait { req: Request },
    /// Waiting to hear whether the selected release is already installed.
    BinaryProbe { url: String, version_dir: String, archive: ArchiveKind, binary_path: String },
    /// Waiting for the download and unpack to finish.
    InstallWait { binary_path: String },
    /// Waiting for the binary to be marked executable.
    ChmodWait { binary_path: String },
}

/// The download-and-unpack step failed; the two variants tell a transport
/// failure from a corrupt or mismatched archive.
#[derive(Debug, PartialEq, Eq)]
pub enum InstallFault {
    Download(String),
    Extract(String),
}

/// The outcome of an [`Action`], reported back by the host.
pub enum Event {
    /// Answer to [`Action::CheckFile`]: does a file exist at the path?
    FileStatus(bool),
    /// Answer to [`Action::FetchLatestRelease`]: the newest eligible release.
    ReleaseReady(Release),
    /// Answer to [`Action::FetchLatestRelease`]: the index found none; carries
    /// the index's message.
    ReleaseLookupFailed(String),
    /// Answer to [`Action::DownloadArchive`]: the archive is unpacked in place.
    Installed,
    /// Answer to [`Action::DownloadArchive`]: it failed.
    InstallFailed(InstallFault),
    /// Answer to [`Action::MakeExecutable`]: the permission is set.
    MarkedExecutable,
    /// Answer to [`Action::MakeExecutable`]: it could not be set.
    MarkExecutableFailed(String),
}

/// What the host must do next. Every variant but the last two expects the
/// matching [`Event`] in return.
#[derive(Debug, PartialEq, Eq)]
pub enum Action {
    /// Report whether a file exists at the path.
    CheckFile(String),
    /// Tell the user an update check is under way, then ask the release index
    /// for the newest release of the named `owner/name` repository that has
    /// downloadable assets and is not a pre-release.
    FetchLatestRelease(String),
    /// Tell the user a download is under way, then download the archive at
    /// `url` and unpack it into `version_dir` according to `archive`.
    DownloadArchive { url: String, version_dir: String, archive: ArchiveKind },
    /// Grant execute permission on the file at the path.
    MakeExecutable(String),
    /// The attempt succeeded: the tool's binary sits at this path.
    Finish(String),
    /// The attempt failed; nothing was cached and nothing is retried.
    Fail(Error),
}

/// The orchestrator: the resolved path remembered across attempts, and the
/// phase of the attempt under way.
pub struct Resolver {
    pub cached_binary_path: Option<String>,
    pub phase: Phase,
}

/// Which events can answer the action issued in a phase.
pub open spec fn event_fits(ph: Phase, ev: Event) -> bool {
    match (ph, ev) {
        (Phase::CacheProbe { .. }, Event::FileStatus(_)) => true,
        (Phase::DevProbe { .. }, Event::FileStatus(_)) => true,
        (Phase::ReleaseWait { .. }, Event::ReleaseReady(_)) => true,
        (Phase::ReleaseWait { .. }, Event::ReleaseLookupFailed(_)) => true,
        (Phase::BinaryProbe { .. }, Event::FileStatus(_)) => true,
        (Phase::InstallWait { .. }, Event::Installed) => true,
        (Phase::InstallWait { .. }, Event::InstallFailed(_)) => true,
        (Phase::ChmodWait { .. }, Event::MarkedExecutable) => true,
        (Phase::ChmodWait { .. }, Event::MarkExecutableFailed(_)) => true,
        _ => false,
    }
}

/// How `start` relates the machine before and after, and the action issued:
/// a cached path is probed first; with no cache the developer-override path
/// derived from the worktree root is probed.
pub open spec fn start_rel(pre: Resolver, req: Request, post: Resolver, a: Action) -> bool {
    &&& post.cached_binary_path == pre.cached_binary_path
    &&& match pre.cached_binary_path {
        Some(p) => {
            &&& a matches Action::CheckFile(q) && q == p
            &&& post.phase matches Phase::CacheProbe { req: r, path } && r == req && path == p
        },
        None => {
            &&& a matches Action::CheckFile(q) && q@ == dev_override_path_spec(
                req.worktree_root@,
            )
            &&& post.phase matches Phase::DevProbe { req: r, path } && r == req && path@
                == dev_override_path_spec(req.worktree_root@)
        },
    }
}

/// The full transition table of one `on_event` step: for the phase the
/// machine stood in and the event that answered it, the action issued, the
/// phase moved to, and what happened to the cached path.
pub open spec fn step_rel(pre: Resolver, ev: Event, post: Resolver, a: Action) -> bool {
    match (pre.phase, ev) {
        // The cached path still exists: it is the answer, the cache stands.
        // Gone: fall through to the developer-override probe.
        (Phase::CacheProbe { req, path }, Event::FileStatus(present)) => if present {
            &&& a matches Action::Finish(p) && p == path
            &&& post.phase is Idle
            &&& post.cached_binary_path == pre.cached_binary_path
        } else {
            &&& a matches Action::CheckFile(p) && p@ == dev_override_path_spec(
                req.worktree_root@,
            )
            &&& post.phase matches Phase::DevProbe { req: r, path: q } && r == req && q@
                == dev_override_path_spec(req.worktree_root@)
            &&& post.cached_binary_path == pre.cached_binary_path
        },
        // A developer-supplied build preempts any download and is cached.
        // None: ask the release index.
        (Phase::DevProbe { req, path }, Event::FileStatus(present)) => if present {
            &&& a matches Action::Finish(p) && p == path
            &&& post.phase is Idle
            &&& post.cached_binary_path == Some(path)
        } else {
            &&& a matches Action::FetchLatestRelease(repo) && repo@ == github_repo_spec()
            &&& post.phase matches Phase::ReleaseWait { req: r } && r == req
            &&& post.cached_binary_path == pre.cached_binary_path
        },
        // A release arrived: select the platform's asset by its exact name.
        // With a match, derive the install plan and probe for an earlier
        // install of the same release; with none, the attempt fails.
        (Phase::ReleaseWait { req }, Event::ReleaseReady(rel)) => {
            let expected = asset_name_spec(req.platform.os, req.platform.arch);
            if has_asset(rel.assets@, expected) {
                &&& a matches Action::CheckFile(p) && p@ == binary_path_spec(
                    rel.version@,
                    req.platform.os,
                )
                &&& post.phase matches Phase::BinaryProbe {
                    url,
                    version_dir: dir,
                    archive,
                    binary_path: bin,
                } && {
                    &&& exists|i: int|
                        #![auto]
                        is_first_asset_match(rel.assets@, expected, i) && url@ == rel.assets@[i]
                            .download_url@
                    &&& dir@ == version_dir_spec(rel.version@)
                    &&& archive == archive_kind_spec(req.platform.os)
                    &&& bin@ == binary_path_spec(rel.version@, req.platform.os)
                }
                &&& post.cached_binary_path == pre.cached_binary_path
            } else {
                &&& a matches Action::Fail(e) && e matches Error::AssetNotFound(n) && n@
                    == expected
                &&& post.phase is Idle
                &&& post.cached_binary_path == pre.cached_binary_path
            }
        },
        (Phase::ReleaseWait { req }, Event::ReleaseLookupFailed(m)) => {
            &&& a matches Action::Fail(e) && e == Error::NoReleaseFound(m)
            &&& post.phase is Idle
            &&& post.cached_binary_path == pre.cached_binary_path
        },
        // The selected release is already on disk: reuse and cache it.
        // Otherwise: download and unpack it.
        (
            Phase::BinaryProbe { url, version_dir: dir, archive, binary_path: bin },
            Event::FileStatus(present),
        ) => if present {
            &&& a matches Action::Finish(p) && p == bin
            &&& post.phase is Idle
            &&& post.cached_binary_path == Some(bin)
        } else {
            &&& a matches Action::DownloadArchive { url: u, version_dir: d, archive: k } && u
                == url && d == dir && k == archive
            &&& post.phase matches Phase::InstallWait { binary_path: b } && b == bin
            &&& post.cached_binary_path == pre.cached_binary_path
        },
        // Unpacked: the binary must still be made executable.
        (Phase::InstallWait { binary_path: bin }, Event::Installed) => {
            &&& a matches Action::MakeExecutable(p) && p == bin
            &&& post.phase matches Phase::ChmodWait { binary_path: b } && b == bin
            &&& post.cached_binary_path == pre.cached_binary_path
        },
        (Phase::InstallWait { .. }, Event::InstallFailed(f)) => {
            &&& a matches Action::Fail(e) && e == (match f {
                InstallFault::Download(m) => Error::DownloadFailed(m),
                InstallFault::Extract(m) => Error::ExtractFailed(m),
            })
            &&& post.phase is Idle
            &&& post.cached_binary_path == pre.cached_binary_path
        },
        // Executable: the install is complete; the path is cached and
        // returned.
        (Phase::ChmodWait { binary_path: bin }, Event::MarkedExecutable) => {
            &&& a matches Action::Finish(p) && p == bin
            &&& post.phase is Idle
            &&& post.cached_binary_path == Some(bin)
        },
        (Phase::ChmodWait { .. }, Event::MarkExecutableFailed(m)) => {
            &&& a matches Action::Fail(e) && e == Error::PermissionFailed(m)
            &&& post.phase is Idle
            &&& post.cached_binary_path == pre.cached_binary_path
        },
        _ => false,
    }
}

impl Resolver {
    /// A fresh orchestrator: nothing cached, no attempt under way.
    pub fn new() -> (r: Resolver)
        ensures
            r.cached_binary_path is None,
            r.phase is Idle,
            wf(r),
    {
        Resolver { cached_binary_path: None, phase: Phase::Idle }
    }

    /// Begins a resolution attempt: issues the first file probe, on the
    /// cached path if one is remembered, else on the developer-override path.
    pub fn start(&mut self, req: Request) -> (a: Action)
        requires
            old(self).phase is Idle,
        ensures
            start_rel(*old(self), req, *final(self), a),
    {
        match &self.cached_binary_path {
            Some(p) => {
                let path = p.clone();
                let probe = path.clone();
                self.phase = Phase::CacheProbe { req, path };
                Action::CheckFile(probe)
            },
            None => {
                let path = dev_override_path(req.worktree_root.as_str());
                let probe = path.clone();
                self.phase = Phase::DevProbe { req, path };
                Action::CheckFile(probe)
            },
        }
    }

    /// Advances the attempt by one step: consumes the event answering the
    /// pending action and issues the next action, as [`step_rel`] states.
    pub fn on_event(&mut self, ev: Event) -> (a: Action)
        requires
            event_fits(old(self).phase, ev),
        ensures
            step_rel(*old(self), ev, *final(self), a),
    {
        let mut ph = Phase::Idle;
        core::mem::swap(&mut ph, &mut self.phase);
        match (ph, ev) {
            (Phase::CacheProbe { req, path }, Event::FileStatus(present)) => {
                if present {
                    Action::Finish(path)
                } else {
                    let dev = dev_override_path(req.worktree_root.as_str());
                    let probe = dev.clone();
                    self.phase = Phase::DevProbe { req, path: dev };
                    Action::CheckFile(probe)
                }
            },
            (Phase::DevProbe { req, path }, Event::FileStatus(present)) => {
                if present {
                    self.cached_binary_path = Some(path.clone());
                    Action::Finish(path)
                } else {
                    self.phase = Phase::ReleaseWait { req };
                    Action::FetchLatestRelease(String::from_str(github_repo()))
                }
            },
            (Phase::ReleaseWait { req }, Event::ReleaseReady(rel)) => {
                let expected = compute_asset_name(req.platform);
                match select_asset(&rel.assets, &expected) {
                    Some(i) => {
                        let url = rel.assets[i].download_url.clone();
                        let dir = version_dir(rel.version.as_str());
                        let bin = binary_path(rel.version.as_str(), req.platform.os);
                        let probe = bin.clone();
                        proof {
                            assert(is_first_asset_match(
                                rel.assets@,
                                asset_name_spec(req.platform.os, req.platform.arch),
                                i as int,
                            ));
                        }
                        self.phase = Phase::BinaryProbe {
                            url,
                            version_dir: dir,
                            archive: archive_kind(req.platform.os),
                            binary_path: bin,
                        };
                        Action::CheckFile(probe)
                    },
                    None => Action::Fail(Error::AssetNotFound(expected)),
                }
            },
            (Phase::ReleaseWait { req: _ }, Event::ReleaseLookupFailed(m)) => Action::Fail(
                Error::NoReleaseFound(m),
            ),
            (
                Phase::BinaryProbe { url, version_dir: dir, archive, binary_path: bin },
                Event::FileStatus(present),
            ) => {
                if present {
                    self.cached_binary_path = Some(bin.clone());
                    Action::Finish(bin)
                } else {
                    self.phase = Phase::InstallWait { binary_path: bin };
                    Action::DownloadArchive { url, version_dir: dir, archive }
                }
            },
            (Phase::InstallWait { binary_path: bin }, Event::Installed) => {
                let target = bin.clone();
                self.phase = Phase::ChmodWait { binary_path: bin };
                Action::MakeExecutable(target)
            },
            (Phase::InstallWait { binary_path: _ }, Event::InstallFailed(f)) => {
                match f {
                    InstallFault::Download(m) => Action::Fail(Error::DownloadFailed(m)),
                    InstallFault::Extract(m) => Action::Fail(Error::ExtractFailed(m)),
                }
            },
            (Phase::ChmodWait { binary_path: bin }, Event::MarkedExecutable) => {
                self.cached_binary_path = Some(bin.clone());
                Action::Finish(bin)
            },
            (Phase::ChmodWait { binary_path: _ }, Event::MarkExecutableFailed(m)) => Action::Fail(
                Error::PermissionFailed(m),
            ),
            _ => unreached(),
        }
    }
}

/// The machine's phases stay consistent with its memory: while the cached
/// path is being probed, the path the phase carries is the cached one.
pub open spec fn wf(r: Resolver) -> bool {
    r.phase matches Phase::CacheProbe { path, .. } ==> r.cached_binary_path == Some(path)
}

/// `start` establishes well-formedness from any idle machine.
pub proof fn lemma_start_preserves_wf(pre: Resolver, req: Request, post: Resolver, a: Action)
    requires
        pre.phase is Idle,
        start_rel(pre, req, post, a),
    ensures
        wf(post),
{
}

/// Every step out of a well-formed machine leaves it well-formed.
pub proof fn lemma_step_preserves_wf(pre: Resolver, ev: Event, post: Resolver, a: Action)
    requires
        wf(pre),
        step_rel(pre, ev, post, a),
    ensures
        wf(post),
{
}

/// Every successful resolution remembers exactly the path it answers with,
/// and leaves the machine idle: however the attempt succeeded — cache, the
/// developer override, an earlier install, or a fresh one.
pub proof fn lemma_finish_caches_result(
    pre: Resolver,
    ev: Event,
    post: Resolver,
    a: Action,
    p: String,
)
    requires
        wf(pre),
        step_rel(pre, ev, post, a),
        a == Action::Finish(p),
    ensures
        post.cached_binary_path == Some(p),
        post.phase is Idle,
{
}

/// `start` only ever probes a file: no attempt begins with a release lookup,
/// a download, or an answer.
pub proof fn lemma_start_issues_probe_only(pre: Resolver, req: Request, post: Resolver, a: Action)
    requires
        start_rel(pre, req, post, a),
    ensures
        a is CheckFile,
{
}

/// A remembered path whose file still exists is returned as it stands, after
/// the single file probe: the cache survives, and neither a release lookup
/// nor an install is ever requested.
pub proof fn lemma_cached_path_short_circuit(
    pre: Resolver,
    req: Request,
    mid: Resolver,
    a1: Action,
    post: Resolver,
    a2: Action,
    p: String,
)
    requires
        pre.phase is Idle,
        pre.cached_binary_path == Some(p),
        start_rel(pre, req, mid, a1),
        step_rel(mid, Event::FileStatus(true), post, a2),
    ensures
        a1 == Action::CheckFile(p),
        a2 == Action::Finish(p),
        post.cached_binary_path == Some(p),
        post.phase is Idle,
{
}

/// A remembered path whose file has disappeared is not returned: the attempt
/// moves on to the developer-override probe instead of finishing.
pub proof fn lemma_stale_cache_not_returned(
    pre: Resolver,
    req: Request,
    mid: Resolver,
    a1: Action,
    post: Resolver,
    a2: Action,
    p: String,
)
    requires
        pre.phase is Idle,
        pre.cached_binary_path == Some(p),
        start_rel(pre, req, mid, a1),
        step_rel(mid, Event::FileStatus(false), post, a2),
    ensures
        a2 matches Action::CheckFile(q) && q@ == dev_override_path_spec(req.worktree_root@),
        !(a2 is Finish),
        post.phase matches Phase::DevProbe { .. },
        post.cached_binary_path == Some(p),
{
}

/// A developer-supplied build found in the worktree is adopted: it becomes
/// the cached path and the attempt finishes with it at once.
pub proof fn lemma_dev_override_wins(
    pre: Resolver,
    post: Resolver,
    a: Action,
    req: Request,
    path: String,
)
    requires
        pre.phase == (Phase::DevProbe { req, path }),
        step_rel(pre, Event::FileStatus(true), post, a),
    ensures
        a == Action::Finish(path),
        post.cached_binary_path == Some(path),
        post.phase is Idle,
{
}

/// The release index is consulted only after the developer-override probe
/// reported the file missing: never while a cached or override binary
/// resolves the attempt.
pub proof fn lemma_release_lookup_only_after_override_miss(
    pre: Resolver,
    ev: Event,
    post: Resolver,
    a: Action,
)
    requires
        step_rel(pre, ev, post, a),
        a is FetchLatestRelease,
    ensures
        pre.phase is DevProbe,
        ev == Event::FileStatus(false),
{
}

/// A download is requested only after the probe for an already-installed
/// binary of the selected release reported it missing: at most one install
/// per attempt, and none when the release is already on disk.
pub proof fn lemma_install_only_after_binary_miss(
    pre: Resolver,
    ev: Event,
    post: Resolver,
    a: Action,
)
    requires
        step_rel(pre, ev, post, a),
        a is DownloadArchive,
    ensures
        pre.phase is BinaryProbe,
        ev == Event::FileStatus(false),
{
}

/// A release carrying no asset named for the platform fails the attempt with
/// the expected name in the error; nothing is downloaded and the cache is
/// untouched.
pub proof fn lemma_missing_asset_fails(
    pre: Resolver,
    rel: Release,
    post: Resolver,
    a: Action,
    req: Request,
)
    requires
        pre.phase == (Phase::ReleaseWait { req }),
        step_rel(pre, Event::ReleaseReady(rel), post, a),
        !has_asset(rel.assets@, asset_name_spec(req.platform.os, req.platform.arch)),
    ensures
        a matches Action::Fail(e) && e matches Error::AssetNotFound(n) && n@ == asset_name_spec(
            req.platform.os,
            req.platform.arch,
        ),
        !(a is DownloadArchive),
        post.phase is Idle,
        post.cached_binary_path == pre.cached_binary_path,
{
}

/// Once an install completes, the attempt finishes with the installed path,
/// and the next attempt returns the identical path after nothing but one
/// file probe: no release lookup, no download.
pub proof fn lemma_resolved_path_reused(
    s0: Resolver,
    bp: String,
    s1: Resolver,
    a0: Action,
    req: Request,
    s2: Resolver,
    a1: Action,
    s3: Resolver,
    a2: Action,
)
    requires
        s0.phase == (Phase::ChmodWait { binary_path: bp }),
        step_rel(s0, Event::MarkedExecutable, s1, a0),
        start_rel(s1, req, s2, a1),
        step_rel(s2, Event::FileStatus(true), s3, a2),
    ensures
        a0 == Action::Finish(bp),
        a1 == Action::CheckFile(bp),
        a2 == Action::Finish(bp),
        s3.cached_binary_path == Some(bp),
        s3.phase is Idle,
{
}

} // verus!
