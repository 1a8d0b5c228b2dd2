//! The provisioning state machine: from the provisioner's state and the
//! outcome of the last requested action to the next status and action.
use vstd::prelude::*;
use crate::platform::{asset_name_for, asset_name_of, current_platform, Architecture, Os};
use crate::release::{find_asset, has_asset, install_path_for, install_path_of, url_of, Release};

verus! {

/// What happens when a superseded entry of the install directory cannot be
/// removed.
#[derive(Clone, Copy, Debug, PartialEq, Eq, Structural)]
pub enum CleanupPolicy {
    /// The cycle fails with a cleanup error.
    FailFast,
    /// The entry is left in place and the cycle goes on.
    BestEffort,
}

/// The binary installed by the last successful cycle.
#[derive(Clone, Debug)]
pub struct CacheEntry {
    pub path: String,
    pub version: String,
}

/// What the host runs to start the language server.
#[derive(Clone, Debug)]
pub struct Command {
    pub command: String,
    pub args: Vec<String>,
    pub env: Vec<(String, String)>,
}

/// Why a provisioning cycle failed; each variant carries the detail of the
/// failure (for `AssetNotFound`, the asset name that was looked for).
#[derive(Clone, Debug)]
pub enum ProvisionError {
    ReleaseFetch(String),
    AssetNotFound(String),
    Download(String),
    Permission(String),
    DirectoryList(String),
    Cleanup(String),
}

/// The human-readable text of an error.
pub open spec fn message_of(e: ProvisionError) -> Seq<char> {
    match e {
        ProvisionError::ReleaseFetch(d) => "failed to find release: "@ + d@,
        ProvisionError::AssetNotFound(d) => "no asset found matching "@ + d@,
        ProvisionError::Download(d) => "failed to download file: "@ + d@,
        ProvisionError::Permission(d) => "failed to make file executable: "@ + d@,
        ProvisionError::DirectoryList(d) => "failed to list working directory: "@ + d@,
        ProvisionError::Cleanup(d) => "failed to remove file: "@ + d@,
    }
}

impl ProvisionError {
    /// Describes the error in words.
    pub fn message(&self) -> (r: String)
        ensures
            r@ == message_of(*self),
    {
        let (prefix, detail) = match self {
            ProvisionError::ReleaseFetch(d) => ("failed to find release: ", d),
            ProvisionError::AssetNotFound(d) => ("no asset found matching ", d),
            ProvisionError::Download(d) => ("failed to download file: ", d),
            ProvisionError::Permission(d) => ("failed to make file executable: ", d),
            ProvisionError::DirectoryList(d) => ("failed to list working directory: ", d),
            ProvisionError::Cleanup(d) => ("failed to remove file: ", d),
        };
        proof {
            reveal_strlit("failed to find release: ");
            reveal_strlit("no asset found matching ");
            reveal_strlit("failed to download file: ");
            reveal_strlit("failed to make file executable: ");
            reveal_strlit("failed to list working directory: ");
            reveal_strlit("failed to remove file: ");
        }
        let mut r = String::from_str(prefix);
        r.append(detail.as_str());
        r
    }
}

/// The views of a sequence of strings.
pub open spec fn names(v: Seq<String>) -> Seq<Seq<char>> {
    v.map_values(|s: String| s@)
}

/// The entries of a directory listing, in order, whose names differ from
/// `keep`.
pub open spec fn stale_of(entries: Seq<String>, keep: Seq<char>) -> Seq<Seq<char>>
    decreases entries.len(),
{
    if entries.len() == 0 {
        Seq::empty()
    } else {
        let rest = stale_of(entries.drop_last(), keep);
        if entries.last()@ == keep {
            rest
        } else {
            rest.push(entries.last()@)
        }
    }
}

/// Selects, in order, the directory entries that are not `keep`.
pub fn stale_entries(entries: &Vec<String>, keep: &String) -> (r: Vec<String>)
    ensures
        names(r@) == stale_of(entries@, keep@),
{
    let mut r: Vec<String> = Vec::new();
    let mut i: usize = 0;
    while i < entries.len()
        invariant
            i <= entries@.len(),
            names(r@) == stale_of(entries@.subrange(0, i as int), keep@),
        decreases entries@.len() - i,
    {
        let ghost before = r@;
        assert(entries@.subrange(0, i + 1).drop_last() =~= entries@.subrange(0, i as int));
        if entries[i] != *keep {
            r.push(entries[i].clone());
            assert(names(r@) =~= names(before).push(entries@[i as int]@));
        }
        i = i + 1;
    }
    assert(entries@.subrange(0, entries@.len() as int) =~= entries@);
    r
}

/// The installation status reported to the host.
#[derive(Clone, Debug)]
pub enum Status {
    CheckingForUpdate,
    Downloading,
    Idle,
    Failed(String),
}

/// Where a provisioning cycle stands, with what it has learned so far.
#[derive(Clone, Debug)]
pub enum Phase {
    /// No cycle is under way.
    Ready,
    /// Waiting for the latest release; `asset` is the asset name looked for.
    AwaitRelease { asset: String },
    /// Waiting to learn whether the cached binary is still a file.
    AwaitCachedFile { path: String, version: String, url: String },
    /// Waiting to learn whether the install target is already a file.
    AwaitTargetFile { target: String, version: String, url: String },
    /// Waiting for the download of the target.
    AwaitDownload { target: String, version: String },
    /// Waiting for the target to be made executable.
    AwaitExecutable { target: String, version: String },
    /// Waiting for the names in the install directory.
    AwaitListing { target: String, version: String },
    /// Removing the superseded entries `stale`, the one at `next` first.
    Cleaning { target: String, version: String, stale: Vec<String>, next: usize },
}

/// The outcome of the last requested action.
#[derive(Clone, Debug)]
pub enum Event {
    /// A cycle starts on the given platform.
    Begin(Os, Architecture),
    ReleaseFetched(Release),
    ReleaseFailed(String),
    /// Whether the checked path is a regular file.
    FileChecked(bool),
    Downloaded,
    DownloadFailed(String),
    MadeExecutable,
    PermissionFailed(String),
    /// The names of the install directory's immediate entries.
    Listed(Vec<String>),
    ListFailed(String),
    Removed,
    RemoveFailed(String),
}

/// What the caller is to do next.
#[derive(Debug)]
pub enum Action {
    FetchRelease,
    /// Find out whether the path is a regular file.
    CheckFile(String),
    /// Download `url`, uncompressed, to `path`.
    Download { url: String, path: String },
    MakeExecutable(String),
    ListDirectory,
    Remove(String),
    /// The cycle is over, with this result.
    Finish(Result<Command, ProvisionError>),
}

/// One transition: the status to report first, if any, and the next action.
#[derive(Debug)]
pub struct Step {
    pub status: Option<Status>,
    pub action: Action,
}

/// The provisioner: the tool whose binary it installs, its cleanup policy,
/// the cached install, and the phase of the current cycle.
pub struct NorminetteExtension {
    pub tool: String,
    pub policy: CleanupPolicy,
    pub cache: Option<CacheEntry>,
    pub phase: Phase,
}

/// Whether the cache holds an install of `version`.
pub open spec fn hits(cache: Option<CacheEntry>, version: Seq<char>) -> bool {
    cache matches Some(c) && c.version@ == version
}

/// Whether `ev` is an outcome that `phase` waits for.
pub open spec fn accepts_spec(phase: Phase, ev: Event) -> bool {
    match phase {
        Phase::Ready => ev is Begin,
        Phase::AwaitRelease { .. } => ev is ReleaseFetched || ev is ReleaseFailed,
        Phase::AwaitCachedFile { .. } => ev is FileChecked,
        Phase::AwaitTargetFile { .. } => ev is FileChecked,
        Phase::AwaitDownload { .. } => ev is Downloaded || ev is DownloadFailed,
        Phase::AwaitExecutable { .. } => ev is MadeExecutable || ev is PermissionFailed,
        Phase::AwaitListing { .. } => ev is Listed || ev is ListFailed,
        Phase::Cleaning { stale, next, .. } => next < stale@.len() && (ev is Removed
            || ev is RemoveFailed),
    }
}

/// The cycle ends in failure with `err`: the cache is kept, a Failed status
/// carrying the error's text is reported, and nothing else is asked for.
pub open spec fn failed(s: NorminetteExtension, t: NorminetteExtension, out: Step, err: ProvisionError) -> bool {
    &&& t.phase is Ready
    &&& t.cache == s.cache
    &&& out.status matches Some(Status::Failed(m)) && m@ == message_of(err)
    &&& out.action == Action::Finish(Err(err))
}

/// The command that runs the binary at `path`, with no arguments and no
/// environment.
pub open spec fn runs(c: Command, path: Seq<char>) -> bool {
    c.command@ == path && c.args@.len() == 0 && c.env@.len() == 0
}

/// The cycle ends with `path` served from the cache: nothing changes but the
/// phase, the status goes back to Idle.
pub open spec fn served(s: NorminetteExtension, t: NorminetteExtension, out: Step, path: Seq<char>) -> bool {
    &&& t.phase is Ready
    &&& t.cache == s.cache
    &&& out.status == Some(Status::Idle)
    &&& out.action matches Action::Finish(Ok(c)) && runs(c, path)
}

/// The cycle ends with `target` installed as `version`: the cache records
/// it, the status goes back to Idle, and the command runs it.
pub open spec fn installed(
    t: NorminetteExtension,
    out: Step,
    target: Seq<char>,
    version: Seq<char>,
) -> bool {
    &&& t.phase is Ready
    &&& t.cache matches Some(c) && c.path@ == target && c.version@ == version
    &&& out.status == Some(Status::Idle)
    &&& out.action matches Action::Finish(Ok(c)) && runs(c, target)
}

/// A fresh install of `version` from `url` starts: the caller is asked
/// whether its versioned install path is already a file.
pub open spec fn starts_install(
    s: NorminetteExtension,
    t: NorminetteExtension,
    out: Step,
    version: Seq<char>,
    url: Seq<char>,
) -> bool {
    &&& t.phase matches Phase::AwaitTargetFile { target, version: v, url: u } && target@
        == install_path_of(s.tool@, version) && v@ == version && u@ == url
    &&& out.status is None
    &&& out.action matches Action::CheckFile(p) && p@ == install_path_of(s.tool@, version)
}

/// The cleanup goes on after the entry at `next` of `stale`: to the one after
/// it, or, where it was the last, to the end of the install.
pub open spec fn advanced(
    s: NorminetteExtension,
    t: NorminetteExtension,
    out: Step,
    target: String,
    version: String,
    stale: Vec<String>,
    next: usize,
) -> bool {
    if next + 1 == stale@.len() {
        installed(t, out, target@, version@)
    } else {
        &&& t.cache == s.cache
        &&& t.phase matches Phase::Cleaning { target: t2, version: v2, stale: s2, next: n2 }
            && t2 == target && v2 == version && s2 == stale && n2 == next + 1
        &&& out.status is None
        &&& out.action matches Action::Remove(p) && p@ == stale@[next + 1]@
    }
}

/// What one transition does, from state `s` and outcome `ev` to state `t`
/// and output `out`.
pub open spec fn step_post(s: NorminetteExtension, ev: Event, t: NorminetteExtension, out: Step) -> bool {
    &&& t.tool == s.tool
    &&& t.policy == s.policy
    &&& match s.phase {
        Phase::Ready => match ev {
            Event::Begin(os, arch) => {
                &&& t.cache == s.cache
                &&& t.phase matches Phase::AwaitRelease { asset } && asset@ == asset_name_of(
                    s.tool@,
                    os,
                    arch,
                )
                &&& out.status == Some(Status::CheckingForUpdate)
                &&& out.action is FetchRelease
            },
            _ => false,
        },
        Phase::AwaitRelease { asset } => match ev {
            Event::ReleaseFailed(e) => failed(s, t, out, ProvisionError::ReleaseFetch(e)),
            Event::ReleaseFetched(rel) => if !has_asset(rel.assets@, asset@) {
                failed(s, t, out, ProvisionError::AssetNotFound(asset))
            } else if hits(s.cache, rel.version@) {
                &&& t.cache == s.cache
                &&& t.phase matches Phase::AwaitCachedFile { path, version, url } && path
                    == s.cache->Some_0.path && version@ == rel.version@ && url@ == url_of(rel.assets@, asset@)
                &&& out.status is None
                &&& out.action matches Action::CheckFile(p) && p@ == s.cache->Some_0.path@
            } else {
                &&& t.cache == s.cache
                &&& starts_install(s, t, out, rel.version@, url_of(rel.assets@, asset@))
            },
            _ => false,
        },
        Phase::AwaitCachedFile { path, version, url } => match ev {
            Event::FileChecked(true) => served(s, t, out, path@),
            Event::FileChecked(false) => {
                &&& t.cache is None
                &&& starts_install(s, t, out, version@, url@)
            },
            _ => false,
        },
        Phase::AwaitTargetFile { target, version, url } => match ev {
            Event::FileChecked(false) => {
                &&& t.cache == s.cache
                &&& t.phase matches Phase::AwaitDownload { target: t2, version: v2 } && t2
                    == target && v2 == version
                &&& out.status == Some(Status::Downloading)
                &&& out.action matches Action::Download { url: u, path: p } && u == url && p@
                    == target@
            },
            Event::FileChecked(true) => {
                &&& t.cache == s.cache
                &&& t.phase matches Phase::AwaitListing { target: t2, version: v2 } && t2
                    == target && v2 == version
                &&& out.status is None
                &&& out.action is ListDirectory
            },
            _ => false,
        },
        Phase::AwaitDownload { target, version } => match ev {
            Event::Downloaded => {
                &&& t.cache == s.cache
                &&& t.phase matches Phase::AwaitExecutable { target: t2, version: v2 } && t2
                    == target && v2 == version
                &&& out.status is None
                &&& out.action matches Action::MakeExecutable(p) && p@ == target@
            },
            Event::DownloadFailed(e) => failed(s, t, out, ProvisionError::Download(e)),
            _ => false,
        },
        Phase::AwaitExecutable { target, version } => match ev {
            Event::MadeExecutable => {
                &&& t.cache == s.cache
                &&& t.phase matches Phase::AwaitListing { target: t2, version: v2 } && t2
                    == target && v2 == version
                &&& out.status is None
                &&& out.action is ListDirectory
            },
            Event::PermissionFailed(e) => failed(s, t, out, ProvisionError::Permission(e)),
            _ => false,
        },
        Phase::AwaitListing { target, version } => match ev {
            Event::Listed(entries) => if stale_of(entries@, target@).len() == 0 {
                installed(t, out, target@, version@)
            } else {
                &&& t.cache == s.cache
                &&& t.phase matches Phase::Cleaning { target: t2, version: v2, stale, next }
                    && t2 == target && v2 == version && names(stale@) == stale_of(
                    entries@,
                    target@,
                ) && next == 0
                &&& out.status is None
                &&& out.action matches Action::Remove(p) && p@ == stale_of(entries@, target@)[0]
            },
            Event::ListFailed(e) => failed(s, t, out, ProvisionError::DirectoryList(e)),
            _ => false,
        },
        Phase::Cleaning { target, version, stale, next } => match ev {
            Event::Removed => advanced(s, t, out, target, version, stale, next),
            Event::RemoveFailed(e) => if s.policy == CleanupPolicy::FailFast {
                failed(s, t, out, ProvisionError::Cleanup(e))
            } else {
                advanced(s, t, out, target, version, stale, next)
            },
            _ => false,
        },
    }
}

impl NorminetteExtension {
    /// A provisioner for the norminette language server, failing fast on
    /// cleanup errors, with nothing cached.
    pub fn new() -> (r: Self)
        ensures
            r.tool@ == "norminette_lsp"@,
            r.policy == CleanupPolicy::FailFast,
            r.cache is None,
            r.phase is Ready,
    {
        proof {
            reveal_strlit("norminette_lsp");
        }
        Self::with_tool("norminette_lsp", CleanupPolicy::FailFast)
    }

    /// A provisioner for `tool` with the given cleanup policy, with nothing
    /// cached.
    pub fn with_tool(tool: &str, policy: CleanupPolicy) -> (r: Self)
        ensures
            r.tool@ == tool@,
            r.policy == policy,
            r.cache is None,
            r.phase is Ready,
    {
        NorminetteExtension {
            tool: String::from_str(tool),
            policy,
            cache: None,
            phase: Phase::Ready,
        }
    }

    /// The name of the release asset built for the platform that the host
    /// runs on.
    pub fn asset_name(&self) -> (r: String)
        ensures
            exists|os: Os, arch: Architecture| r@ == asset_name_of(self.tool@, os, arch),
    {
        let (os, arch) = current_platform();
        asset_name_for(self.tool.as_str(), os, arch)
    }

    /// Whether `ev` is an outcome that the current phase waits for.
    pub fn accepts(&self, ev: &Event) -> (r: bool)
        ensures
            r == accepts_spec(self.phase, *ev),
    {
        match &self.phase {
            Phase::Ready => matches!(ev, Event::Begin(..)),
            Phase::AwaitRelease { .. } => matches!(ev, Event::ReleaseFetched(_) | Event::ReleaseFailed(_)),
            Phase::AwaitCachedFile { .. } => matches!(ev, Event::FileChecked(_)),
            Phase::AwaitTargetFile { .. } => matches!(ev, Event::FileChecked(_)),
            Phase::AwaitDownload { .. } => matches!(ev, Event::Downloaded | Event::DownloadFailed(_)),
            Phase::AwaitExecutable { .. } => matches!(ev, Event::MadeExecutable | Event::PermissionFailed(_)),
            Phase::AwaitListing { .. } => matches!(ev, Event::Listed(_) | Event::ListFailed(_)),
            Phase::Cleaning { stale, next, .. } => *next < stale.len() && matches!(
                ev,
                Event::Removed | Event::RemoveFailed(_)
            ),
        }
    }

    /// Ends the cycle in failure with `err`.
    fn fail(&mut self, err: ProvisionError) -> (r: Step)
        ensures
            failed(*old(self), *final(self), r, err),
            final(self).tool == old(self).tool,
            final(self).policy == old(self).policy,
    {
        let m = err.message();
        self.phase = Phase::Ready;
        Step { status: Some(Status::Failed(m)), action: Action::Finish(Err(err)) }
    }

    /// Ends the cycle with `target` installed as `version`.
    fn finish_install(&mut self, target: String, version: String) -> (r: Step)
        ensures
            installed(*final(self), r, target@, version@),
            final(self).tool == old(self).tool,
            final(self).policy == old(self).policy,
    {
        let command = Command { command: target.clone(), args: Vec::new(), env: Vec::new() };
        self.cache = Some(CacheEntry { path: target, version });
        self.phase = Phase::Ready;
        Step { status: Some(Status::Idle), action: Action::Finish(Ok(command)) }
    }

    /// Starts a fresh install of `version`, downloadable from `url`: asks
    /// whether its versioned install path is already a file.
    pub fn cache_new(&mut self, version: String, url: String) -> (r: Step)
        ensures
            starts_install(*old(self), *final(self), r, version@, url@),
            final(self).cache == old(self).cache,
            final(self).tool == old(self).tool,
            final(self).policy == old(self).policy,
    {
        let target = install_path_for(self.tool.as_str(), version.as_str());
        let check = target.clone();
        self.phase = Phase::AwaitTargetFile { target, version, url };
        Step { status: None, action: Action::CheckFile(check) }
    }

    /// Goes on with the cleanup after the entry at `next` of `stale`.
    fn advance(&mut self, target: String, version: String, stale: Vec<String>, next: usize) -> (r: Step)
        requires
            next < stale@.len(),
        ensures
            advanced(*old(self), *final(self), r, target, version, stale, next),
            final(self).tool == old(self).tool,
            final(self).policy == old(self).policy,
    {
        if next == stale.len() - 1 {
            self.finish_install(target, version)
        } else {
            let p = stale[next + 1].clone();
            self.phase = Phase::Cleaning { target, version, stale, next: next + 1 };
            Step { status: None, action: Action::Remove(p) }
        }
    }

    /// Takes the outcome of the last requested action and returns the status
    /// to report, if any, and the next action.
    pub fn step(&mut self, ev: Event) -> (r: Step)
        requires
            accepts_spec(old(self).phase, ev),
        ensures
            step_post(*old(self), ev, *final(self), r),
    {
        let mut phase = Phase::Ready;
        std::mem::swap(&mut self.phase, &mut phase);
        match phase {
            Phase::Ready => match ev {
                Event::Begin(os, arch) => {
                    let asset = asset_name_for(self.tool.as_str(), os, arch);
                    self.phase = Phase::AwaitRelease { asset };
                    Step { status: Some(Status::CheckingForUpdate), action: Action::FetchRelease }
                },
                _ => Step { status: None, action: Action::FetchRelease },
            },
            Phase::AwaitRelease { asset } => match ev {
                Event::ReleaseFailed(e) => self.fail(ProvisionError::ReleaseFetch(e)),
                Event::ReleaseFetched(rel) => match find_asset(&rel.assets, &asset) {
                    None => self.fail(ProvisionError::AssetNotFound(asset)),
                    Some(i) => {
                        let url = rel.assets[i].download_url.clone();
                        let hit = match &self.cache {
                            Some(c) => c.version == rel.version,
                            None => false,
                        };
                        if hit {
                            let path = self.cache.as_ref().unwrap().path.clone();
                            let check = path.clone();
                            self.phase = Phase::AwaitCachedFile { path, version: rel.version, url };
                            Step { status: None, action: Action::CheckFile(check) }
                        } else {
                            self.cache_new(rel.version, url)
                        }
                    },
                },
                _ => Step { status: None, action: Action::FetchRelease },
            },
            Phase::AwaitCachedFile { path, version, url } => match ev {
                Event::FileChecked(true) => {
                    let command = Command { command: path, args: Vec::new(), env: Vec::new() };
                    Step { status: Some(Status::Idle), action: Action::Finish(Ok(command)) }
                },
                _ => {
                    self.cache = None;
                    self.cache_new(version, url)
                },
            },
            Phase::AwaitTargetFile { target, version, url } => match ev {
                Event::FileChecked(false) => {
                    let path = target.clone();
                    self.phase = Phase::AwaitDownload { target, version };
                    Step { status: Some(Status::Downloading), action: Action::Download { url, path } }
                },
                _ => {
                    self.phase = Phase::AwaitListing { target, version };
                    Step { status: None, action: Action::ListDirectory }
                },
            },
            Phase::AwaitDownload { target, version } => match ev {
                Event::DownloadFailed(e) => self.fail(ProvisionError::Download(e)),
                _ => {
                    let path = target.clone();
                    self.phase = Phase::AwaitExecutable { target, version };
                    Step { status: None, action: Action::MakeExecutable(path) }
                },
            },
            Phase::AwaitExecutable { target, version } => match ev {
                Event::PermissionFailed(e) => self.fail(ProvisionError::Permission(e)),
                _ => {
                    self.phase = Phase::AwaitListing { target, version };
                    Step { status: None, action: Action::ListDirectory }
                },
            },
            Phase::AwaitListing { target, version } => match ev {
                Event::Listed(entries) => {
                    let stale = stale_entries(&entries, &target);
                    if stale.len() == 0 {
                        self.finish_install(target, version)
                    } else {
                        let p = stale[0].clone();
                        self.phase = Phase::Cleaning { target, version, stale, next: 0 };
                        Step { status: None, action: Action::Remove(p) }
                    }
                },
                Event::ListFailed(e) => self.fail(ProvisionError::DirectoryList(e)),
                _ => Step { status: None, action: Action::ListDirectory },
            },
            Phase::Cleaning { target, version, stale, next } => match ev {
                Event::RemoveFailed(e) => if self.policy == CleanupPolicy::FailFast {
                    self.fail(ProvisionError::Cleanup(e))
                } else {
                    self.advance(target, version, stale, next)
                },
                _ => self.advance(target, version, stale, next),
            },
        }
    }
}

} // verus!
