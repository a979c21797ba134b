use vstd::prelude::*;

use crate::error::BuildError;
use crate::flags::{compose, opt_view, plan_for, BuildPlan, PackageMetadata, ResolvedDependency};
use crate::text::texts;
use crate::version::{first_nonblank, first_output_line, resource_suffix};

verus! {

/// The memory ceiling of the build sandbox unless configured otherwise: 1 GiB.
pub const DEFAULT_MEMORY_LIMIT: usize = 1024 * 1024 * 1024;

/// The stages of one build, in the order in which they are reached.
#[derive(Debug, Clone, Copy, PartialEq, Eq, Structural)]
pub enum Stage {
    Init,
    ToolchainReady,
    CrateStaged,
    MetadataResolved,
    DependenciesResolved,
    FlagsComposed,
    Executed,
}

/// The resources that the sandboxed build may use.
#[derive(Debug, Clone, Copy, PartialEq, Eq, Structural)]
pub struct SandboxPolicy {
    /// Memory ceiling in bytes.
    pub memory_limit: usize,
    /// Whether the build may reach the network.
    pub networking: bool,
}

/// The settings that one build runs under.
#[derive(Debug, Clone, PartialEq, Eq)]
pub struct BuildConfig {
    /// The compiler release channel to install and build with.
    pub channel: String,
    pub sandbox: SandboxPolicy,
}

impl BuildConfig {
    /// The pre-release channel (documentation needs its unstable flags), a
    /// memory ceiling of 1 GiB and no network.
    pub fn new() -> (r: BuildConfig)
        ensures
            r.channel@ == "nightly"@,
            r.sandbox.memory_limit == DEFAULT_MEMORY_LIMIT,
            !r.sandbox.networking,
    {
        BuildConfig {
            channel: "nightly".to_owned(),
            sandbox: SandboxPolicy { memory_limit: DEFAULT_MEMORY_LIMIT, networking: false },
        }
    }
}

/// The package version to document, and for which target.
#[derive(Debug, Clone, PartialEq, Eq)]
pub struct BuildRequest {
    pub name: String,
    pub version: String,
    pub target: Option<String>,
}

/// How far a build has come: resting after a stage, done, or stopped while
/// working towards a stage.
#[derive(Debug, Clone, PartialEq, Eq)]
pub enum Progress {
    At(Stage),
    Succeeded,
    Failed(Stage, BuildError),
}

/// What the driver asks its runner to do next.
#[derive(Debug, Clone, PartialEq, Eq)]
pub enum Action {
    InstallToolchain { channel: String, target: Option<String> },
    FetchCrate { name: String, version: String },
    /// Read the staged package's manifest and its documentation metadata.
    LoadMetadata,
    /// Take the process-wide package-cache lock.
    AcquireCacheLock,
    /// Resolve the direct dependencies, under the lock.
    ResolveDependencies,
    ReleaseCacheLock,
    /// Run the compiler's version report and hand back its output lines.
    ProbeCompilerVersion,
    /// Run the planned build in a sandbox with this policy.
    RunBuild { sandbox: SandboxPolicy },
    Stop,
}

/// What came of the last action.
#[derive(Debug)]
pub enum Event {
    ToolchainInstalled(Result<(), String>),
    CrateFetched(Result<(), String>),
    MetadataLoaded(Result<PackageMetadata, String>),
    CacheLocked(Result<(), String>),
    DependenciesResolved(Result<Vec<ResolvedDependency>, String>),
    CacheReleased,
    /// The lines of the version report, or why it could not run.
    VersionReported(Result<Vec<String>, String>),
    /// Whether the build exited with success, or why it could not start.
    BuildFinished(Result<bool, String>),
}

/// The decisions of one documentation build, from the request to the
/// outcome. Its runner performs each action and hands back what came of it.
#[derive(Debug, Clone, PartialEq, Eq)]
pub struct BuildDriver {
    pub request: BuildRequest,
    pub config: BuildConfig,
    pub progress: Progress,
    /// Whether the package-cache lock is held now.
    pub lock_held: bool,
    pub metadata: Option<PackageMetadata>,
    pub deps: Vec<ResolvedDependency>,
    pub plan: Option<BuildPlan>,
}

pub open spec fn rank(s: Stage) -> int {
    match s {
        Stage::Init => 0,
        Stage::ToolchainReady => 1,
        Stage::CrateStaged => 2,
        Stage::MetadataResolved => 3,
        Stage::DependenciesResolved => 4,
        Stage::FlagsComposed => 5,
        Stage::Executed => 6,
    }
}

pub open spec fn target_view(r: BuildRequest) -> Option<Seq<char>> {
    match r.target {
        Some(t) => Some(t@),
        None => None,
    }
}

impl BuildDriver {
    /// The lock is held only around dependency resolution; the stages that
    /// follow a stage have what it produced.
    pub open spec fn wf(self) -> bool {
        &&& self.lock_held ==> match self.progress {
            Progress::At(s) => s == Stage::MetadataResolved || s == Stage::DependenciesResolved,
            Progress::Failed(s, _) => s == Stage::DependenciesResolved,
            Progress::Succeeded => false,
        }
        &&& match self.progress {
            Progress::At(s) => {
                &&& s != Stage::Executed
                &&& rank(s) >= 3 ==> self.metadata is Some
                &&& s == Stage::FlagsComposed ==> self.plan is Some
            },
            _ => true,
        }
    }

    /// `a` is what comes next for the driver `d`.
    pub open spec fn action_for(d: BuildDriver, a: Action) -> bool {
        match d.progress {
            Progress::Succeeded | Progress::Failed(_, _) => if d.lock_held {
                a is ReleaseCacheLock
            } else {
                a is Stop
            },
            Progress::At(Stage::Init) => a == Action::InstallToolchain {
                channel: d.config.channel,
                target: d.request.target,
            },
            Progress::At(Stage::ToolchainReady) => a == Action::FetchCrate {
                name: d.request.name,
                version: d.request.version,
            },
            Progress::At(Stage::CrateStaged) => a is LoadMetadata,
            Progress::At(Stage::MetadataResolved) => if d.lock_held {
                a is ResolveDependencies
            } else {
                a is AcquireCacheLock
            },
            Progress::At(Stage::DependenciesResolved) => if d.lock_held {
                a is ReleaseCacheLock
            } else {
                a is ProbeCompilerVersion
            },
            Progress::At(Stage::FlagsComposed) => a == Action::RunBuild { sandbox: d.config.sandbox },
            Progress::At(Stage::Executed) => a is Stop,
        }
    }

    /// `d` stopped working towards `stage` with error `e`, and nothing else changed.
    pub open spec fn failed_with(d: BuildDriver, n: BuildDriver, stage: Stage, e: BuildError) -> bool {
        n == BuildDriver { progress: Progress::Failed(stage, e), ..d }
    }

    /// `d` moved on to `stage`, and nothing else changed.
    pub open spec fn moved_to(d: BuildDriver, n: BuildDriver, stage: Stage) -> bool {
        n == BuildDriver { progress: Progress::At(stage), ..d }
    }

    /// How the driver `d` becomes `n` on the event `e`; an event that does
    /// not answer the pending action changes nothing.
    pub open spec fn step(d: BuildDriver, e: Event, n: BuildDriver) -> bool {
        match (d.progress, e) {
            (Progress::At(Stage::Init), Event::ToolchainInstalled(Ok(()))) =>
                Self::moved_to(d, n, Stage::ToolchainReady),
            (Progress::At(Stage::Init), Event::ToolchainInstalled(Err(m))) =>
                Self::failed_with(d, n, Stage::ToolchainReady, BuildError::Toolchain(m)),
            (Progress::At(Stage::ToolchainReady), Event::CrateFetched(Ok(()))) =>
                Self::moved_to(d, n, Stage::CrateStaged),
            (Progress::At(Stage::ToolchainReady), Event::CrateFetched(Err(m))) =>
                Self::failed_with(d, n, Stage::CrateStaged, BuildError::Fetch(m)),
            (Progress::At(Stage::CrateStaged), Event::MetadataLoaded(Ok(md))) =>
                n == BuildDriver { progress: Progress::At(Stage::MetadataResolved), metadata: Some(md), ..d },
            (Progress::At(Stage::CrateStaged), Event::MetadataLoaded(Err(m))) =>
                Self::failed_with(d, n, Stage::MetadataResolved, BuildError::Metadata(m)),
            (Progress::At(Stage::MetadataResolved), Event::CacheLocked(Ok(()))) if !d.lock_held =>
                n == BuildDriver { lock_held: true, ..d },
            (Progress::At(Stage::MetadataResolved), Event::CacheLocked(Err(m))) if !d.lock_held =>
                Self::failed_with(d, n, Stage::DependenciesResolved, BuildError::Resolution(m)),
            (Progress::At(Stage::MetadataResolved), Event::DependenciesResolved(Ok(deps))) if d.lock_held =>
                n == BuildDriver { progress: Progress::At(Stage::DependenciesResolved), deps: deps, ..d },
            (Progress::At(Stage::MetadataResolved), Event::DependenciesResolved(Err(m))) if d.lock_held =>
                Self::failed_with(d, n, Stage::DependenciesResolved, BuildError::Resolution(m)),
            (_, Event::CacheReleased) if d.lock_held => n == BuildDriver { lock_held: false, ..d },
            (Progress::At(Stage::DependenciesResolved), Event::VersionReported(Err(m))) if !d.lock_held =>
                Self::failed_with(d, n, Stage::FlagsComposed, BuildError::Probe(m)),
            (Progress::At(Stage::DependenciesResolved), Event::VersionReported(Ok(lines))) if !d.lock_held =>
                match first_nonblank(texts(lines@)) {
                    Some(v) if resource_suffix(v) is Some => {
                        &&& n == BuildDriver { progress: Progress::At(Stage::FlagsComposed), plan: n.plan, ..d }
                        &&& n.plan is Some
                        &&& plan_for(n.plan->0, d.metadata->0, v, d.deps@, target_view(d.request))
                    },
                    _ => {
                        &&& n == BuildDriver { progress: n.progress, ..d }
                        &&& n.progress matches Progress::Failed(Stage::FlagsComposed, BuildError::Probe(_))
                    },
                },
            (Progress::At(Stage::FlagsComposed), Event::BuildFinished(Ok(true))) =>
                n == BuildDriver { progress: Progress::Succeeded, ..d },
            (Progress::At(Stage::FlagsComposed), Event::BuildFinished(Ok(false))) => {
                &&& n == BuildDriver { progress: n.progress, ..d }
                &&& n.progress matches Progress::Failed(Stage::Executed, BuildError::Execution(_))
            },
            (Progress::At(Stage::FlagsComposed), Event::BuildFinished(Err(m))) =>
                Self::failed_with(d, n, Stage::Executed, BuildError::Execution(m)),
            _ => n == d,
        }
    }

    /// Every transition keeps the driver well formed: the package-cache lock
    /// is taken only for dependency resolution and is never held while the
    /// build runs or after it ends.
    pub proof fn lemma_step_keeps_lock_discipline(d: BuildDriver, e: Event, n: BuildDriver)
        requires
            d.wf(),
            Self::step(d, e, n),
        ensures
            n.wf(),
            n.lock_held ==> !(n.progress is Succeeded),
            n.progress == Progress::At(Stage::FlagsComposed) ==> !n.lock_held,
    {
    }

    /// A driver for `request` that has done nothing yet.
    pub fn new(request: BuildRequest, config: BuildConfig) -> (r: BuildDriver)
        ensures
            r.wf(),
            r.request == request,
            r.config == config,
            r.progress == Progress::At(Stage::Init),
            !r.lock_held,
            r.metadata is None,
            r.deps@.len() == 0,
            r.plan is None,
    {
        BuildDriver {
            request,
            config,
            progress: Progress::At(Stage::Init),
            lock_held: false,
            metadata: None,
            deps: Vec::new(),
            plan: None,
        }
    }
    fn is_at(&self, s: Stage) -> (r: bool)
        ensures
            r == (self.progress == Progress::At(s)),
    {
        match &self.progress {
            Progress::At(t) => *t == s,
            _ => false,
        }
    }

    /// What the runner is to do next. The build never runs while the cache
    /// lock is held, and the driver never stops with the lock held.
    pub fn next_action(&self) -> (a: Action)
        requires
            self.wf(),
        ensures
            Self::action_for(*self, a),
            a is RunBuild ==> !self.lock_held,
            a is Stop ==> !self.lock_held,
    {
        match &self.progress {
            Progress::Succeeded | Progress::Failed(_, _) => {
                if self.lock_held {
                    Action::ReleaseCacheLock
                } else {
                    Action::Stop
                }
            },
            Progress::At(Stage::Init) => {
                let target = match &self.request.target {
                    Some(t) => Some(t.clone()),
                    None => None,
                };
                Action::InstallToolchain { channel: self.config.channel.clone(), target }
            },
            Progress::At(Stage::ToolchainReady) => Action::FetchCrate {
                name: self.request.name.clone(),
                version: self.request.version.clone(),
            },
            Progress::At(Stage::CrateStaged) => Action::LoadMetadata,
            Progress::At(Stage::MetadataResolved) => {
                if self.lock_held {
                    Action::ResolveDependencies
                } else {
                    Action::AcquireCacheLock
                }
            },
            Progress::At(Stage::DependenciesResolved) => {
                if self.lock_held {
                    Action::ReleaseCacheLock
                } else {
                    Action::ProbeCompilerVersion
                }
            },
            Progress::At(Stage::FlagsComposed) => Action::RunBuild { sandbox: self.config.sandbox },
            Progress::At(Stage::Executed) => Action::Stop,
        }
    }

    /// Takes in what came of the pending action and moves on, or stops with
    /// the error of the stage that could not be reached.
    pub fn handle(&mut self, e: Event)
        requires
            old(self).wf(),
        ensures
            final(self).wf(),
            Self::step(*old(self), e, *final(self)),
    {
        match e {
            Event::ToolchainInstalled(r) => {
                if self.is_at(Stage::Init) {
                    match r {
                        Ok(()) => self.progress = Progress::At(Stage::ToolchainReady),
                        Err(m) => self.progress = Progress::Failed(
                            Stage::ToolchainReady,
                            BuildError::Toolchain(m),
                        ),
                    }
                }
            },
            Event::CrateFetched(r) => {
                if self.is_at(Stage::ToolchainReady) {
                    match r {
                        Ok(()) => self.progress = Progress::At(Stage::CrateStaged),
                        Err(m) => self.progress = Progress::Failed(
                            Stage::CrateStaged,
                            BuildError::Fetch(m),
                        ),
                    }
                }
            },
            Event::MetadataLoaded(r) => {
                if self.is_at(Stage::CrateStaged) {
                    match r {
                        Ok(md) => {
                            self.metadata = Some(md);
                            self.progress = Progress::At(Stage::MetadataResolved);
                        },
                        Err(m) => self.progress = Progress::Failed(
                            Stage::MetadataResolved,
                            BuildError::Metadata(m),
                        ),
                    }
                }
            },
            Event::CacheLocked(r) => {
                if self.is_at(Stage::MetadataResolved) && !self.lock_held {
                    match r {
                        Ok(()) => self.lock_held = true,
                        Err(m) => self.progress = Progress::Failed(
                            Stage::DependenciesResolved,
                            BuildError::Resolution(m),
                        ),
                    }
                }
            },
            Event::DependenciesResolved(r) => {
                if self.is_at(Stage::MetadataResolved) && self.lock_held {
                    match r {
                        Ok(deps) => {
                            self.deps = deps;
                            self.progress = Progress::At(Stage::DependenciesResolved);
                        },
                        Err(m) => self.progress = Progress::Failed(
                            Stage::DependenciesResolved,
                            BuildError::Resolution(m),
                        ),
                    }
                }
            },
            Event::CacheReleased => {
                if self.lock_held {
                    self.lock_held = false;
                }
            },
            Event::VersionReported(r) => {
                if self.is_at(Stage::DependenciesResolved) && !self.lock_held {
                    match r {
                        Ok(lines) => self.compose_plan(&lines),
                        Err(m) => self.progress = Progress::Failed(
                            Stage::FlagsComposed,
                            BuildError::Probe(m),
                        ),
                    }
                }
            },
            Event::BuildFinished(r) => {
                if self.is_at(Stage::FlagsComposed) {
                    match r {
                        Ok(true) => self.progress = Progress::Succeeded,
                        Ok(false) => self.progress = Progress::Failed(
                            Stage::Executed,
                            BuildError::Execution("the build exited with a failure".to_owned()),
                        ),
                        Err(m) => self.progress = Progress::Failed(
                            Stage::Executed,
                            BuildError::Execution(m),
                        ),
                    }
                }
            },
        }
    }

    fn compose_plan(&mut self, lines: &Vec<String>)
        requires
            old(self).wf(),
            old(self).progress == Progress::At(Stage::DependenciesResolved),
            !old(self).lock_held,
        ensures
            final(self).wf(),
            match first_nonblank(texts(lines@)) {
                Some(v) if resource_suffix(v) is Some => {
                    &&& *final(self) == BuildDriver {
                        progress: Progress::At(Stage::FlagsComposed),
                        plan: final(self).plan,
                        ..*old(self)
                    }
                    &&& final(self).plan is Some
                    &&& plan_for(
                        final(self).plan->0,
                        old(self).metadata->0,
                        v,
                        old(self).deps@,
                        target_view(old(self).request),
                    )
                },
                _ => {
                    &&& *final(self) == BuildDriver { progress: final(self).progress, ..*old(self) }
                    &&& final(self).progress matches Progress::Failed(
                        Stage::FlagsComposed,
                        BuildError::Probe(_),
                    )
                },
            },
    {
        match first_output_line(lines) {
            Err(e) => self.progress = Progress::Failed(Stage::FlagsComposed, e),
            Ok(v) => {
                let target = match &self.request.target {
                    Some(t) => Some(t.as_str()),
                    None => None,
                };
                let composed = match &self.metadata {
                    Some(md) => compose(md, v.as_str(), &self.deps, target),
                    None => {
                        return;
                    },
                };
                match composed {
                    Ok(p) => {
                        self.plan = Some(p);
                        self.progress = Progress::At(Stage::FlagsComposed);
                    },
                    Err(e) => self.progress = Progress::Failed(Stage::FlagsComposed, e),
                }
            },
        }
    }
}

} // verus!
