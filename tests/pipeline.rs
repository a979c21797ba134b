use cratesfyi::error::BuildError;
use cratesfyi::flags::{PackageMetadata, ResolvedDependency};
use cratesfyi::pipeline::{
    Action, BuildConfig, BuildDriver, BuildRequest, Event, Progress, Stage, DEFAULT_MEMORY_LIMIT,
};

fn request(name: &str, version: &str, target: Option<&str>) -> BuildRequest {
    BuildRequest {
        name: name.to_string(),
        version: version.to_string(),
        target: target.map(|t| t.to_string()),
    }
}

fn plain() -> PackageMetadata {
    PackageMetadata { features: None, all_features: false, no_default_features: false, rustc_args: None }
}

fn version_lines() -> Vec<String> {
    vec!["rustc 1.99.0-nightly (abcdef 2024-01-01)".to_string()]
}

#[test]
fn default_config() {
    let c = BuildConfig::new();
    assert_eq!(c.channel, "nightly");
    assert_eq!(c.sandbox.memory_limit, DEFAULT_MEMORY_LIMIT);
    assert_eq!(DEFAULT_MEMORY_LIMIT, 1 << 30);
    assert!(!c.sandbox.networking);
}

#[test]
fn package_without_dependencies_succeeds() {
    let mut d = BuildDriver::new(request("left-pad-example", "1.0.0", None), BuildConfig::new());
    assert_eq!(
        d.next_action(),
        Action::InstallToolchain { channel: "nightly".to_string(), target: None }
    );
    d.handle(Event::ToolchainInstalled(Ok(())));
    assert_eq!(
        d.next_action(),
        Action::FetchCrate { name: "left-pad-example".to_string(), version: "1.0.0".to_string() }
    );
    d.handle(Event::CrateFetched(Ok(())));
    assert_eq!(d.next_action(), Action::LoadMetadata);
    d.handle(Event::MetadataLoaded(Ok(plain())));
    assert_eq!(d.next_action(), Action::AcquireCacheLock);
    d.handle(Event::CacheLocked(Ok(())));
    assert!(d.lock_held);
    assert_eq!(d.next_action(), Action::ResolveDependencies);
    d.handle(Event::DependenciesResolved(Ok(Vec::new())));
    assert_eq!(d.next_action(), Action::ReleaseCacheLock);
    d.handle(Event::CacheReleased);
    assert!(!d.lock_held);
    assert_eq!(d.next_action(), Action::ProbeCompilerVersion);
    d.handle(Event::VersionReported(Ok(version_lines())));
    assert_eq!(d.progress, Progress::At(Stage::FlagsComposed));
    let plan = d.plan.clone().unwrap();
    assert_eq!(plan.cargo_args, vec!["doc", "--lib", "--no-deps"]);
    assert!(!plan.rustdoc_flags.iter().any(|f| f == "--extern-html-root-url"));
    match d.next_action() {
        Action::RunBuild { sandbox } => {
            assert!(!sandbox.networking);
            assert_eq!(sandbox.memory_limit, DEFAULT_MEMORY_LIMIT);
        }
        other => panic!("unexpected action {:?}", other),
    }
    d.handle(Event::BuildFinished(Ok(true)));
    assert_eq!(d.progress, Progress::Succeeded);
    assert_eq!(d.next_action(), Action::Stop);
}

#[test]
fn missing_version_fails_at_staging() {
    let mut d = BuildDriver::new(request("left-pad-example", "9.9.9", None), BuildConfig::new());
    d.handle(Event::ToolchainInstalled(Ok(())));
    d.handle(Event::CrateFetched(Err("version not found".to_string())));
    assert_eq!(
        d.progress,
        Progress::Failed(Stage::CrateStaged, BuildError::Fetch("version not found".to_string()))
    );
    assert_eq!(d.next_action(), Action::Stop);
    match &d.progress {
        Progress::Failed(_, e) => assert!(e.is_package_fault()),
        _ => panic!("expected a failure"),
    }
}

#[test]
fn toolchain_failure_is_an_environment_fault() {
    let mut d = BuildDriver::new(request("a", "1.0.0", Some("wasm32-unknown-unknown")), BuildConfig::new());
    assert_eq!(
        d.next_action(),
        Action::InstallToolchain {
            channel: "nightly".to_string(),
            target: Some("wasm32-unknown-unknown".to_string()),
        }
    );
    d.handle(Event::ToolchainInstalled(Err("no such target".to_string())));
    match &d.progress {
        Progress::Failed(Stage::ToolchainReady, e) => {
            assert_eq!(*e, BuildError::Toolchain("no such target".to_string()));
            assert!(!e.is_package_fault());
        }
        other => panic!("unexpected progress {:?}", other),
    }
}

#[test]
fn resolution_failure_releases_the_lock() {
    let mut d = BuildDriver::new(request("a", "1.0.0", None), BuildConfig::new());
    d.handle(Event::ToolchainInstalled(Ok(())));
    d.handle(Event::CrateFetched(Ok(())));
    d.handle(Event::MetadataLoaded(Ok(plain())));
    d.handle(Event::CacheLocked(Ok(())));
    d.handle(Event::DependenciesResolved(Err("conflict".to_string())));
    assert_eq!(
        d.progress,
        Progress::Failed(Stage::DependenciesResolved, BuildError::Resolution("conflict".to_string()))
    );
    assert_eq!(d.next_action(), Action::ReleaseCacheLock);
    d.handle(Event::CacheReleased);
    assert_eq!(d.next_action(), Action::Stop);
}

#[test]
fn metadata_and_lock_failures() {
    let mut d = BuildDriver::new(request("a", "1.0.0", None), BuildConfig::new());
    d.handle(Event::ToolchainInstalled(Ok(())));
    d.handle(Event::CrateFetched(Ok(())));
    d.handle(Event::MetadataLoaded(Err("no lib target".to_string())));
    assert_eq!(
        d.progress,
        Progress::Failed(Stage::MetadataResolved, BuildError::Metadata("no lib target".to_string()))
    );
    let mut e = BuildDriver::new(request("a", "1.0.0", None), BuildConfig::new());
    e.handle(Event::ToolchainInstalled(Ok(())));
    e.handle(Event::CrateFetched(Ok(())));
    e.handle(Event::MetadataLoaded(Ok(plain())));
    e.handle(Event::CacheLocked(Err("busy".to_string())));
    assert_eq!(
        e.progress,
        Progress::Failed(Stage::DependenciesResolved, BuildError::Resolution("busy".to_string()))
    );
    assert!(!e.lock_held);
    assert_eq!(e.next_action(), Action::Stop);
}

fn ready_to_probe(deps: Vec<ResolvedDependency>) -> BuildDriver {
    let mut d = BuildDriver::new(request("a", "1.0.0", Some("t")), BuildConfig::new());
    d.handle(Event::ToolchainInstalled(Ok(())));
    d.handle(Event::CrateFetched(Ok(())));
    d.handle(Event::MetadataLoaded(Ok(plain())));
    d.handle(Event::CacheLocked(Ok(())));
    d.handle(Event::DependenciesResolved(Ok(deps)));
    d.handle(Event::CacheReleased);
    d
}

#[test]
fn probe_failures_stop_before_flags() {
    let mut d = ready_to_probe(Vec::new());
    d.handle(Event::VersionReported(Ok(Vec::new())));
    assert!(matches!(d.progress, Progress::Failed(Stage::FlagsComposed, BuildError::Probe(_))));
    let mut e = ready_to_probe(Vec::new());
    e.handle(Event::VersionReported(Err("could not run".to_string())));
    assert_eq!(
        e.progress,
        Progress::Failed(Stage::FlagsComposed, BuildError::Probe("could not run".to_string()))
    );
    let mut f = ready_to_probe(Vec::new());
    f.handle(Event::VersionReported(Ok(vec!["odd output".to_string()])));
    assert!(matches!(f.progress, Progress::Failed(Stage::FlagsComposed, BuildError::Probe(_))));
}

#[test]
fn dependencies_become_cross_links() {
    let deps = vec![ResolvedDependency {
        name: "my-dep".to_string(),
        package_name: "my-dep".to_string(),
        version: "2.3.0".to_string(),
    }];
    let mut d = ready_to_probe(deps);
    d.handle(Event::VersionReported(Ok(version_lines())));
    let plan = d.plan.clone().unwrap();
    assert!(plan.rustdocflags.ends_with("--extern-html-root-url my_dep=https://docs.rs/my-dep/2.3.0"));
    assert_eq!(plan.cargo_args, vec!["doc", "--lib", "--no-deps", "--target", "t"]);
}

#[test]
fn failed_build_is_reported() {
    let mut d = ready_to_probe(Vec::new());
    d.handle(Event::VersionReported(Ok(version_lines())));
    d.handle(Event::BuildFinished(Ok(false)));
    assert!(matches!(d.progress, Progress::Failed(Stage::Executed, BuildError::Execution(_))));
    let mut e = ready_to_probe(Vec::new());
    e.handle(Event::VersionReported(Ok(version_lines())));
    e.handle(Event::BuildFinished(Err("sandbox did not start".to_string())));
    assert_eq!(
        e.progress,
        Progress::Failed(Stage::Executed, BuildError::Execution("sandbox did not start".to_string()))
    );
}

#[test]
fn unexpected_events_change_nothing() {
    let mut d = BuildDriver::new(request("a", "1.0.0", None), BuildConfig::new());
    let before = d.clone();
    d.handle(Event::CrateFetched(Ok(())));
    d.handle(Event::CacheReleased);
    d.handle(Event::BuildFinished(Ok(true)));
    assert_eq!(d, before);
}
