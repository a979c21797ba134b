use cratesfyi::error::BuildError;
use cratesfyi::flags::{
    cargo_args, compose, cross_link_flag, rustdoc_flags, rustflags, PackageMetadata,
    ResolvedDependency,
};

const VERSION: &str = "rustc 1.99.0-nightly (abcdef 2024-01-01)";

fn plain() -> PackageMetadata {
    PackageMetadata { features: None, all_features: false, no_default_features: false, rustc_args: None }
}

fn dep(name: &str, package: &str, version: &str) -> ResolvedDependency {
    ResolvedDependency {
        name: name.to_string(),
        package_name: package.to_string(),
        version: version.to_string(),
    }
}

#[test]
fn cross_link_underscores_the_declared_name() {
    let d = dep("my-dep", "my-dep", "2.3.0");
    let flag = cross_link_flag(&d);
    assert!(flag.starts_with("my_dep="));
    assert!(flag.contains("my-dep/2.3.0"));
    assert_eq!(flag, "my_dep=https://docs.rs/my-dep/2.3.0");
}

#[test]
fn renamed_dependency_links_to_its_package() {
    let d = dep("short-name", "real-package", "0.1.0");
    assert_eq!(cross_link_flag(&d), "short_name=https://docs.rs/real-package/0.1.0");
}

#[test]
fn rustdoc_flags_in_fixed_order() {
    let deps = vec![dep("my-dep", "my-dep", "2.3.0"), dep("b", "b", "1.0.0")];
    let f = rustdoc_flags("20240101-1.99.0-nightly-abcdef", &deps);
    let want = vec![
        "-Z",
        "unstable-options",
        "--resource-suffix",
        "-20240101-1.99.0-nightly-abcdef",
        "--static-root-path",
        "/",
        "--disable-per-crate-search",
        "--extern-html-root-url",
        "my_dep=https://docs.rs/my-dep/2.3.0",
        "--extern-html-root-url",
        "b=https://docs.rs/b/1.0.0",
    ];
    assert_eq!(f, want);
}

#[test]
fn all_features_keeps_the_feature_list() {
    let m = PackageMetadata {
        features: Some(vec!["a".to_string(), "b".to_string()]),
        all_features: true,
        no_default_features: false,
        rustc_args: None,
    };
    let a = cargo_args(&m, None);
    assert_eq!(a, vec!["doc", "--lib", "--no-deps", "--features", "a b", "--all-features"]);
}

#[test]
fn cargo_args_with_everything() {
    let m = PackageMetadata {
        features: Some(vec!["x".to_string()]),
        all_features: false,
        no_default_features: true,
        rustc_args: Some("--cfg docsrs".to_string()),
    };
    let a = cargo_args(&m, Some("x86_64-unknown-linux-gnu"));
    assert_eq!(
        a,
        vec!["doc", "--lib", "--no-deps", "--features", "x", "--no-default-features", "--target", "x86_64-unknown-linux-gnu"]
    );
    assert_eq!(rustflags(&m), "--cfg docsrs");
}

#[test]
fn rustflags_empty_without_extra_arguments() {
    assert_eq!(rustflags(&plain()), "");
}

#[test]
fn compose_is_deterministic() {
    let m = PackageMetadata {
        features: Some(vec!["f".to_string()]),
        all_features: true,
        no_default_features: true,
        rustc_args: Some("-C x".to_string()),
    };
    let deps = vec![dep("my-dep", "my-dep", "2.3.0")];
    let p = compose(&m, VERSION, &deps, Some("t")).unwrap();
    let q = compose(&m, VERSION, &deps, Some("t")).unwrap();
    assert_eq!(p, q);
    assert_eq!(
        p.rustdocflags,
        "-Z unstable-options --resource-suffix -20240101-1.99.0-nightly-abcdef --static-root-path / --disable-per-crate-search --extern-html-root-url my_dep=https://docs.rs/my-dep/2.3.0"
    );
}

#[test]
fn compose_without_dependencies_has_no_cross_links() {
    let p = compose(&plain(), VERSION, &Vec::new(), None).unwrap();
    assert_eq!(p.cargo_args, vec!["doc", "--lib", "--no-deps"]);
    assert!(!p.rustdoc_flags.iter().any(|f| f == "--extern-html-root-url"));
    assert_eq!(p.rustflags, "");
}

#[test]
fn compose_rejects_unknown_version_report() {
    assert!(matches!(compose(&plain(), "garbage", &Vec::new(), None), Err(BuildError::Probe(_))));
}
