use vstd::prelude::*;
use vstd::string::*;

use crate::error::BuildError;
use crate::text::{joined, texts, underscored, join, underscore_hyphens};
use crate::version::{parse_rustc_version, resource_suffix};

verus! {

/// What the package's manifest asks of its documentation build.
#[derive(Debug, Clone, PartialEq, Eq)]
pub struct PackageMetadata {
    /// Features to enable, if the manifest names any.
    pub features: Option<Vec<String>>,
    /// Enable every feature.
    pub all_features: bool,
    /// Leave the default features off.
    pub no_default_features: bool,
    /// Extra arguments for the compiler, as one raw string.
    pub rustc_args: Option<String>,
}

/// A direct dependency as the manifest names it, with the package and
/// version that it resolved to.
#[derive(Debug, Clone, PartialEq, Eq)]
pub struct ResolvedDependency {
    pub name: String,
    pub package_name: String,
    pub version: String,
}

/// Everything the sandboxed build is invoked with.
#[derive(Debug, Clone, PartialEq, Eq)]
pub struct BuildPlan {
    /// The documentation generator's flags, in order.
    pub rustdoc_flags: Vec<String>,
    /// The arguments of the build command, in order.
    pub cargo_args: Vec<String>,
    /// The value of the compiler's flags variable; empty for none, never unset.
    pub rustflags: String,
    /// The value of the documentation generator's flags variable.
    pub rustdocflags: String,
}

/// The flags that every documentation build gets, in this order.
pub open spec fn base_rustdoc_flags(suffix: Seq<char>) -> Seq<Seq<char>> {
    seq![
        "-Z"@,
        "unstable-options"@,
        "--resource-suffix"@,
        seq!['-'] + suffix,
        "--static-root-path"@,
        "/"@,
        "--disable-per-crate-search"@,
    ]
}

/// Where the documentation of a dependency lives, keyed by the name under
/// which the package refers to it.
pub open spec fn cross_link(d: ResolvedDependency) -> Seq<char> {
    underscored(d.name@) + "=https://docs.rs/"@ + d.package_name@ + "/"@ + d.version@
}

/// A flag pair that links to each dependency's documentation, in order.
pub open spec fn cross_link_flags(deps: Seq<ResolvedDependency>) -> Seq<Seq<char>>
    decreases deps.len(),
{
    if deps.len() == 0 {
        Seq::empty()
    } else {
        cross_link_flags(deps.drop_last()) + seq!["--extern-html-root-url"@, cross_link(deps.last())]
    }
}

pub open spec fn rustdoc_flags_for(suffix: Seq<char>, deps: Seq<ResolvedDependency>) -> Seq<Seq<char>> {
    base_rustdoc_flags(suffix) + cross_link_flags(deps)
}

/// Build only the library's own documentation, then what the manifest and
/// the target ask for.
pub open spec fn cargo_args_for(m: PackageMetadata, target: Option<Seq<char>>) -> Seq<Seq<char>> {
    seq!["doc"@, "--lib"@, "--no-deps"@] + match m.features {
        Some(f) => seq!["--features"@, joined(texts(f@), " "@)],
        None => Seq::empty(),
    } + if m.all_features {
        seq!["--all-features"@]
    } else {
        Seq::empty()
    } + if m.no_default_features {
        seq!["--no-default-features"@]
    } else {
        Seq::empty()
    } + match target {
        Some(t) => seq!["--target"@, t],
        None => Seq::empty(),
    }
}

pub open spec fn rustflags_for(m: PackageMetadata) -> Seq<char> {
    match m.rustc_args {
        Some(a) => a@,
        None => Seq::empty(),
    }
}

/// `p` is the plan for a build with this metadata, compiler version report,
/// dependencies and target.
pub open spec fn plan_for(
    p: BuildPlan,
    m: PackageMetadata,
    compiler_version: Seq<char>,
    deps: Seq<ResolvedDependency>,
    target: Option<Seq<char>>,
) -> bool {
    &&& resource_suffix(compiler_version) is Some
    &&& texts(p.rustdoc_flags@) == rustdoc_flags_for(resource_suffix(compiler_version)->0, deps)
    &&& texts(p.cargo_args@) == cargo_args_for(m, target)
    &&& p.rustflags@ == rustflags_for(m)
    &&& p.rustdocflags@ == joined(rustdoc_flags_for(resource_suffix(compiler_version)->0, deps), " "@)
}

pub open spec fn opt_view(t: Option<&str>) -> Option<Seq<char>> {
    match t {
        Some(s) => Some(s@),
        None => None,
    }
}

/// Composition is deterministic: two plans for the same inputs hold the same
/// flags, arguments and variables, character for character.
pub proof fn lemma_plan_deterministic(
    p: BuildPlan,
    q: BuildPlan,
    m: PackageMetadata,
    compiler_version: Seq<char>,
    deps: Seq<ResolvedDependency>,
    target: Option<Seq<char>>,
)
    requires
        plan_for(p, m, compiler_version, deps, target),
        plan_for(q, m, compiler_version, deps, target),
    ensures
        texts(p.rustdoc_flags@) == texts(q.rustdoc_flags@),
        texts(p.cargo_args@) == texts(q.cargo_args@),
        p.rustflags@ == q.rustflags@,
        p.rustdocflags@ == q.rustdocflags@,
{
}

/// Asking for all features does not drop an explicit feature list: both
/// arguments are passed, and the build tool weighs them itself.
pub proof fn lemma_all_features_keeps_feature_list(m: PackageMetadata, target: Option<Seq<char>>)
    requires
        m.all_features,
        m.features is Some,
    ensures
        cargo_args_for(m, target).contains("--all-features"@),
        cargo_args_for(m, target).contains("--features"@),
        cargo_args_for(m, target).contains(joined(texts(m.features->0@), " "@)),
{
    let a = cargo_args_for(m, target);
    assert(a[3] == "--features"@);
    assert(a[4] == joined(texts(m.features->0@), " "@));
    assert(a[5] == "--all-features"@);
}

/// Every build documents the library alone, without its dependencies.
pub proof fn lemma_cargo_args_start(m: PackageMetadata, target: Option<Seq<char>>)
    ensures
        cargo_args_for(m, target).subrange(0, 3) == seq!["doc"@, "--lib"@, "--no-deps"@],
{
    assert(cargo_args_for(m, target).subrange(0, 3) =~= seq!["doc"@, "--lib"@, "--no-deps"@]);
}

fn push_str(v: &mut Vec<String>, s: &str)
    ensures
        texts(final(v)@) == texts(old(v)@).push(s@),
{
    v.push(s.to_owned());
    assert(texts(v@) =~= texts(old(v)@).push(s@));
}

/// The flag value that links one dependency's documentation.
pub fn cross_link_flag(dep: &ResolvedDependency) -> (r: String)
    ensures
        r@ == cross_link(*dep),
{
    let mut r = underscore_hyphens(dep.name.as_str());
    r.append("=https://docs.rs/");
    r.append(dep.package_name.as_str());
    r.append("/");
    r.append(dep.version.as_str());
    r
}

/// The documentation generator's flags for a build whose static files carry
/// `suffix`, linking to the documentation of each dependency.
pub fn rustdoc_flags(suffix: &str, deps: &Vec<ResolvedDependency>) -> (r: Vec<String>)
    ensures
        texts(r@) == rustdoc_flags_for(suffix@, deps@),
{
    let mut r: Vec<String> = Vec::new();
    push_str(&mut r, "-Z");
    push_str(&mut r, "unstable-options");
    push_str(&mut r, "--resource-suffix");
    let mut dashed = String::from_str("-");
    dashed.append(suffix);
    proof {
        reveal_strlit("-");
        assert(dashed@ =~= seq!['-'] + suffix@);
    }
    push_str(&mut r, dashed.as_str());
    push_str(&mut r, "--static-root-path");
    push_str(&mut r, "/");
    push_str(&mut r, "--disable-per-crate-search");
    assert(texts(r@) =~= base_rustdoc_flags(suffix@));
    let mut i: usize = 0;
    assert(deps@.subrange(0, 0) =~= Seq::<ResolvedDependency>::empty());
    while i < deps.len()
        invariant
            i <= deps@.len(),
            texts(r@) == rustdoc_flags_for(suffix@, deps@.subrange(0, i as int)),
        decreases deps@.len() - i,
    {
        push_str(&mut r, "--extern-html-root-url");
        let link = cross_link_flag(&deps[i]);
        push_str(&mut r, link.as_str());
        assert(deps@.subrange(0, i + 1).drop_last() =~= deps@.subrange(0, i as int));
        assert(texts(r@) =~= rustdoc_flags_for(suffix@, deps@.subrange(0, i + 1)));
        i = i + 1;
    }
    assert(deps@.subrange(0, deps@.len() as int) =~= deps@);
    r
}

/// The build command's arguments for this metadata and target.
pub fn cargo_args(metadata: &PackageMetadata, target: Option<&str>) -> (r: Vec<String>)
    ensures
        texts(r@) == cargo_args_for(*metadata, opt_view(target)),
{
    let mut r: Vec<String> = Vec::new();
    push_str(&mut r, "doc");
    push_str(&mut r, "--lib");
    push_str(&mut r, "--no-deps");
    let ghost s0 = texts(r@);
    if let Some(features) = &metadata.features {
        push_str(&mut r, "--features");
        let list = join(features, " ");
        push_str(&mut r, list.as_str());
    }
    let ghost s1 = texts(r@);
    if metadata.all_features {
        push_str(&mut r, "--all-features");
    }
    let ghost s2 = texts(r@);
    if metadata.no_default_features {
        push_str(&mut r, "--no-default-features");
    }
    let ghost s3 = texts(r@);
    if let Some(t) = target {
        push_str(&mut r, "--target");
        push_str(&mut r, t);
    }
    assert(texts(r@) =~= cargo_args_for(*metadata, opt_view(target)));
    r
}

/// The compiler's extra flags: the manifest's raw string, or empty.
pub fn rustflags(metadata: &PackageMetadata) -> (r: String)
    ensures
        r@ == rustflags_for(*metadata),
{
    match &metadata.rustc_args {
        Some(args) => args.clone(),
        None => String::new(),
    }
}

/// Composes the whole invocation of the documentation build from the
/// manifest's metadata, the compiler's version report, the resolved
/// dependencies and the target; fails only when the version report has an
/// unknown shape.
pub fn compose(
    metadata: &PackageMetadata,
    compiler_version: &str,
    deps: &Vec<ResolvedDependency>,
    target: Option<&str>,
) -> (r: Result<BuildPlan, BuildError>)
    ensures
        match r {
            Ok(p) => plan_for(p, *metadata, compiler_version@, deps@, opt_view(target)),
            Err(e) => resource_suffix(compiler_version@) is None && e is Probe,
        },
{
    let suffix = parse_rustc_version(compiler_version)?;
    let rustdoc_flags = rustdoc_flags(suffix.as_str(), deps);
    let rustdocflags = join(&rustdoc_flags, " ");
    let cargo_args = cargo_args(metadata, target);
    let rustflags = rustflags(metadata);
    Ok(BuildPlan { rustdoc_flags, cargo_args, rustflags, rustdocflags })
}

} // verus!
