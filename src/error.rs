use vstd::prelude::*;

verus! {

/// Why a build could not be carried through. Each variant belongs to one
/// stage and carries the underlying cause as text.
#[derive(Debug, Clone, PartialEq, Eq)]
pub enum BuildError {
    /// The compiler channel or the extra target could not be installed.
    Toolchain(String),
    /// The package version could not be fetched and staged.
    Fetch(String),
    /// The dependencies could not be resolved, or the cache lock not taken.
    Resolution(String),
    /// The compiler printed no version line, or one of an unknown shape.
    Probe(String),
    /// The manifest lacks what the build needs.
    Metadata(String),
    /// The sandboxed build could not start, or exited with a failure.
    Execution(String),
}

impl BuildError {
    /// Whether the error says something about the package itself (it cannot
    /// be fetched, read or resolved) rather than about the build environment.
    pub open spec fn spec_is_package_fault(&self) -> bool {
        match self {
            BuildError::Fetch(_) | BuildError::Resolution(_) | BuildError::Metadata(_) => true,
            _ => false,
        }
    }

    #[verifier::when_used_as_spec(spec_is_package_fault)]
    pub fn is_package_fault(&self) -> (r: bool)
        ensures
            r == self.spec_is_package_fault(),
    {
        match self {
            BuildError::Fetch(_) | BuildError::Resolution(_) | BuildError::Metadata(_) => true,
            _ => false,
        }
    }
}

} // verus!
