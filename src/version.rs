//! Semantic versions as plain values, parsed and ordered by the `semver` crate.
use vstd::prelude::*;

verus! {

/// Fields of a version: major, minor, patch, pre-release and build metadata.
pub type VersionFields = (u64, u64, u64, Seq<char>, Seq<char>);

/// What `semver` parses `text` into, if it is a valid semantic version.
pub uninterp spec fn semver_fields(text: Seq<char>) -> Option<VersionFields>;

/// Whether pre-release `a` has lower precedence than pre-release `b` under
/// `semver`'s ordering (false where either is not a valid pre-release).
pub uninterp spec fn prerelease_less(a: Seq<char>, b: Seq<char>) -> bool;

/// Whether build metadata `a` sorts before build metadata `b` under `semver`'s
/// ordering (false where either is not valid build metadata).
pub uninterp spec fn build_less(a: Seq<char>, b: Seq<char>) -> bool;

/// A semantic version: `major.minor.patch[-pre][+build]`.
#[derive(Debug, Clone)]
pub struct Version {
    pub major: u64,
    pub minor: u64,
    pub patch: u64,
    pub pre: String,
    pub build: String,
}

impl View for Version {
    type V = VersionFields;

    open spec fn view(&self) -> VersionFields {
        (self.major, self.minor, self.patch, self.pre@, self.build@)
    }
}

/// The total order of `semver::Version`: numeric major, minor and patch, then
/// pre-release precedence, then build metadata.
pub open spec fn version_less(a: VersionFields, b: VersionFields) -> bool {
    if a.0 != b.0 {
        a.0 < b.0
    } else if a.1 != b.1 {
        a.1 < b.1
    } else if a.2 != b.2 {
        a.2 < b.2
    } else if a.3 != b.3 {
        prerelease_less(a.3, b.3)
    } else if a.4 != b.4 {
        build_less(a.4, b.4)
    } else {
        false
    }
}

/// Relies on semver::Version::parse (with Prerelease::as_str and
/// BuildMetadata::as_str to read the parts back): the parsed fields, or none.
#[verifier::external_body]
fn semver_parse(text: &str) -> (r: Option<Version>)
    ensures
        match r {
            Some(v) => semver_fields(text@) == Some(v@),
            None => semver_fields(text@) is None,
        },
{
    match semver::Version::parse(text) {
        Ok(v) => Some(Version {
            major: v.major,
            minor: v.minor,
            patch: v.patch,
            pre: v.pre.as_str().to_string(),
            build: v.build.as_str().to_string(),
        }),
        Err(_) => None,
    }
}

/// Relies on semver::Prerelease::new and the `Ord` of `semver::Prerelease`: a
/// release (empty pre-release) is never below another, and no pre-release is
/// below itself.
#[verifier::external_body]
fn semver_prerelease_less(a: &str, b: &str) -> (r: bool)
    ensures
        r == prerelease_less(a@, b@),
        a@.len() == 0 ==> !r,
        a@ == b@ ==> !r,
{
    match (semver::Prerelease::new(a), semver::Prerelease::new(b)) {
        (Ok(x), Ok(y)) => x < y,
        _ => false,
    }
}

/// Relies on semver::BuildMetadata::new and the `Ord` of `semver::BuildMetadata`:
/// no build metadata is below itself.
#[verifier::external_body]
fn semver_build_less(a: &str, b: &str) -> (r: bool)
    ensures
        r == build_less(a@, b@),
        a@ == b@ ==> !r,
{
    match (semver::BuildMetadata::new(a), semver::BuildMetadata::new(b)) {
        (Ok(x), Ok(y)) => x < y,
        _ => false,
    }
}

impl Version {
    /// A release version without pre-release or build metadata.
    pub fn new(major: u64, minor: u64, patch: u64) -> (r: Version)
        ensures
            r@ == (major, minor, patch, Seq::<char>::empty(), Seq::<char>::empty()),
    {
        Version { major, minor, patch, pre: String::new(), build: String::new() }
    }

    /// Parses `text` as a semantic version.
    pub fn parse(text: &str) -> (r: Option<Version>)
        ensures
            match r {
                Some(v) => semver_fields(text@) == Some(v@),
                None => semver_fields(text@) is None,
            },
    {
        semver_parse(text)
    }

    /// Whether `self` orders before `other`.
    pub fn less_than(&self, other: &Version) -> (r: bool)
        ensures
            r == version_less(self@, other@),
    {
        if self.major != other.major {
            self.major < other.major
        } else if self.minor != other.minor {
            self.minor < other.minor
        } else if self.patch != other.patch {
            self.patch < other.patch
        } else if self.pre != other.pre {
            semver_prerelease_less(self.pre.as_str(), other.pre.as_str())
        } else if self.build != other.build {
            semver_build_less(self.build.as_str(), other.build.as_str())
        } else {
            false
        }
    }
}

impl PartialEq for Version {
    fn eq(&self, other: &Version) -> (r: bool) {
        self.major == other.major && self.minor == other.minor && self.patch == other.patch
            && self.pre == other.pre && self.build == other.build
    }
}

impl vstd::std_specs::cmp::PartialEqSpecImpl for Version {
    open spec fn obeys_eq_spec() -> bool {
        true
    }

    open spec fn eq_spec(&self, other: &Version) -> bool {
        self@ == other@
    }
}

impl Eq for Version {
}

} // verus!
