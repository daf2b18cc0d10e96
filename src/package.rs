//! Packages with their upstream's latest version, and the update decision.
use vstd::prelude::*;

use crate::index::{get_registry_package_path, registry_path};
use crate::record::{LocalModel, LocalPackage, OriginModel};
use crate::text::{last_line, last_line_spec, str_equal};
use crate::version::{semver_fields, version_less, Version, VersionFields};

verus! {

/// What `serde_json` reads as the string held under `key` in the JSON object
/// on `line`: none where `line` is not JSON, not an object, lacks `key`, or
/// holds something other than a string there.
pub uninterp spec fn json_string_field(line: Seq<char>, key: Seq<char>) -> Option<Seq<char>>;

/// Relies on serde_json::from_str into serde_json::Value, serde_json::Value::get
/// and serde_json::Value::as_str: the string under `key` of the JSON object.
#[verifier::external_body]
fn json_field(line: &str, key: &str) -> (r: Option<String>)
    ensures
        match r {
            Some(v) => json_string_field(line@, key@) == Some(v@),
            None => json_string_field(line@, key@) is None,
        },
{
    match serde_json::from_str::<serde_json::Value>(line) {
        Ok(value) => value.get(key).and_then(|v| v.as_str()).map(|v| v.to_string()),
        Err(_) => None,
    }
}

/// What was learnt from a package's upstream.
#[derive(Debug, Clone)]
pub enum UpstreamData {
    /// The object ids of the references a git remote advertises, in the
    /// order of the advertisement.
    Refs(Vec<String>),
    /// The body of the package's file in a registry index: one JSON record
    /// per published version, oldest first.
    IndexBody(String),
}

/// Upstream data as plain values.
pub enum UpstreamModel {
    Refs(Seq<Seq<char>>),
    IndexBody(Seq<char>),
}

impl View for UpstreamData {
    type V = UpstreamModel;

    open spec fn view(&self) -> UpstreamModel {
        match self {
            UpstreamData::Refs(refs) => UpstreamModel::Refs(refs@.map_values(|r: String| r@)),
            UpstreamData::IndexBody(body) => UpstreamModel::IndexBody(body@),
        }
    }
}

/// Why a package's latest version could not be told from its upstream data.
#[derive(Debug, Clone, Copy, PartialEq, Eq, Structural)]
pub enum FetchError {
    /// The git remote advertised no reference.
    NoReferences,
    /// The index file holds no line.
    EmptyIndex,
    /// The last line of the index file has no valid `vers`.
    MalformedIndexEntry,
    /// Registry data for a git package, or the reverse.
    WrongUpstream,
}

/// The latest upstream version of a package.
pub enum LatestModel {
    Commit(Seq<char>),
    Version(VersionFields),
}

/// A package with its upstream's latest version, as plain values.
pub struct PackageModel {
    pub local: LocalModel,
    pub latest: LatestModel,
}

/// A package as installed, with its upstream's latest version.
#[derive(Debug, Clone)]
pub enum Package {
    Git { name: String, vers: Version, url: String, commit: String, origin_commit: String },
    Registry { name: String, vers: Version, url: String, best_vers: Version },
}

impl View for Package {
    type V = PackageModel;

    open spec fn view(&self) -> PackageModel {
        match self {
            Package::Git { name, vers, url, commit, origin_commit } => PackageModel {
                local: LocalModel {
                    name: name@,
                    vers: vers@,
                    origin: OriginModel::Git { url: url@, commit: commit@ },
                },
                latest: LatestModel::Commit(origin_commit@),
            },
            Package::Registry { name, vers, url, best_vers } => PackageModel {
                local: LocalModel {
                    name: name@,
                    vers: vers@,
                    origin: OriginModel::Registry { url: url@ },
                },
                latest: LatestModel::Version(best_vers@),
            },
        }
    }
}

/// The latest version that the last record of an index file names.
pub open spec fn index_latest(body: Seq<char>) -> Result<VersionFields, FetchError> {
    match last_line_spec(body) {
        None => Err(FetchError::EmptyIndex),
        Some(line) => match json_string_field(line, "vers"@) {
            None => Err(FetchError::MalformedIndexEntry),
            Some(text) => match semver_fields(text) {
                None => Err(FetchError::MalformedIndexEntry),
                Some(v) => Ok(v),
            },
        },
    }
}

/// A recorded package together with what its upstream holds.
pub open spec fn resolve(local: LocalModel, data: UpstreamModel) -> Result<PackageModel, FetchError> {
    match (local.origin, data) {
        (OriginModel::Git { .. }, UpstreamModel::Refs(refs)) => if refs.len() == 0 {
            Err(FetchError::NoReferences)
        } else {
            Ok(PackageModel { local, latest: LatestModel::Commit(refs[0]) })
        },
        (OriginModel::Registry { .. }, UpstreamModel::IndexBody(body)) => match index_latest(body) {
            Ok(v) => Ok(PackageModel { local, latest: LatestModel::Version(v) }),
            Err(e) => Err(e),
        },
        _ => Err(FetchError::WrongUpstream),
    }
}

/// Whether the upstream holds something newer than what is installed: another
/// commit for a git package, a greater version for a registry package.
pub open spec fn has_update_spec(p: PackageModel) -> bool {
    match (p.local.origin, p.latest) {
        (OriginModel::Git { commit, .. }, LatestModel::Commit(latest)) => commit != latest,
        (OriginModel::Registry { .. }, LatestModel::Version(latest)) => version_less(p.local.vers, latest),
        _ => false,
    }
}

/// Reads the latest version out of a registry index file.
pub fn index_latest_version(body: &str) -> (r: Result<Version, FetchError>)
    ensures
        match r {
            Ok(v) => index_latest(body@) == Ok::<VersionFields, FetchError>(v@),
            Err(e) => index_latest(body@) == Err::<VersionFields, FetchError>(e),
        },
{
    let line = match last_line(body) {
        Some(l) => l,
        None => return Err(FetchError::EmptyIndex),
    };
    let text = match json_field(line.as_str(), "vers") {
        Some(t) => t,
        None => return Err(FetchError::MalformedIndexEntry),
    };
    match Version::parse(text.as_str()) {
        Some(v) => Ok(v),
        None => Err(FetchError::MalformedIndexEntry),
    }
}

/// The legacy git URL of the crates.io index.
pub open spec fn crates_io_git_index() -> Seq<char> {
    "https://github.com/rust-lang/crates.io-index"@
}

/// The base URL to query for a registry recorded under `url`: the crates.io
/// git index is read through its sparse HTTP index.
pub open spec fn registry_base(url: Seq<char>) -> Seq<char> {
    if url == crates_io_git_index() {
        "https://index.crates.io"@
    } else {
        url
    }
}

impl LocalPackage {
    /// The URL of this registry package's index file; none for a git package
    /// or an empty name.
    pub fn index_url(&self) -> (r: Option<String>)
        ensures
            match (self@.origin, r) {
                (OriginModel::Registry { url }, Some(u)) => self@.name.len() > 0
                    && u@ == registry_base(url) + "/"@ + registry_path(self@.name),
                (OriginModel::Registry { .. }, None) => self@.name.len() == 0,
                (OriginModel::Git { .. }, r) => r is None,
            },
    {
        match self {
            LocalPackage::Git { .. } => None,
            LocalPackage::Registry { name, url, .. } => {
                if name.unicode_len() == 0 {
                    return None;
                }
                let mut r = if str_equal(url.as_str(), "https://github.com/rust-lang/crates.io-index") {
                    String::from_str("https://index.crates.io")
                } else {
                    url.clone()
                };
                r.append("/");
                let path = get_registry_package_path(name.as_str());
                r.append(path.as_str());
                Some(r)
            },
        }
    }

    /// Combines the package with what its upstream holds.
    pub fn fetch(self, data: UpstreamData) -> (r: Result<Package, FetchError>)
        ensures
            match r {
                Ok(p) => resolve(self@, data@) == Ok::<PackageModel, FetchError>(p@),
                Err(e) => resolve(self@, data@) == Err::<PackageModel, FetchError>(e),
            },
    {
        match (self, data) {
            (LocalPackage::Git { name, vers, url, commit }, UpstreamData::Refs(refs)) => {
                if refs.len() == 0 {
                    return Err(FetchError::NoReferences);
                }
                let origin_commit = refs[0].clone();
                Ok(Package::Git { name, vers, url, commit, origin_commit })
            },
            (LocalPackage::Registry { name, vers, url }, UpstreamData::IndexBody(body)) => {
                match index_latest_version(body.as_str()) {
                    Ok(best_vers) => Ok(Package::Registry { name, vers, url, best_vers }),
                    Err(e) => Err(e),
                }
            },
            _ => Err(FetchError::WrongUpstream),
        }
    }
}

impl Package {
    /// The package's name.
    pub fn name(&self) -> (r: &String)
        ensures
            r@ == self@.local.name,
    {
        match self {
            Package::Git { name, .. } => name,
            Package::Registry { name, .. } => name,
        }
    }

    /// Whether an update is available.
    pub fn has_update(&self) -> (r: bool)
        ensures
            r == has_update_spec(self@),
    {
        match self {
            Package::Git { commit, origin_commit, .. } => !str_equal(commit.as_str(), origin_commit.as_str()),
            Package::Registry { vers, best_vers, .. } => vers.less_than(best_vers),
        }
    }
}

} // verus!

verus! {

/// Whether an update is available depends on the two compared fields alone:
/// the installed commit and the latest commit of a git package, the installed
/// version and the latest version of a registry package. Two evaluations on
/// packages that agree on them agree.
pub proof fn lemma_update_depends_on_compared_fields(a: PackageModel, b: PackageModel)
    requires
        a.latest == b.latest,
        a.local.origin is Git <==> b.local.origin is Git,
        a.local.origin is Git ==> a.local.origin->Git_commit == b.local.origin->Git_commit,
        a.local.origin is Registry ==> a.local.vers == b.local.vers,
    ensures
        has_update_spec(a) == has_update_spec(b),
{
}

} // verus!
