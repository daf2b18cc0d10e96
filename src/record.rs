//! The install record: one entry per installed package, of the shape
//! `<name> <version> (<kind>+<url>[?<query>][#<commit>])`.
use vstd::prelude::*;

use crate::text::{before, before_spec, split_once, split_once_spec, str_equal, strip_parens, strip_parens_spec};
use crate::version::{semver_fields, Version, VersionFields};

verus! {

/// A package as the install record holds it.
#[derive(Debug, Clone)]
pub enum LocalPackage {
    Git { name: String, vers: Version, url: String, commit: String },
    Registry { name: String, vers: Version, url: String },
}

/// Where a package comes from, as plain values.
pub enum OriginModel {
    Git { url: Seq<char>, commit: Seq<char> },
    Registry { url: Seq<char> },
}

/// A recorded package as plain values.
pub struct LocalModel {
    pub name: Seq<char>,
    pub vers: VersionFields,
    pub origin: OriginModel,
}

impl View for LocalPackage {
    type V = LocalModel;

    open spec fn view(&self) -> LocalModel {
        match self {
            LocalPackage::Git { name, vers, url, commit } => LocalModel {
                name: name@,
                vers: vers@,
                origin: OriginModel::Git { url: url@, commit: commit@ },
            },
            LocalPackage::Registry { name, vers, url } => LocalModel {
                name: name@,
                vers: vers@,
                origin: OriginModel::Registry { url: url@ },
            },
        }
    }
}

/// Why an entry of the install record does not describe a package.
#[derive(Debug, Clone, Copy, PartialEq, Eq, Structural)]
pub enum EntryError {
    /// No space after the name.
    MissingName,
    /// No space after the version.
    MissingVersion,
    /// The version is not a semantic version.
    InvalidVersion,
    /// The origin has no `+` between kind and url.
    MissingKind,
    /// A git origin without a non-empty commit after `#`.
    MissingCommit,
    /// An origin kind other than `git`, `registry` or `sparse`.
    UnknownKind,
}

/// A recorded package is well formed: a git package names a commit.
pub open spec fn well_formed(p: LocalModel) -> bool {
    p.origin is Git ==> p.origin->Git_commit.len() > 0
}

/// The meaning of one install record entry.
pub open spec fn parse_entry(s: Seq<char>) -> Result<LocalModel, EntryError> {
    match split_once_spec(s, ' ') {
        None => Err(EntryError::MissingName),
        Some((name, rest)) => match split_once_spec(rest, ' ') {
            None => Err(EntryError::MissingVersion),
            Some((vers, origin)) => match semver_fields(vers) {
                None => Err(EntryError::InvalidVersion),
                Some(v) => match split_once_spec(strip_parens_spec(origin), '+') {
                    None => Err(EntryError::MissingKind),
                    Some((kind, source)) => if kind == "git"@ {
                        match split_once_spec(source, '#') {
                            Some((url, commit)) if commit.len() > 0 => Ok(
                                LocalModel {
                                    name,
                                    vers: v,
                                    origin: OriginModel::Git { url: before_spec(url, '?'), commit },
                                },
                            ),
                            _ => Err(EntryError::MissingCommit),
                        }
                    } else if kind == "registry"@ || kind == "sparse"@ {
                        Ok(LocalModel { name, vers: v, origin: OriginModel::Registry { url: source } })
                    } else {
                        Err(EntryError::UnknownKind)
                    },
                },
            },
        },
    }
}

impl LocalPackage {
    /// The package's name.
    pub fn name(&self) -> (r: &String)
        ensures
            r@ == self@.name,
    {
        match self {
            LocalPackage::Git { name, .. } => name,
            LocalPackage::Registry { name, .. } => name,
        }
    }

    /// Whether the package comes from a git repository.
    pub fn is_git(&self) -> (r: bool)
        ensures
            r == self@.origin is Git,
    {
        match self {
            LocalPackage::Git { .. } => true,
            LocalPackage::Registry { .. } => false,
        }
    }

    /// Parses one entry of the install record.
    pub fn parse_entry(s: &str) -> (r: Result<LocalPackage, EntryError>)
        ensures
            match r {
                Ok(p) => parse_entry(s@) == Ok::<LocalModel, EntryError>(p@) && well_formed(p@),
                Err(e) => parse_entry(s@) == Err::<LocalModel, EntryError>(e),
            },
    {
        let (name, rest) = match split_once(s, ' ') {
            Some(p) => p,
            None => return Err(EntryError::MissingName),
        };
        let (vers, origin) = match split_once(rest.as_str(), ' ') {
            Some(p) => p,
            None => return Err(EntryError::MissingVersion),
        };
        let vers = match Version::parse(vers.as_str()) {
            Some(v) => v,
            None => return Err(EntryError::InvalidVersion),
        };
        let origin = strip_parens(origin.as_str());
        let (kind, source) = match split_once(origin.as_str(), '+') {
            Some(p) => p,
            None => return Err(EntryError::MissingKind),
        };
        if str_equal(kind.as_str(), "git") {
            match split_once(source.as_str(), '#') {
                Some((url, commit)) => {
                    if commit.unicode_len() == 0 {
                        return Err(EntryError::MissingCommit);
                    }
                    let url = before(url.as_str(), '?');
                    Ok(LocalPackage::Git { name, vers, url, commit })
                },
                None => Err(EntryError::MissingCommit),
            }
        } else if str_equal(kind.as_str(), "registry") || str_equal(kind.as_str(), "sparse") {
            Ok(LocalPackage::Registry { name, vers, url: source })
        } else {
            Err(EntryError::UnknownKind)
        }
    }
}

/// Why the install record as a whole cannot be read.
#[derive(Debug, Clone, Copy, PartialEq, Eq, Structural)]
pub enum RecordError {
    /// The text is not a TOML document.
    Syntax,
    /// The document has no table under the key `v1`.
    MissingPackages,
}

/// The keys, in the order `toml` iterates them, of the table under `key` of the
/// TOML document `data`: none where `data` is not TOML, `Some(None)` where
/// `key` is absent or does not hold a table.
pub uninterp spec fn toml_table_keys(data: Seq<char>, key: Seq<char>) -> Option<Option<Seq<Seq<char>>>>;

/// Relies on toml::Value::from_str, toml::Value::get, toml::Value::as_table
/// and the keys of toml::map::Map: the keys of the table under `key`.
#[verifier::external_body]
fn toml_keys(data: &str, key: &str) -> (r: Option<Option<Vec<String>>>)
    ensures
        match r {
            None => toml_table_keys(data@, key@) is None,
            Some(None) => toml_table_keys(data@, key@) == Some(None::<Seq<Seq<char>>>),
            Some(Some(v)) => toml_table_keys(data@, key@) == Some(Some(v@.map_values(|k: String| k@))),
        },
{
    match <toml::Value as core::str::FromStr>::from_str(data) {
        Ok(value) => Some(value.get(key).and_then(|v| v.as_table()).map(|t| t.keys().cloned().collect())),
        Err(_) => None,
    }
}

/// The packages that the entries `keys` describe, in order, skipping the
/// entries that describe none.
pub open spec fn parsed_packages(keys: Seq<Seq<char>>) -> Seq<LocalModel>
    decreases keys.len(),
{
    if keys.len() == 0 {
        Seq::empty()
    } else {
        let prefix = parsed_packages(keys.drop_last());
        match parse_entry(keys.last()) {
            Ok(p) => prefix.push(p),
            Err(_) => prefix,
        }
    }
}

/// The packages of the install record `data`, in the order of its entries.
pub fn list_installed_packages(data: &str) -> (r: Result<Vec<LocalPackage>, RecordError>)
    ensures
        match toml_table_keys(data@, "v1"@) {
            None => r == Err::<Vec<LocalPackage>, RecordError>(RecordError::Syntax),
            Some(None) => r == Err::<Vec<LocalPackage>, RecordError>(RecordError::MissingPackages),
            Some(Some(keys)) => r is Ok && r->Ok_0@.map_values(|p: LocalPackage| p@) == parsed_packages(keys),
        },
{
    let keys = match toml_keys(data, "v1") {
        None => return Err(RecordError::Syntax),
        Some(None) => return Err(RecordError::MissingPackages),
        Some(Some(keys)) => keys,
    };
    let ghost all = keys@.map_values(|k: String| k@);
    let mut out: Vec<LocalPackage> = Vec::new();
    let mut i: usize = 0;
    while i < keys.len()
        invariant
            i <= keys.len(),
            all == keys@.map_values(|k: String| k@),
            out@.map_values(|p: LocalPackage| p@) == parsed_packages(all.subrange(0, i as int)),
        decreases keys.len() - i,
    {
        let entry = LocalPackage::parse_entry(keys[i].as_str());
        proof {
            assert(all.subrange(0, i + 1).drop_last() =~= all.subrange(0, i as int));
            assert(all.subrange(0, i + 1).last() == keys@[i as int]@);
        }
        match entry {
            Ok(p) => {
                out.push(p);
                assert(out@.map_values(|p: LocalPackage| p@) =~= parsed_packages(all.subrange(0, i as int)).push(p@));
            },
            Err(_) => {},
        }
        i = i + 1;
    }
    assert(all.subrange(0, keys.len() as int) =~= all);
    Ok(out)
}

impl core::str::FromStr for LocalPackage {
    type Err = EntryError;

    fn from_str(s: &str) -> (r: Result<LocalPackage, EntryError>)
        ensures
            match r {
                Ok(p) => parse_entry(s@) == Ok::<LocalModel, EntryError>(p@) && well_formed(p@),
                Err(e) => parse_entry(s@) == Err::<LocalModel, EntryError>(e),
            },
    {
        LocalPackage::parse_entry(s)
    }
}

} // verus!
