//! The report of installed packages against their upstream, and the install
//! command for an outdated package.
use vstd::prelude::*;

use crate::package::{has_update_spec, LatestModel, Package, PackageModel};
use crate::record::OriginModel;
use crate::text::{decimal, push_decimal};
use crate::version::{Version, VersionFields};

verus! {

/// How a version is written: `major.minor.patch`, then `-pre` and `+build`
/// where present.
pub open spec fn version_text(v: VersionFields) -> Seq<char> {
    decimal(v.0 as nat) + "."@ + decimal(v.1 as nat) + "."@ + decimal(v.2 as nat)
        + (if v.3.len() > 0 { "-"@ + v.3 } else { Seq::empty() })
        + (if v.4.len() > 0 { "+"@ + v.4 } else { Seq::empty() })
}

/// At most the first `k` characters of `s`.
pub open spec fn prefix(s: Seq<char>, k: nat) -> Seq<char> {
    if s.len() <= k { s } else { s.subrange(0, k as int) }
}

/// How many characters of a version or commit the report shows.
pub const SHOWN_CHARS: usize = 9;

/// The narrowest width of the name column: the length of its header.
pub const MIN_NAME_WIDTH: usize = 7;

impl Version {
    /// The version as text.
    pub fn to_text(&self) -> (r: String)
        ensures
            r@ == version_text(self@),
    {
        let mut r = String::new();
        proof {
            reveal_strlit(".");
            reveal_strlit("-");
            reveal_strlit("+");
        }
        push_decimal(&mut r, self.major);
        r.append(".");
        push_decimal(&mut r, self.minor);
        r.append(".");
        push_decimal(&mut r, self.patch);
        let ghost core = r@;
        if self.pre.unicode_len() > 0 {
            r.append("-");
            r.append(self.pre.as_str());
        }
        let ghost with_pre = r@;
        if self.build.unicode_len() > 0 {
            r.append("+");
            r.append(self.build.as_str());
        }
        assert(with_pre =~= core + (if self@.3.len() > 0 { "-"@ + self@.3 } else { Seq::empty() }));
        assert(r@ =~= with_pre + (if self@.4.len() > 0 { "+"@ + self@.4 } else { Seq::empty() }));
        r
    }
}

/// At most the first `k` characters of `s`.
fn truncated(s: &str, k: usize) -> (r: String)
    ensures
        r@ == prefix(s@, k as nat),
{
    let n = s.unicode_len();
    if n <= k {
        String::from_str(s)
    } else {
        String::from_str(s.substring_char(0, k))
    }
}

/// One line of the report.
#[derive(Debug, Clone)]
pub struct ReportRow {
    /// Whether an update is available.
    pub update: bool,
    /// `Update` or `Current`.
    pub status: String,
    pub name: String,
    /// The installed version or commit, cut to its first characters.
    pub installed: String,
    /// The latest version or commit, cut to its first characters.
    pub available: String,
}

/// A report line as plain values.
pub struct RowModel {
    pub update: bool,
    pub status: Seq<char>,
    pub name: Seq<char>,
    pub installed: Seq<char>,
    pub available: Seq<char>,
}

impl View for ReportRow {
    type V = RowModel;

    open spec fn view(&self) -> RowModel {
        RowModel {
            update: self.update,
            status: self.status@,
            name: self.name@,
            installed: self.installed@,
            available: self.available@,
        }
    }
}

/// The installed version or commit of a package.
pub open spec fn installed_text(p: PackageModel) -> Seq<char> {
    match p.local.origin {
        OriginModel::Git { commit, .. } => commit,
        OriginModel::Registry { .. } => version_text(p.local.vers),
    }
}

/// The latest version or commit of a package.
pub open spec fn available_text(p: PackageModel) -> Seq<char> {
    match p.latest {
        LatestModel::Commit(c) => c,
        LatestModel::Version(v) => version_text(v),
    }
}

/// The report line of a package.
pub open spec fn report_row_spec(p: PackageModel) -> RowModel {
    let update = has_update_spec(p);
    RowModel {
        update,
        status: if update { "Update"@ } else { "Current"@ },
        name: p.local.name,
        installed: prefix(installed_text(p), SHOWN_CHARS as nat),
        available: prefix(available_text(p), SHOWN_CHARS as nat),
    }
}

/// The width of the name column for `pkgs`: the longest name, and at least
/// the header's width.
pub open spec fn name_width(pkgs: Seq<PackageModel>) -> nat
    decreases pkgs.len(),
{
    if pkgs.len() == 0 {
        MIN_NAME_WIDTH as nat
    } else {
        let w = name_width(pkgs.drop_last());
        let n = pkgs.last().local.name.len();
        if n > w { n } else { w }
    }
}

/// The report lines of `pkgs`, in their order.
pub open spec fn report_spec(pkgs: Seq<PackageModel>) -> Seq<RowModel> {
    pkgs.map_values(|p: PackageModel| report_row_spec(p))
}

impl Package {
    /// The package's report line.
    pub fn report_row(&self) -> (r: ReportRow)
        ensures
            r@ == report_row_spec(self@),
    {
        let update = self.has_update();
        let status = if update { String::from_str("Update") } else { String::from_str("Current") };
        match self {
            Package::Git { name, commit, origin_commit, .. } => ReportRow {
                update,
                status,
                name: name.clone(),
                installed: truncated(commit.as_str(), SHOWN_CHARS),
                available: truncated(origin_commit.as_str(), SHOWN_CHARS),
            },
            Package::Registry { name, vers, best_vers, .. } => {
                let installed = vers.to_text();
                let available = best_vers.to_text();
                ReportRow {
                    update,
                    status,
                    name: name.clone(),
                    installed: truncated(installed.as_str(), SHOWN_CHARS),
                    available: truncated(available.as_str(), SHOWN_CHARS),
                }
            },
        }
    }
}

/// The width of the name column.
pub fn column_width(pkgs: &Vec<Package>) -> (r: usize)
    ensures
        r as nat == name_width(pkgs@.map_values(|p: Package| p@)),
{
    let ghost all = pkgs@.map_values(|p: Package| p@);
    let mut w: usize = MIN_NAME_WIDTH;
    let mut i: usize = 0;
    while i < pkgs.len()
        invariant
            i <= pkgs.len(),
            all == pkgs@.map_values(|p: Package| p@),
            w as nat == name_width(all.subrange(0, i as int)),
        decreases pkgs.len() - i,
    {
        assert(all.subrange(0, i + 1).drop_last() =~= all.subrange(0, i as int));
        let n = pkgs[i].name().unicode_len();
        if n > w {
            w = n;
        }
        i = i + 1;
    }
    assert(all.subrange(0, pkgs.len() as int) =~= all);
    w
}

/// The report lines of `pkgs`, in their order.
pub fn report(pkgs: &Vec<Package>) -> (r: Vec<ReportRow>)
    ensures
        r@.map_values(|row: ReportRow| row@) == report_spec(pkgs@.map_values(|p: Package| p@)),
{
    let mut rows: Vec<ReportRow> = Vec::new();
    let mut i: usize = 0;
    while i < pkgs.len()
        invariant
            i <= pkgs.len(),
            rows.len() == i,
            forall|j: int| 0 <= j < i ==> #[trigger] rows@[j]@ == report_row_spec(pkgs@[j]@),
        decreases pkgs.len() - i,
    {
        let row = pkgs[i].report_row();
        rows.push(row);
        i = i + 1;
    }
    assert(rows@.map_values(|row: ReportRow| row@) =~= report_spec(pkgs@.map_values(|p: Package| p@)));
    rows
}

} // verus!

verus! {

/// The arguments of `cargo` that install the latest version of `p`:
/// `install`, then `--jobs N`, `--locked` and `--verbose` as asked, then
/// `--git <url> <name>` for a git package or `<name>` for a registry package.
pub open spec fn install_args(p: PackageModel, jobs: Option<u8>, locked: bool, verbose: bool) -> Seq<Seq<char>> {
    seq!["install"@]
        + (match jobs { Some(j) => seq!["--jobs"@, decimal(j as nat)], None => Seq::empty() })
        + (if locked { seq!["--locked"@] } else { Seq::empty() })
        + (if verbose { seq!["--verbose"@] } else { Seq::empty() })
        + (match p.local.origin {
            OriginModel::Git { url, .. } => seq!["--git"@, url, p.local.name],
            OriginModel::Registry { .. } => seq![p.local.name],
        })
}

impl Package {
    /// The arguments of `cargo` that install the latest version, where an
    /// update is available; none where the package is current.
    pub fn update(&self, jobs: Option<u8>, locked: bool, verbose: bool) -> (r: Option<Vec<String>>)
        ensures
            match r {
                Some(args) => has_update_spec(self@)
                    && args@.map_values(|a: String| a@) == install_args(self@, jobs, locked, verbose),
                None => !has_update_spec(self@),
            },
    {
        if !self.has_update() {
            return None;
        }
        let mut args: Vec<String> = Vec::new();
        args.push(String::from_str("install"));
        let ghost base = seq!["install"@];
        assert(args@.map_values(|a: String| a@) =~= base);
        match jobs {
            Some(j) => {
                args.push(String::from_str("--jobs"));
                let mut n = String::new();
                push_decimal(&mut n, j as u64);
                args.push(n);
            },
            None => {},
        }
        let ghost with_jobs = base + (match jobs { Some(j) => seq!["--jobs"@, decimal(j as nat)], None => Seq::<Seq<char>>::empty() });
        assert(args@.map_values(|a: String| a@) =~= with_jobs);
        if locked {
            args.push(String::from_str("--locked"));
        }
        let ghost with_locked = with_jobs + (if locked { seq!["--locked"@] } else { Seq::<Seq<char>>::empty() });
        assert(args@.map_values(|a: String| a@) =~= with_locked);
        if verbose {
            args.push(String::from_str("--verbose"));
        }
        let ghost with_verbose = with_locked + (if verbose { seq!["--verbose"@] } else { Seq::<Seq<char>>::empty() });
        assert(args@.map_values(|a: String| a@) =~= with_verbose);
        match self {
            Package::Git { name, url, .. } => {
                args.push(String::from_str("--git"));
                args.push(url.clone());
                args.push(name.clone());
            },
            Package::Registry { name, .. } => {
                args.push(name.clone());
            },
        }
        assert(args@.map_values(|a: String| a@) =~= install_args(self@, jobs, locked, verbose));
        Some(args)
    }
}

} // verus!

verus! {

/// The install commands for `pkgs`, in their order: one for each package
/// with an update available.
pub open spec fn install_plan_spec(pkgs: Seq<PackageModel>, jobs: Option<u8>, locked: bool, verbose: bool) -> Seq<Seq<Seq<char>>>
    decreases pkgs.len(),
{
    if pkgs.len() == 0 {
        Seq::empty()
    } else {
        let prefix = install_plan_spec(pkgs.drop_last(), jobs, locked, verbose);
        if has_update_spec(pkgs.last()) {
            prefix.push(install_args(pkgs.last(), jobs, locked, verbose))
        } else {
            prefix
        }
    }
}

/// The arguments of `cargo` for each install, in the order of `pkgs`; the
/// installs run one after the other and stop at the first that fails.
pub fn install_plan(pkgs: &Vec<Package>, jobs: Option<u8>, locked: bool, verbose: bool) -> (r: Vec<Vec<String>>)
    ensures
        r@.map_values(|a: Vec<String>| a@.map_values(|s: String| s@))
            == install_plan_spec(pkgs@.map_values(|p: Package| p@), jobs, locked, verbose),
{
    let ghost all = pkgs@.map_values(|p: Package| p@);
    let mut out: Vec<Vec<String>> = Vec::new();
    assert(out@.map_values(|a: Vec<String>| a@.map_values(|s: String| s@)) =~= Seq::<Seq<Seq<char>>>::empty());
    let mut i: usize = 0;
    while i < pkgs.len()
        invariant
            i <= pkgs.len(),
            all == pkgs@.map_values(|p: Package| p@),
            out@.map_values(|a: Vec<String>| a@.map_values(|s: String| s@))
                == install_plan_spec(all.subrange(0, i as int), jobs, locked, verbose),
        decreases pkgs.len() - i,
    {
        assert(all.subrange(0, i + 1).drop_last() =~= all.subrange(0, i as int));
        assert(all.subrange(0, i + 1).last() == pkgs@[i as int]@);
        match pkgs[i].update(jobs, locked, verbose) {
            Some(args) => {
                let ghost prev = out@.map_values(|a: Vec<String>| a@.map_values(|s: String| s@));
                let ghost item = args@.map_values(|s: String| s@);
                out.push(args);
                assert(out@.map_values(|a: Vec<String>| a@.map_values(|s: String| s@)) =~= prev.push(item));
            },
            None => {},
        }
        i = i + 1;
    }
    assert(all.subrange(0, pkgs.len() as int) =~= all);
    out
}

} // verus!
