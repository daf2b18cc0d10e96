//! Which packages are checked, how their upstream data is combined with them,
//! and which install commands follow.
use vstd::prelude::*;

use crate::package::{resolve, FetchError, Package, PackageModel, UpstreamData, UpstreamModel};
use crate::record::{LocalModel, LocalPackage, OriginModel};
use crate::report::report_spec;
use crate::text::str_equal;

verus! {

/// Whether a recorded package is checked: it is not excluded by name, and it
/// comes from a registry unless git packages are asked for.
pub open spec fn selected(p: LocalModel, exclude: Seq<Seq<char>>, git: bool) -> bool {
    !exclude.contains(p.name) && (git || p.origin is Registry)
}

/// The packages of `pkgs` that are checked, in their order.
pub open spec fn selection(pkgs: Seq<LocalModel>, exclude: Seq<Seq<char>>, git: bool) -> Seq<LocalModel>
    decreases pkgs.len(),
{
    if pkgs.len() == 0 {
        Seq::empty()
    } else {
        let prefix = selection(pkgs.drop_last(), exclude, git);
        if selected(pkgs.last(), exclude, git) {
            prefix.push(pkgs.last())
        } else {
            prefix
        }
    }
}

/// Each package combined with its upstream data, in order; the first error
/// where one fails.
pub open spec fn resolve_all_spec(pkgs: Seq<LocalModel>, data: Seq<UpstreamModel>) -> Result<Seq<PackageModel>, FetchError>
    decreases pkgs.len(),
{
    if pkgs.len() == 0 || data.len() == 0 {
        Ok(Seq::empty())
    } else {
        match resolve_all_spec(pkgs.drop_last(), data.drop_last()) {
            Err(e) => Err(e),
            Ok(prefix) => match resolve(pkgs.last(), data.last()) {
                Ok(p) => Ok(prefix.push(p)),
                Err(e) => Err(e),
            },
        }
    }
}

/// Once a prefix fails to resolve, every longer prefix fails the same way.
proof fn lemma_resolve_all_error_sticks(all: Seq<LocalModel>, up: Seq<UpstreamModel>, k: int, e: FetchError)
    requires
        all.len() == up.len(),
        0 < k <= all.len(),
        resolve_all_spec(all.subrange(0, k), up.subrange(0, k)) == Err::<Seq<PackageModel>, FetchError>(e),
    ensures
        resolve_all_spec(all, up) == Err::<Seq<PackageModel>, FetchError>(e),
    decreases all.len() - k,
{
    if k < all.len() {
        assert(all.subrange(0, k + 1).drop_last() =~= all.subrange(0, k));
        assert(up.subrange(0, k + 1).drop_last() =~= up.subrange(0, k));
        lemma_resolve_all_error_sticks(all, up, k + 1, e);
    } else {
        assert(all.subrange(0, k) =~= all);
        assert(up.subrange(0, k) =~= up);
    }
}

/// Whether `names` holds `name`.
fn contains_name(names: &Vec<String>, name: &String) -> (r: bool)
    ensures
        r == names@.map_values(|s: String| s@).contains(name@),
{
    let ghost all = names@.map_values(|s: String| s@);
    let mut i: usize = 0;
    while i < names.len()
        invariant
            i <= names.len(),
            all == names@.map_values(|s: String| s@),
            forall|j: int| 0 <= j < i ==> all[j] != name@,
        decreases names.len() - i,
    {
        if str_equal(names[i].as_str(), name.as_str()) {
            assert(all[i as int] == name@);
            return true;
        }
        i = i + 1;
    }
    false
}

/// The packages to check: those not named in `exclude`, and git packages only
/// where `git` is set.
pub fn select_packages(pkgs: Vec<LocalPackage>, exclude: &Vec<String>, git: bool) -> (r: Vec<LocalPackage>)
    ensures
        r@.map_values(|p: LocalPackage| p@) == selection(
            pkgs@.map_values(|p: LocalPackage| p@),
            exclude@.map_values(|s: String| s@),
            git,
        ),
{
    let ghost all = pkgs@.map_values(|p: LocalPackage| p@);
    let ghost ex = exclude@.map_values(|s: String| s@);
    let n = pkgs.len();
    let mut rest = pkgs;
    let mut out: Vec<LocalPackage> = Vec::new();
    assert(out@.map_values(|p: LocalPackage| p@) =~= Seq::<LocalModel>::empty());
    let mut i: usize = 0;
    while i < n
        invariant
            i <= n,
            n == all.len(),
            ex == exclude@.map_values(|s: String| s@),
            rest.len() == n - i,
            rest@.map_values(|p: LocalPackage| p@) == all.subrange(i as int, n as int),
            out@.map_values(|p: LocalPackage| p@) == selection(all.subrange(0, i as int), ex, git),
        decreases n - i,
    {
        assert(rest@.map_values(|p: LocalPackage| p@)[0] == all[i as int]);
        let ghost before = rest@;
        let p = rest.remove(0);
        assert forall|j: int| 0 <= j < rest.len() implies rest@[j]@ == all[i + 1 + j] by {
            assert(rest@[j] == before[j + 1]);
            assert(before.map_values(|p: LocalPackage| p@)[j + 1] == all.subrange(i as int, n as int)[j + 1]);
        }
        assert(rest@.map_values(|p: LocalPackage| p@) =~= all.subrange(i + 1, n as int));
        assert(all.subrange(0, i + 1).drop_last() =~= all.subrange(0, i as int));
        let keep = (git || !p.is_git()) && !contains_name(exclude, p.name());
        if keep {
            out.push(p);
            assert(out@.map_values(|p: LocalPackage| p@) =~= selection(all.subrange(0, i as int), ex, git).push(all[i as int]));
        }
        i = i + 1;
    }
    assert(all.subrange(0, n as int) =~= all);
    out
}

/// Combines each package with the upstream data at the same position.
pub fn resolve_all(pkgs: Vec<LocalPackage>, data: Vec<UpstreamData>) -> (r: Result<Vec<Package>, FetchError>)
    requires
        pkgs.len() == data.len(),
    ensures
        match r {
            Ok(v) => resolve_all_spec(pkgs@.map_values(|p: LocalPackage| p@), data@.map_values(|d: UpstreamData| d@))
                == Ok::<Seq<PackageModel>, FetchError>(v@.map_values(|p: Package| p@)),
            Err(e) => resolve_all_spec(pkgs@.map_values(|p: LocalPackage| p@), data@.map_values(|d: UpstreamData| d@))
                == Err::<Seq<PackageModel>, FetchError>(e),
        },
{
    let ghost all = pkgs@.map_values(|p: LocalPackage| p@);
    let ghost up = data@.map_values(|d: UpstreamData| d@);
    let n = pkgs.len();
    let mut rest = pkgs;
    let mut rest_data = data;
    let mut out: Vec<Package> = Vec::new();
    assert(out@.map_values(|p: Package| p@) =~= Seq::<PackageModel>::empty());
    let mut i: usize = 0;
    while i < n
        invariant
            i <= n,
            n == all.len(),
            n == up.len(),
            all == pkgs@.map_values(|p: LocalPackage| p@),
            up == data@.map_values(|d: UpstreamData| d@),
            rest.len() == n - i,
            rest_data.len() == n - i,
            rest@.map_values(|p: LocalPackage| p@) == all.subrange(i as int, n as int),
            rest_data@.map_values(|d: UpstreamData| d@) == up.subrange(i as int, n as int),
            resolve_all_spec(all.subrange(0, i as int), up.subrange(0, i as int))
                == Ok::<Seq<PackageModel>, FetchError>(out@.map_values(|p: Package| p@)),
        decreases n - i,
    {
        assert(rest@.map_values(|p: LocalPackage| p@)[0] == all[i as int]);
        assert(rest_data@.map_values(|d: UpstreamData| d@)[0] == up[i as int]);
        let ghost before = rest@;
        let p = rest.remove(0);
        assert forall|j: int| 0 <= j < rest.len() implies rest@[j]@ == all[i + 1 + j] by {
            assert(rest@[j] == before[j + 1]);
            assert(before.map_values(|p: LocalPackage| p@)[j + 1] == all.subrange(i as int, n as int)[j + 1]);
        }
        let ghost before_data = rest_data@;
        let d = rest_data.remove(0);
        assert forall|j: int| 0 <= j < rest_data.len() implies rest_data@[j]@ == up[i + 1 + j] by {
            assert(rest_data@[j] == before_data[j + 1]);
            assert(before_data.map_values(|d: UpstreamData| d@)[j + 1] == up.subrange(i as int, n as int)[j + 1]);
        }
        assert(rest@.map_values(|p: LocalPackage| p@) =~= all.subrange(i + 1, n as int));
        assert(rest_data@.map_values(|d: UpstreamData| d@) =~= up.subrange(i + 1, n as int));
        assert(all.subrange(0, i + 1).drop_last() =~= all.subrange(0, i as int));
        assert(up.subrange(0, i + 1).drop_last() =~= up.subrange(0, i as int));
        let ghost pv = p@;
        let ghost dv = d@;
        assert(pv == all[i as int] && dv == up[i as int]);
        assert(all.subrange(0, i + 1).last() == pv && up.subrange(0, i + 1).last() == dv);
        match p.fetch(d) {
            Ok(q) => {
                let ghost prev = out@.map_values(|p: Package| p@);
                out.push(q);
                assert(out@.map_values(|p: Package| p@) =~= prev.push(q@));
            },
            Err(e) => {
                proof {
                    assert(resolve_all_spec(all.subrange(0, i + 1), up.subrange(0, i + 1))
                        == Err::<Seq<PackageModel>, FetchError>(e));
                    lemma_resolve_all_error_sticks(all, up, i as int + 1, e);
                }
                return Err(e);
            },
        }
        i = i + 1;
    }
    assert(all.subrange(0, n as int) =~= all);
    assert(up.subrange(0, n as int) =~= up);
    Ok(out)
}

} // verus!

verus! {

/// A package named in the exclusion list is never among the packages checked,
/// so it is neither fetched nor reported.
pub proof fn lemma_excluded_never_selected(pkgs: Seq<LocalModel>, exclude: Seq<Seq<char>>, git: bool)
    ensures
        forall|i: int|
            0 <= i < selection(pkgs, exclude, git).len()
                ==> !exclude.contains(#[trigger] selection(pkgs, exclude, git)[i].name),
    decreases pkgs.len(),
{
    if pkgs.len() > 0 {
        lemma_excluded_never_selected(pkgs.drop_last(), exclude, git);
    }
}

/// Resolution keeps the order of its input whatever order the upstream data
/// arrived in: the i-th resolved package is the i-th package handed in, and
/// the i-th line of the report names it.
pub proof fn lemma_resolution_keeps_order(pkgs: Seq<LocalModel>, data: Seq<UpstreamModel>)
    requires
        pkgs.len() == data.len(),
        resolve_all_spec(pkgs, data) is Ok,
    ensures
        resolve_all_spec(pkgs, data)->Ok_0.len() == pkgs.len(),
        forall|i: int|
            0 <= i < pkgs.len() ==> (#[trigger] resolve_all_spec(pkgs, data)->Ok_0[i]).local == pkgs[i],
        forall|i: int|
            0 <= i < pkgs.len() ==> (#[trigger] report_spec(resolve_all_spec(pkgs, data)->Ok_0)[i]).name
                == pkgs[i].name,
    decreases pkgs.len(),
{
    if pkgs.len() > 0 {
        lemma_resolution_keeps_order(pkgs.drop_last(), data.drop_last());
        let v = resolve_all_spec(pkgs, data)->Ok_0;
        assert forall|i: int| 0 <= i < pkgs.len() implies (#[trigger] v[i]).local == pkgs[i] by {
            if i < pkgs.len() - 1 {
                assert(pkgs.drop_last()[i] == pkgs[i]);
            }
        }
    }
}

} // verus!
