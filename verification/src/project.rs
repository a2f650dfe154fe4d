//! The project: its root path, the manifest of package glob patterns, and
//! the filtering of classified packages for presentation.

use vstd::prelude::*;

use crate::manifest::Manifest;
use crate::package::{DirectoryProbe, Package, PackageStatus};
use crate::text::spec_strip_prefix;

verus! {

/// A project: the root directory under which packages are discovered.
#[derive(Debug)]
pub struct Project {
    root_path: String,
    manifest: Manifest,
}

impl Project {
    /// The project's root path.
    pub closed spec fn spec_root_path(&self) -> Seq<char> {
        self.root_path@
    }

    /// A project rooted at the given canonical directory, with the default
    /// manifest.
    pub fn from_root_path(root_path: String) -> (r: Project)
        ensures
            r.spec_root_path() == root_path@,
            r.spec_glob_patterns().len() == 2,
            r.spec_glob_patterns()[0] == "./packages/*"@,
            r.spec_glob_patterns()[1] == "./apps/*"@,
    {
        Project { root_path, manifest: Manifest::new() }
    }

    /// The manifest's glob patterns.
    pub closed spec fn spec_glob_patterns(&self) -> Seq<Seq<char>> {
        self.manifest.packages.deep_view()
    }

    /// The glob patterns under which packages are discovered.
    pub fn glob_patterns(&self) -> (r: &Vec<String>)
        ensures
            r.deep_view() == self.spec_glob_patterns(),
    {
        &self.manifest.packages
    }

    pub fn get_root_path(&self) -> (r: &String)
        ensures
            r@ == self.spec_root_path(),
    {
        &self.root_path
    }

    /// Builds the package record for one directory of this project:
    /// `package_path` is the directory's canonical absolute path, and the
    /// snapshot holds what was found in it. Fails exactly when the path
    /// does not lie under the project root.
    pub fn read_package(&self, package_path: String, probe: &DirectoryProbe) -> (r: Result<
        Package,
        String,
    >)
        ensures
            r is Ok <==> spec_strip_prefix(package_path@, self.spec_root_path()) is Some,
            r matches Ok(p) ==> p.wf() && p.absolute_path@ == package_path@
                && crate::package::spec_classification(*probe, p),
    {
        Package::from_package_path(package_path, self.root_path.clone(), probe)
    }
}

/// Whether a package is kept in a listing: valid packages always, the
/// others only when everything was asked for.
pub open spec fn spec_keep_package(p: Package, all: bool) -> bool {
    p.status is Valid || all
}

/// The keeping rule as a closed-over predicate.
pub open spec fn spec_keep_filter(all: bool) -> spec_fn(Package) -> bool {
    |p: Package| spec_keep_package(p, all)
}

/// Filters classified packages for presentation, keeping order: valid
/// packages always, unreadable or undetected ones only when `all` is set.
/// The caller logs what is dropped.
pub fn filter_packages(packages: Vec<Package>, all: bool) -> (r: Vec<Package>)
    ensures
        r@ == packages@.filter(spec_keep_filter(all)),
{
    let ghost pred = spec_keep_filter(all);
    let ghost orig = packages@;
    let mut rest = packages;
    let mut out: Vec<Package> = Vec::new();
    let ghost mut k: int = 0;
    proof {
        reveal(Seq::filter);
        assert(rest@ =~= orig.skip(0));
        assert(orig.take(0) =~= Seq::<Package>::empty());
        assert(out@ =~= orig.take(0).filter(pred));
    }
    while rest.len() > 0
        invariant
            pred == spec_keep_filter(all),
            0 <= k <= orig.len(),
            rest@ == orig.skip(k),
            out@ == orig.take(k).filter(pred),
        decreases rest.len(),
    {
        let p = rest.remove(0);
        let ghost pv = p;
        proof {
            assert(pv == orig[k]);
            assert(rest@ =~= orig.skip(k + 1));
        }
        let keep = match p.status {
            PackageStatus::Valid => true,
            _ => all,
        };
        if keep {
            out.push(p);
        }
        proof {
            reveal(Seq::filter);
            let prefix = orig.take(k + 1);
            assert(prefix.len() > 0);
            assert(prefix.filter(pred) == if pred(prefix.last()) {
                prefix.drop_last().filter(pred).push(prefix.last())
            } else {
                prefix.drop_last().filter(pred)
            });
            assert(prefix.drop_last() =~= orig.take(k));
            assert(prefix.last() == orig[k]);
            assert(pred(pv) == spec_keep_package(pv, all));
            assert(keep == pred(orig[k]));
            assert(out@ =~= prefix.filter(pred));
        }
        proof {
            k = k + 1;
        }
    }
    proof {
        assert(orig.take(orig.len() as int) =~= orig);
    }
    out
}

} // verus!
