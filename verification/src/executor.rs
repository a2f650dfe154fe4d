//! The decisions of the concurrent executor: resolving each package's
//! runner chain from its archetype identifier, and re-associating the
//! collected outcomes with their packages in the original input order.
//!
//! The units of work themselves — one isolated child process per package —
//! are run by the caller; nothing here depends on their completion order.

use vstd::prelude::*;

use crate::archetypes::{get_archetype_by_id, spec_archetype_by_id};
use crate::package::Package;
use crate::runners::{ScriptRunResult, WrapperScriptRunner};

verus! {

/// Resolves the runner chain for one package from the archetype identifier
/// its record carries: the chain of the named archetype, or nothing when
/// the identifier names none (a package that was never validly classified).
pub fn runner_chain_for(package: &Package) -> (r: Option<WrapperScriptRunner>)
    ensures
        r is Some <==> spec_archetype_by_id(package.archetype_id@) is Some,
        r matches Some(chain) ==> chain.wf() && chain.runners@.len() > 0,
        spec_archetype_by_id(package.archetype_id@) matches Some(kind) ==> {
            &&& kind is NodeJsNpm ==> r.unwrap().runners@.len() == 2
                && r.unwrap().runners@[0] is Make && r.unwrap().runners@[1] is Npm
            &&& kind is PythonPoetry ==> r.unwrap().runners@.len() == 1
                && r.unwrap().runners@[0] is Make
        },
{
    match get_archetype_by_id(package.archetype_id.as_str()) {
        Some(archetype) => Some(archetype.get_script_runner()),
        None => None,
    }
}

/// Re-associates outcomes with their packages: entry `i` of the result
/// pairs package `i` with outcome `i`, so the aggregated list reconstructs
/// the original input ordering whatever order the units completed in.
pub fn pair_results(packages: Vec<Package>, results: Vec<ScriptRunResult>) -> (r: Vec<
    (Package, ScriptRunResult),
>)
    requires
        packages@.len() == results@.len(),
    ensures
        r@.len() == packages@.len(),
        forall|i: int| 0 <= i < r@.len() ==> #[trigger] r@[i].0 == packages@[i] && r@[i].1
            == results@[i],
{
    let ghost packages_orig = packages@;
    let ghost results_orig = results@;
    let mut packages_rest = packages;
    let mut results_rest = results;
    let mut out: Vec<(Package, ScriptRunResult)> = Vec::new();
    proof {
        assert(packages_rest@ =~= packages_orig.skip(0));
        assert(results_rest@ =~= results_orig.skip(0));
    }
    while packages_rest.len() > 0
        invariant
            packages_orig.len() == results_orig.len(),
            packages_rest@.len() == results_rest@.len(),
            out@.len() + packages_rest@.len() == packages_orig.len(),
            packages_rest@ == packages_orig.skip(out@.len() as int),
            results_rest@ == results_orig.skip(out@.len() as int),
            forall|i: int| 0 <= i < out@.len() ==> #[trigger] out@[i].0 == packages_orig[i]
                && out@[i].1 == results_orig[i],
        decreases packages_rest.len(),
    {
        let ghost k = out@.len() as int;
        let p = packages_rest.remove(0);
        let o = results_rest.remove(0);
        proof {
            assert(packages_orig.skip(k).remove(0) =~= packages_orig.skip(k + 1));
            assert(results_orig.skip(k).remove(0) =~= results_orig.skip(k + 1));
            assert(p == packages_orig.skip(k)[0]);
            assert(packages_orig.skip(k)[0] == packages_orig[k]);
            assert(o == results_orig.skip(k)[0]);
            assert(results_orig.skip(k)[0] == results_orig[k]);
        }
        out.push((p, o));
    }
    out
}

} // verus!
