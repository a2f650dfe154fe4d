//! The archetype registry: the fixed, ordered list of ecosystem detectors,
//! classification by first match, and recovery of an archetype from its
//! identifier.

use vstd::prelude::*;

use crate::nodejs_npm::{spec_npm_matches, NodeJSNpmArchetype};
use crate::package::DirectoryProbe;
use crate::python_poetry::{spec_poetry_matches, PythonPoetryArchetype};
use crate::runners::WrapperScriptRunner;

verus! {

/// A recognized package ecosystem: an identifier, a detector over a
/// directory snapshot, and a script-runner factory.
pub trait Archetype {
    /// The identifier of the ecosystem.
    spec fn spec_id(&self) -> Seq<char>;

    /// The detector predicate over a directory snapshot.
    spec fn spec_matches(&self, probe: DirectoryProbe) -> bool;

    fn get_id(&self) -> (r: &'static str)
        ensures
            r@ == self.spec_id(),
    ;

    fn matcher(&self, probe: &DirectoryProbe) -> (r: bool)
        ensures
            r == self.spec_matches(*probe),
    ;

    fn get_script_runner(&self) -> (r: WrapperScriptRunner)
        ensures
            r.wf(),
            r.runners@.len() > 0,
    ;
}

/// One member of the closed set of supported ecosystems.
pub enum ArchetypeKind {
    NodeJsNpm(NodeJSNpmArchetype),
    PythonPoetry(PythonPoetryArchetype),
}

impl ArchetypeKind {
    /// The member's identifier.
    pub open spec fn spec_id(&self) -> Seq<char> {
        match self {
            ArchetypeKind::NodeJsNpm(_) => "nodejs/npm"@,
            ArchetypeKind::PythonPoetry(_) => "python/poetry"@,
        }
    }

    /// The member's detector predicate.
    pub open spec fn spec_matches(&self, probe: DirectoryProbe) -> bool {
        match self {
            ArchetypeKind::NodeJsNpm(_) => spec_npm_matches(probe),
            ArchetypeKind::PythonPoetry(_) => spec_poetry_matches(probe),
        }
    }

    /// The member's identifier, as [`ArchetypeKind::spec_id`] describes.
    pub fn get_id(&self) -> (r: &'static str)
        ensures
            r@ == self.spec_id(),
    {
        match self {
            ArchetypeKind::NodeJsNpm(a) => a.get_id(),
            ArchetypeKind::PythonPoetry(a) => a.get_id(),
        }
    }

    /// Runs the member's detector on a directory snapshot.
    pub fn matcher(&self, probe: &DirectoryProbe) -> (r: bool)
        ensures
            r == self.spec_matches(*probe),
    {
        match self {
            ArchetypeKind::NodeJsNpm(a) => a.matcher(probe),
            ArchetypeKind::PythonPoetry(a) => a.matcher(probe),
        }
    }

    /// The member's script-runner chain.
    pub fn get_script_runner(&self) -> (r: WrapperScriptRunner)
        ensures
            r.wf(),
            r.runners@.len() > 0,
            self is NodeJsNpm ==> r.runners@.len() == 2 && r.runners@[0] is Make
                && r.runners@[1] is Npm,
            self is PythonPoetry ==> r.runners@.len() == 1 && r.runners@[0] is Make,
    {
        match self {
            ArchetypeKind::NodeJsNpm(a) => a.get_script_runner(),
            ArchetypeKind::PythonPoetry(a) => a.get_script_runner(),
        }
    }
}

/// The fixed, ordered registry: evaluation order is a deliberate priority.
pub fn get_archetypes() -> (r: Vec<ArchetypeKind>)
    ensures
        r@.len() == 2,
        r@[0] is NodeJsNpm,
        r@[1] is PythonPoetry,
{
    let mut archetypes: Vec<ArchetypeKind> = Vec::new();
    archetypes.push(ArchetypeKind::NodeJsNpm(NodeJSNpmArchetype {}));
    archetypes.push(ArchetypeKind::PythonPoetry(PythonPoetryArchetype {}));
    archetypes
}

/// The first archetype, in registry order, whose detector matches the
/// snapshot; nothing matching is a normal outcome, not an error.
pub open spec fn spec_match_archetype(probe: DirectoryProbe) -> Option<ArchetypeKind> {
    if spec_npm_matches(probe) {
        Some(ArchetypeKind::NodeJsNpm(NodeJSNpmArchetype {}))
    } else if spec_poetry_matches(probe) {
        Some(ArchetypeKind::PythonPoetry(PythonPoetryArchetype {}))
    } else {
        None
    }
}

/// Classifies a directory snapshot, as [`spec_match_archetype`] describes:
/// detectors run in registry order and the first match wins.
pub fn match_archetype(probe: &DirectoryProbe) -> (r: Option<ArchetypeKind>)
    ensures
        r == spec_match_archetype(*probe),
{
    let mut archetypes = get_archetypes();
    let n = archetypes.len();
    let mut i: usize = 0;
    while i < n
        invariant
            i <= n,
            n == 2,
            archetypes@.len() == 2,
            archetypes@[0] is NodeJsNpm,
            archetypes@[1] is PythonPoetry,
            i >= 1 ==> !spec_npm_matches(*probe),
            i >= 2 ==> !spec_poetry_matches(*probe),
        decreases n - i,
    {
        if archetypes[i].matcher(probe) {
            let found = archetypes.remove(i);
            return Some(found);
        }
        i = i + 1;
    }
    None
}

/// The archetype with the given identifier, if the identifier names one.
pub open spec fn spec_archetype_by_id(id: Seq<char>) -> Option<ArchetypeKind> {
    if id == "nodejs/npm"@ {
        Some(ArchetypeKind::NodeJsNpm(NodeJSNpmArchetype {}))
    } else if id == "python/poetry"@ {
        Some(ArchetypeKind::PythonPoetry(PythonPoetryArchetype {}))
    } else {
        None
    }
}

/// Looks an archetype up by its identifier, as [`spec_archetype_by_id`]
/// describes. Used when a package record, carrying only the identifier,
/// needs to recover runner behaviour.
pub fn get_archetype_by_id(id: &str) -> (r: Option<ArchetypeKind>)
    ensures
        r == spec_archetype_by_id(id@),
{
    let id_owned = id.to_owned();
    let mut archetypes = get_archetypes();
    let n = archetypes.len();
    let mut i: usize = 0;
    while i < n
        invariant
            i <= n,
            n == 2,
            archetypes@.len() == 2,
            archetypes@[0] is NodeJsNpm,
            archetypes@[1] is PythonPoetry,
            id_owned@ == id@,
            i >= 1 ==> id@ != "nodejs/npm"@,
            i >= 2 ==> id@ != "python/poetry"@,
        decreases n - i,
    {
        let candidate = String::from_str(archetypes[i].get_id());
        if id_owned == candidate {
            let found = archetypes.remove(i);
            return Some(found);
        }
        i = i + 1;
    }
    None
}

} // verus!
