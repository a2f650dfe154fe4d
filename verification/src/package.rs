//! The package record: the result of classifying one discovered directory,
//! together with the plain-value snapshot of the directory contents that
//! classification reads.

use vstd::prelude::*;

use crate::archetypes::{match_archetype, spec_match_archetype, ArchetypeKind};
use crate::nodejs_npm::spec_npm_extract;
use crate::python_poetry::spec_poetry_extract;
use crate::text::spec_strip_prefix;
use crate::text::strip_path_prefix;

verus! {

/// What was found at one well-known file name inside a package directory:
/// nothing, a file whose content could not be read, or the content itself.
#[derive(Debug, Clone)]
pub enum FileSnapshot {
    Absent,
    Unreadable(String),
    Present(Vec<u8>),
}

/// The plain-value snapshot of a package directory's marker files, taken by
/// the caller; classification and extraction decide on it alone.
#[derive(Debug, Clone)]
pub struct DirectoryProbe {
    /// The directory's `package.json`, if any.
    pub package_json: FileSnapshot,
    /// The directory's `pyproject.toml`, if any.
    pub pyproject_toml: FileSnapshot,
}

/// The classification outcome of one directory.
#[derive(Debug, Clone)]
pub enum PackageStatus {
    /// An archetype matched and its manifest was read.
    Valid,
    /// An archetype matched but its manifest was missing or malformed; the
    /// payload is the reason.
    CannotRead(String),
    /// No archetype matched.
    CannotDetectArchetype,
}

impl PackageStatus {
    /// Whether this is the `Valid` status.
    pub fn is_valid(&self) -> (r: bool)
        ensures
            r == (self is Valid),
    {
        match self {
            PackageStatus::Valid => true,
            _ => false,
        }
    }

    /// A short human-readable rendering of the status.
    pub fn describe(&self) -> (r: String)
        ensures
            match self {
                PackageStatus::Valid => r@ == "Valid"@,
                PackageStatus::CannotRead(m) => r@ == "Error: "@ + m@,
                PackageStatus::CannotDetectArchetype => r@ == "Cannot detect archetype"@,
            },
    {
        match self {
            PackageStatus::Valid => String::from_str("Valid"),
            PackageStatus::CannotRead(message) => {
                let mut s = String::from_str("Error: ");
                s.append(message.as_str());
                s
            },
            PackageStatus::CannotDetectArchetype => String::from_str("Cannot detect archetype"),
        }
    }
}

/// One detected unit of work: a classified package directory. Immutable once
/// constructed; cloned freely, since every later step only reads it.
#[derive(Debug, Clone)]
pub struct Package {
    /// The ecosystem-reported package name, or `n/a`.
    pub name: String,
    /// The ecosystem-reported version, or `n/a`.
    pub version: String,
    /// The path relative to the project root, used for display and identity.
    pub path: String,
    /// The canonical absolute path, used as the working directory of script
    /// processes.
    pub absolute_path: String,
    /// The identifier of the matched archetype, empty when none matched.
    pub archetype_id: String,
    /// The classification outcome.
    pub status: PackageStatus,
}

impl Package {
    /// The invariant tying the status to the other fields: a package without
    /// a detected archetype has an empty archetype id, and only a valid
    /// package carries real name and version values.
    pub open spec fn wf(self) -> bool {
        match self.status {
            PackageStatus::Valid => self.archetype_id@.len() > 0,
            PackageStatus::CannotRead(_) => self.archetype_id@.len() > 0 && self.name@ == "n/a"@
                && self.version@ == "n/a"@,
            PackageStatus::CannotDetectArchetype => self.archetype_id@ =~= Seq::<char>::empty()
                && self.name@ == "n/a"@ && self.version@ == "n/a"@,
        }
    }

    /// Builds the package record for the directory at `package_path` (a
    /// canonical absolute path inside the project at `project_path`), from
    /// the snapshot of the directory's marker files. Fails exactly when the
    /// package path does not lie under the project path.
    pub fn from_package_path(package_path: String, project_path: String, probe: &DirectoryProbe) -> (r:
        Result<Package, String>)
        ensures
            r is Ok <==> spec_strip_prefix(package_path@, project_path@) is Some,
            r matches Ok(p) ==> {
                &&& p.wf()
                &&& p.absolute_path@ == package_path@
                &&& Some(p.path@) == spec_strip_prefix(package_path@, project_path@)
                &&& spec_classification(*probe, p)
            },
    {
        proof {
            reveal_strlit("nodejs/npm");
            reveal_strlit("python/poetry");
        }
        let path = match strip_path_prefix(package_path.as_str(), project_path.as_str()) {
            Some(rest) => rest,
            None => {
                return Err(String::from_str("package path does not lie under the project root"));
            },
        };
        match match_archetype(probe) {
            Some(archetype) => {
                let archetype_id = String::from_str(archetype.get_id());
                let info: Result<(String, String), String> = match &archetype {
                    ArchetypeKind::NodeJsNpm(a) => match a.get_info_extractor(probe) {
                        Ok(e) => Ok((e.name, e.version)),
                        Err(m) => Err(m),
                    },
                    ArchetypeKind::PythonPoetry(a) => match a.get_info_extractor(probe) {
                        Ok(e) => Ok((e.name, e.version)),
                        Err(m) => Err(m),
                    },
                };
                match info {
                    Ok(nv) => Ok(Package {
                        name: nv.0,
                        version: nv.1,
                        path,
                        absolute_path: package_path,
                        archetype_id,
                        status: PackageStatus::Valid,
                    }),
                    Err(reason) => Ok(Package {
                        name: String::from_str("n/a"),
                        version: String::from_str("n/a"),
                        path,
                        absolute_path: package_path,
                        archetype_id,
                        status: PackageStatus::CannotRead(reason),
                    }),
                }
            },
            None => Ok(Package {
                name: String::from_str("n/a"),
                version: String::from_str("n/a"),
                path,
                absolute_path: package_path,
                archetype_id: String::new(),
                status: PackageStatus::CannotDetectArchetype,
            }),
        }
    }
}

/// How classification fills a package record from a directory snapshot:
/// detectors are tried in registry order, the first match names the
/// archetype, and its extractor decides between `Valid` and `CannotRead`;
/// a directory matching no detector is `CannotDetectArchetype` with an
/// empty archetype id.
pub open spec fn spec_classification(probe: DirectoryProbe, p: Package) -> bool {
    match spec_match_archetype(probe) {
        Some(kind) => {
            &&& p.archetype_id@ == kind.spec_id()
            &&& match spec_extract_for(kind, probe) {
                Some(nv) => p.status is Valid && p.name@ == nv.0 && p.version@ == nv.1,
                None => p.status is CannotRead,
            }
        },
        None => p.status is CannotDetectArchetype && p.archetype_id@ =~= Seq::<char>::empty(),
    }
}

/// What the matched archetype's extractor reads from the snapshot.
pub open spec fn spec_extract_for(kind: ArchetypeKind, probe: DirectoryProbe) -> Option<
    (Seq<char>, Seq<char>),
> {
    match kind {
        ArchetypeKind::NodeJsNpm(_) => spec_npm_extract(probe),
        ArchetypeKind::PythonPoetry(_) => spec_poetry_extract(probe),
    }
}

/// Reads identity fields out of a parsed ecosystem manifest.
pub trait PackageInfoExtractor {
    /// The name the extractor reports.
    spec fn spec_name(&self) -> Seq<char>;

    /// The version the extractor reports.
    spec fn spec_version(&self) -> Seq<char>;

    fn get_name(&self) -> (r: &str)
        ensures
            r@ == self.spec_name(),
    ;

    fn get_version(&self) -> (r: &str)
        ensures
            r@ == self.spec_version(),
    ;
}

/// An extractor with nothing behind it; reports placeholder values.
pub struct NoopPackageInfoExtractor {}

impl PackageInfoExtractor for NoopPackageInfoExtractor {
    open spec fn spec_name(&self) -> Seq<char> {
        "noop"@
    }

    open spec fn spec_version(&self) -> Seq<char> {
        "noop"@
    }

    fn get_name(&self) -> (r: &str) {
        "noop"
    }

    fn get_version(&self) -> (r: &str) {
        "noop"
    }
}

} // verus!
