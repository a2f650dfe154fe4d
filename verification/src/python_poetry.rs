//! The python/poetry archetype: detection by a `pyproject.toml` carrying a
//! `[tool.poetry]` section, identity extraction from that section, and the
//! generic runner chain for script execution.

use vstd::prelude::*;

use crate::archetypes::Archetype;
use crate::package::{DirectoryProbe, FileSnapshot, PackageInfoExtractor};
use crate::runners::WrapperScriptRunner;
use crate::text::{contains_bytes, spec_contains_bytes};

verus! {

// ---------------------------------------------------------------------------
// Manifest parsing, taken on trust from the TOML parser
// ---------------------------------------------------------------------------

/// Whether the bytes parse as a TOML document carrying string entries
/// `name` and `version` under the table path `tool.poetry`, and if so those
/// two strings. A function of the bytes alone.
pub uninterp spec fn spec_poetry_manifest(bytes: Seq<u8>) -> Option<(Seq<char>, Seq<char>)>;

/// Relies on `toml::from_slice` and `toml::Value::get`/`as_str`: parses the
/// manifest and reads `tool.poetry.name` and `tool.poetry.version`, failing
/// exactly when the document is malformed or an entry is missing or not a
/// string.
#[verifier::external_body]
fn parse_pyproject_toml(bytes: &[u8]) -> (r: Result<(String, String), String>)
    ensures
        r is Ok <==> spec_poetry_manifest(bytes@) is Some,
        r matches Ok(nv) ==> Some((nv.0@, nv.1@)) == spec_poetry_manifest(bytes@),
{
    let value: toml::Value = match toml::from_slice(bytes) {
        Ok(v) => v,
        Err(e) => return Err(e.to_string()),
    };
    let poetry = value.get("tool").and_then(|t| t.get("poetry"));
    let name = poetry.and_then(|p| p.get("name")).and_then(toml::Value::as_str);
    let version = poetry.and_then(|p| p.get("version")).and_then(toml::Value::as_str);
    match (name, version) {
        (Some(n), Some(v)) => Ok((n.to_string(), v.to_string())),
        _ => Err(String::from("pyproject.toml lacks string entries for tool.poetry name/version")),
    }
}

// ---------------------------------------------------------------------------
// Detection and extraction
// ---------------------------------------------------------------------------

/// The bytes of the section header that marks a poetry manifest.
pub open spec fn spec_poetry_marker() -> Seq<u8> {
    seq![
        91u8, 116u8, 111u8, 111u8, 108u8, 46u8, 112u8, 111u8, 101u8, 116u8, 114u8, 121u8, 93u8,
    ]
}

/// Builds the marker bytes `[tool.poetry]`.
fn poetry_marker() -> (r: Vec<u8>)
    ensures
        r@ == spec_poetry_marker(),
{
    let mut v: Vec<u8> = Vec::new();
    v.push(91);
    v.push(116);
    v.push(111);
    v.push(111);
    v.push(108);
    v.push(46);
    v.push(112);
    v.push(111);
    v.push(101);
    v.push(116);
    v.push(114);
    v.push(121);
    v.push(93);
    proof {
        assert(v@ =~= spec_poetry_marker());
    }
    v
}

/// The python/poetry detector: the directory has a readable
/// `pyproject.toml` whose content holds the `[tool.poetry]` marker.
pub open spec fn spec_poetry_matches(probe: DirectoryProbe) -> bool {
    match probe.pyproject_toml {
        FileSnapshot::Present(bytes) => spec_contains_bytes(bytes@, spec_poetry_marker()),
        _ => false,
    }
}

/// What extraction reads from the snapshot: the manifest entries when the
/// file is present and parses, nothing otherwise.
pub open spec fn spec_poetry_extract(probe: DirectoryProbe) -> Option<(Seq<char>, Seq<char>)> {
    match probe.pyproject_toml {
        FileSnapshot::Present(bytes) => spec_poetry_manifest(bytes@),
        _ => None,
    }
}

/// Identity fields read from a `pyproject.toml`.
pub struct PoetryPackageInfoExtractor {
    pub name: String,
    pub version: String,
}

impl PoetryPackageInfoExtractor {
    /// Reads the manifest out of the directory snapshot, failing exactly
    /// when `pyproject.toml` is absent, unreadable, or malformed.
    pub fn from_package_path(probe: &DirectoryProbe) -> (r: Result<PoetryPackageInfoExtractor, String>)
        ensures
            r is Ok <==> spec_poetry_extract(*probe) is Some,
            r matches Ok(x) ==> Some((x.name@, x.version@)) == spec_poetry_extract(*probe),
    {
        match &probe.pyproject_toml {
            FileSnapshot::Present(bytes) => match parse_pyproject_toml(bytes.as_slice()) {
                Ok(nv) => Ok(PoetryPackageInfoExtractor { name: nv.0, version: nv.1 }),
                Err(reason) => Err(reason),
            },
            FileSnapshot::Unreadable(reason) => {
                let mut message = String::from_str("Failed to read pyproject.toml: ");
                message.append(reason.as_str());
                Err(message)
            },
            FileSnapshot::Absent => Err(String::from_str("Failed to read pyproject.toml")),
        }
    }
}

impl PackageInfoExtractor for PoetryPackageInfoExtractor {
    open spec fn spec_name(&self) -> Seq<char> {
        self.name@
    }

    open spec fn spec_version(&self) -> Seq<char> {
        self.version@
    }

    fn get_name(&self) -> (r: &str) {
        self.name.as_str()
    }

    fn get_version(&self) -> (r: &str) {
        self.version.as_str()
    }
}

// ---------------------------------------------------------------------------
// The archetype
// ---------------------------------------------------------------------------

/// The python/poetry ecosystem.
pub struct PythonPoetryArchetype {}

impl Archetype for PythonPoetryArchetype {
    open spec fn spec_id(&self) -> Seq<char> {
        "python/poetry"@
    }

    open spec fn spec_matches(&self, probe: DirectoryProbe) -> bool {
        spec_poetry_matches(probe)
    }

    fn get_id(&self) -> (r: &'static str) {
        "python/poetry"
    }

    fn matcher(&self, probe: &DirectoryProbe) -> (r: bool) {
        match &probe.pyproject_toml {
            FileSnapshot::Present(bytes) => {
                let marker = poetry_marker();
                contains_bytes(bytes.as_slice(), marker.as_slice())
            },
            _ => false,
        }
    }

    fn get_script_runner(&self) -> (r: WrapperScriptRunner)
        ensures
            r.runners@.len() == 1,
            r.runners@[0] is Make,
    {
        WrapperScriptRunner::generic_runners()
    }
}

impl PythonPoetryArchetype {
    /// Builds the extractor for a package directory, failing exactly when
    /// the manifest cannot be read.
    pub fn get_info_extractor(&self, probe: &DirectoryProbe) -> (r: Result<
        PoetryPackageInfoExtractor,
        String,
    >)
        ensures
            r is Ok <==> spec_poetry_extract(*probe) is Some,
            r matches Ok(x) ==> Some((x.name@, x.version@)) == spec_poetry_extract(*probe),
    {
        PoetryPackageInfoExtractor::from_package_path(probe)
    }
}

} // verus!
