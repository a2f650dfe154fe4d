//! The node/npm archetype: detection by the presence of `package.json`,
//! identity extraction from its JSON fields, and a script runner that asks
//! `npm` itself which scripts the package defines.

use vstd::prelude::*;

use crate::archetypes::Archetype;
use crate::package::{DirectoryProbe, FileSnapshot, PackageInfoExtractor};
use crate::runners::{CommandRunner, CommandSpec, ProbeOutput, RunnerKind, ScriptRunContext,
    ScriptRunner, WrapperScriptRunner};

verus! {

// ---------------------------------------------------------------------------
// Manifest parsing, taken on trust from the JSON parser
// ---------------------------------------------------------------------------

/// Whether the bytes parse as a JSON document carrying string fields `name`
/// and `version`, and if so those two strings. A function of the bytes
/// alone.
pub uninterp spec fn spec_npm_manifest(bytes: Seq<u8>) -> Option<(Seq<char>, Seq<char>)>;

/// Relies on `serde_json::from_slice` and `serde_json::Value::get`/`as_str`:
/// parses the manifest and reads its `name` and `version` string fields,
/// failing exactly when the document is malformed or a field is missing or
/// not a string.
#[verifier::external_body]
fn parse_package_json(bytes: &[u8]) -> (r: Result<(String, String), String>)
    ensures
        r is Ok <==> spec_npm_manifest(bytes@) is Some,
        r matches Ok(nv) ==> Some((nv.0@, nv.1@)) == spec_npm_manifest(bytes@),
{
    let value: serde_json::Value = match serde_json::from_slice(bytes) {
        Ok(v) => v,
        Err(e) => return Err(e.to_string()),
    };
    let name = match value.get("name").and_then(serde_json::Value::as_str) {
        Some(s) => s.to_string(),
        None => return Err(String::from("package.json has no string field `name`")),
    };
    let version = match value.get("version").and_then(serde_json::Value::as_str) {
        Some(s) => s.to_string(),
        None => return Err(String::from("package.json has no string field `version`")),
    };
    Ok((name, version))
}

/// The entries of the top-level object of a script listing: each script's
/// name paired with the JSON rendering of its definition, in the parser's
/// deterministic storage order. Nothing when the bytes are not a JSON
/// object. A function of the bytes alone.
pub uninterp spec fn spec_npm_script_entries(stdout: Seq<u8>) -> Option<Seq<(Seq<char>, Seq<char>)>>;

/// Relies on `serde_json::from_slice`, `serde_json::Value::as_object`, and
/// the JSON rendering of `serde_json::Value`: parses the output of the
/// script-listing facility into its object entries, failing exactly when
/// the bytes are not a JSON object.
#[verifier::external_body]
fn parse_npm_script_listing(stdout: &[u8]) -> (r: Result<Vec<(String, String)>, String>)
    ensures
        r is Ok <==> spec_npm_script_entries(stdout@) is Some,
        r matches Ok(v) ==> Some(v.deep_view()) == spec_npm_script_entries(stdout@),
{
    let value: serde_json::Value = match serde_json::from_slice(stdout) {
        Ok(v) => v,
        Err(e) => return Err(e.to_string()),
    };
    let object = match value.as_object() {
        Some(o) => o,
        None => return Err(String::from("`npm run --json` did not return an object")),
    };
    Ok(object.iter().map(|(key, val)| (key.to_string(), val.to_string())).collect())
}

// ---------------------------------------------------------------------------
// Detection and extraction
// ---------------------------------------------------------------------------

/// The node/npm detector: the directory has a `package.json`, readable or
/// not.
pub open spec fn spec_npm_matches(probe: DirectoryProbe) -> bool {
    !(probe.package_json is Absent)
}

/// What extraction reads from the snapshot: the manifest fields when the
/// file is present and parses, nothing otherwise.
pub open spec fn spec_npm_extract(probe: DirectoryProbe) -> Option<(Seq<char>, Seq<char>)> {
    match probe.package_json {
        FileSnapshot::Present(bytes) => spec_npm_manifest(bytes@),
        _ => None,
    }
}

/// Identity fields read from a `package.json`.
pub struct NpmPackageInfoExtractor {
    pub name: String,
    pub version: String,
}

impl NpmPackageInfoExtractor {
    /// Reads the manifest out of the directory snapshot, failing exactly
    /// when `package.json` is absent, unreadable, or malformed.
    pub fn from_package_path(probe: &DirectoryProbe) -> (r: Result<NpmPackageInfoExtractor, String>)
        ensures
            r is Ok <==> spec_npm_extract(*probe) is Some,
            r matches Ok(x) ==> Some((x.name@, x.version@)) == spec_npm_extract(*probe),
    {
        match &probe.package_json {
            FileSnapshot::Present(bytes) => match parse_package_json(bytes.as_slice()) {
                Ok(nv) => Ok(NpmPackageInfoExtractor { name: nv.0, version: nv.1 }),
                Err(reason) => Err(reason),
            },
            FileSnapshot::Unreadable(reason) => {
                let mut message = String::from_str("Failed to open package.json: ");
                message.append(reason.as_str());
                Err(message)
            },
            FileSnapshot::Absent => Err(String::from_str("Failed to open package.json")),
        }
    }
}

impl PackageInfoExtractor for NpmPackageInfoExtractor {
    open spec fn spec_name(&self) -> Seq<char> {
        self.name@
    }

    open spec fn spec_version(&self) -> Seq<char> {
        self.version@
    }

    fn get_name(&self) -> (r: &str) {
        self.name.as_str()
    }

    fn get_version(&self) -> (r: &str) {
        self.version.as_str()
    }
}

// ---------------------------------------------------------------------------
// The npm script runner
// ---------------------------------------------------------------------------

/// The arguments asking npm for its script listing, in JSON form.
pub open spec fn spec_npm_probe_args() -> Seq<Seq<char>> {
    seq!["run"@, "--json"@]
}

/// The arguments running a script through npm.
pub open spec fn spec_npm_run_args(script: Seq<char>) -> Seq<Seq<char>> {
    seq!["run"@, script]
}

/// The ecosystem-native runner: runs scripts through `npm run`, and probes
/// by listing the scripts the package defines and checking membership.
pub struct NpmPackageScriptRunner {
    pub npm_runner: CommandRunner,
}

impl NpmPackageScriptRunner {
    /// Whether this runner drives the `npm` program.
    pub open spec fn wf(&self) -> bool {
        self.npm_runner.program@ == "npm"@
    }

    /// A runner driving `npm`.
    pub fn new() -> (r: NpmPackageScriptRunner)
        ensures
            r.wf(),
    {
        NpmPackageScriptRunner { npm_runner: CommandRunner::new(String::from_str("npm")) }
    }

    /// Reads the script listing a probe captured: each defined script's
    /// name with its definition. Fails exactly when the output is not a
    /// JSON object.
    pub fn list_available_scripts(&self, probe: &ProbeOutput) -> (r: Result<
        Vec<(String, String)>,
        String,
    >)
        ensures
            r is Ok <==> spec_npm_script_entries(probe.stdout@) is Some,
            r matches Ok(v) ==> Some(v.deep_view()) == spec_npm_script_entries(probe.stdout@),
    {
        parse_npm_script_listing(probe.stdout.as_slice())
    }
}

impl ScriptRunner for NpmPackageScriptRunner {
    fn probe_command(&self, _context: &ScriptRunContext) -> (r: Option<CommandSpec>)
        ensures
            r matches Some(c) && c.program@ == self.npm_runner.program@ && c.args.deep_view()
                =~= spec_npm_probe_args(),
    {
        let mut args: Vec<String> = Vec::new();
        args.push(String::from_str("run"));
        args.push(String::from_str("--json"));
        let c = self.npm_runner.command(args);
        proof {
            assert(c.args.deep_view() =~= spec_npm_probe_args());
        }
        Some(c)
    }

    fn can_run_script(&self, context: &ScriptRunContext, probe: &ProbeOutput) -> (r: Result<
        bool,
        String,
    >)
        ensures
            r is Ok <==> spec_npm_script_entries(probe.stdout@) is Some,
            r matches Ok(b) ==> {
                let entries = spec_npm_script_entries(probe.stdout@).unwrap();
                b == exists|j: int| 0 <= j < entries.len() && entries[j].0 == context.script_spec@
            },
    {
        let entries = match self.list_available_scripts(probe) {
            Ok(entries) => entries,
            Err(reason) => return Err(reason),
        };
        let n = entries.len();
        let mut i: usize = 0;
        while i < n
            invariant
                i <= n,
                n == entries@.len(),
                Some(entries.deep_view()) == spec_npm_script_entries(probe.stdout@),
                forall|j: int| 0 <= j < i ==> entries.deep_view()[j].0 != context.script_spec@,
            decreases n - i,
        {
            if entries[i].0 == context.script_spec {
                proof {
                    let se = spec_npm_script_entries(probe.stdout@).unwrap();
                    assert(se == entries.deep_view());
                    assert(entries.deep_view()[i as int].0 == context.script_spec@);
                    assert(exists|j: int|
                        0 <= j < se.len() && se[j].0 == context.script_spec@) by {
                        assert(0 <= i < se.len() && se[i as int].0 == context.script_spec@);
                    }
                }
                return Ok(true);
            }
            i = i + 1;
        }
        proof {
            let se = spec_npm_script_entries(probe.stdout@).unwrap();
            assert(se == entries.deep_view());
            assert(!(exists|j: int| 0 <= j < se.len() && se[j].0 == context.script_spec@)) by {
                assert(forall|j: int| 0 <= j < se.len() ==> #[trigger] se[j].0 != context.script_spec@);
            }
        }
        Ok(false)
    }

    fn run_command(&self, context: &ScriptRunContext) -> (r: Option<CommandSpec>)
        ensures
            r matches Some(c) && c.program@ == self.npm_runner.program@ && c.args.deep_view()
                =~= spec_npm_run_args(context.script_spec@),
    {
        let mut args: Vec<String> = Vec::new();
        args.push(String::from_str("run"));
        args.push(context.script_spec.clone());
        let c = self.npm_runner.command(args);
        proof {
            assert(c.args.deep_view() =~= spec_npm_run_args(context.script_spec@));
        }
        Some(c)
    }
}

// ---------------------------------------------------------------------------
// The archetype
// ---------------------------------------------------------------------------

/// The node/npm ecosystem.
pub struct NodeJSNpmArchetype {}

impl Archetype for NodeJSNpmArchetype {
    open spec fn spec_id(&self) -> Seq<char> {
        "nodejs/npm"@
    }

    open spec fn spec_matches(&self, probe: DirectoryProbe) -> bool {
        spec_npm_matches(probe)
    }

    fn get_id(&self) -> (r: &'static str) {
        "nodejs/npm"
    }

    fn matcher(&self, probe: &DirectoryProbe) -> (r: bool) {
        match &probe.package_json {
            FileSnapshot::Absent => false,
            _ => true,
        }
    }

    fn get_script_runner(&self) -> (r: WrapperScriptRunner)
        ensures
            r.runners@.len() == 2,
            r.runners@[0] is Make,
            r.runners@[1] is Npm,
    {
        WrapperScriptRunner::wrap_with_generic_runners(RunnerKind::Npm(NpmPackageScriptRunner::new()))
    }
}

impl NodeJSNpmArchetype {
    /// Builds the extractor for a package directory, failing exactly when
    /// the manifest cannot be read.
    pub fn get_info_extractor(&self, probe: &DirectoryProbe) -> (r: Result<
        NpmPackageInfoExtractor,
        String,
    >)
        ensures
            r is Ok <==> spec_npm_extract(*probe) is Some,
            r matches Ok(x) ==> Some((x.name@, x.version@)) == spec_npm_extract(*probe),
    {
        NpmPackageInfoExtractor::from_package_path(probe)
    }
}

} // verus!
