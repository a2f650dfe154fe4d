//! Script runners and their resolution chain.
//!
//! A runner decides how a named script is executed against a package: which
//! program to invoke with which arguments, how to probe whether the script
//! exists, and how to read the outcome of the probe and of the run. The
//! processes themselves are spawned by the caller, which hands their exit
//! codes and captured output back to these decision functions.

use vstd::prelude::*;

use crate::nodejs_npm::NpmPackageScriptRunner;
use crate::package::Package;
use crate::text::{concat_lines, i64_to_string, join_with_spaces, spec_concat_seqs,
    spec_int_string, spec_join_spaces};

verus! {

/// What a script invocation runs against: the script name and the package.
pub struct ScriptRunContext {
    /// The name of the script to run.
    pub script_spec: String,
    /// The package the script runs in; its absolute path is the working
    /// directory of the spawned process.
    pub package: Package,
}

/// The classification of one script execution.
#[derive(Debug, Clone)]
pub enum ScriptRunResultType {
    /// The process exited with code 0.
    Success,
    /// The process exited with a nonzero code; the payload says which.
    Error(String),
    /// No applicable action was taken.
    Noop,
}

impl ScriptRunResultType {
    /// Whether this is the `Success` outcome.
    pub fn is_success(&self) -> (r: bool)
        ensures
            r == (self is Success),
    {
        match self {
            ScriptRunResultType::Success => true,
            _ => false,
        }
    }

    /// Whether this is the `Noop` outcome.
    pub fn is_noop(&self) -> (r: bool)
        ensures
            r == (self is Noop),
    {
        match self {
            ScriptRunResultType::Noop => true,
            _ => false,
        }
    }
}

/// One execution outcome: what was invoked, how it ended, and what it wrote.
#[derive(Debug, Clone)]
pub struct ScriptRunResult {
    /// A human-readable description of the invoked command.
    pub command: String,
    /// The outcome classification.
    pub result_type: ScriptRunResultType,
    /// The process exit code, 0 when none was obtainable.
    pub exit_code: i32,
    /// The accumulated standard output.
    pub stdout: String,
    /// The captured standard error.
    pub stderr: String,
}

impl ScriptRunResult {
    /// The no-action outcome: a `Noop` with exit code 0 and empty command
    /// and output fields.
    pub open spec fn is_noop_value(self) -> bool {
        &&& self.command@ =~= Seq::<char>::empty()
        &&& self.result_type is Noop
        &&& self.exit_code == 0
        &&& self.stdout@ =~= Seq::<char>::empty()
        &&& self.stderr@ =~= Seq::<char>::empty()
    }

    /// The outcome of taking no action; not an error.
    pub fn noop() -> (r: ScriptRunResult)
        ensures
            r.is_noop_value(),
    {
        ScriptRunResult {
            command: String::new(),
            result_type: ScriptRunResultType::Noop,
            exit_code: 0,
            stdout: String::new(),
            stderr: String::new(),
        }
    }
}

// ---------------------------------------------------------------------------
// Exit classification
// ---------------------------------------------------------------------------

/// The message reported for a nonzero exit code.
pub open spec fn spec_exit_message(code: int) -> Seq<char> {
    "Exit code "@ + spec_int_string(code)
}

/// How an exit status is classified: code 0 is success, any other code is an
/// error naming the code, and no obtainable code (the process was terminated
/// by a signal) is a noop.
pub open spec fn spec_classified(exit_code: Option<i32>, t: ScriptRunResultType) -> bool {
    match exit_code {
        Some(c) => if c == 0 {
            t is Success
        } else {
            t matches ScriptRunResultType::Error(m) && m@ == spec_exit_message(c as int)
        },
        None => t is Noop,
    }
}

/// Classifies an exit status, as [`spec_classified`] describes.
pub fn classify_exit(exit_code: Option<i32>) -> (r: ScriptRunResultType)
    ensures
        spec_classified(exit_code, r),
{
    match exit_code {
        Some(c) => {
            if c == 0 {
                ScriptRunResultType::Success
            } else {
                let mut m = String::from_str("Exit code ");
                let digits = i64_to_string(c as i64);
                m.append(digits.as_str());
                ScriptRunResultType::Error(m)
            }
        },
        None => ScriptRunResultType::Noop,
    }
}

// ---------------------------------------------------------------------------
// The command runner: building invocations, reading their outcomes
// ---------------------------------------------------------------------------

/// One concrete process invocation: a program and its arguments. The caller
/// runs it with the package's absolute path as working directory.
#[derive(Debug, Clone)]
pub struct CommandSpec {
    pub program: String,
    pub args: Vec<String>,
}

/// What the caller observed from a probe process that ran to completion.
#[derive(Debug, Clone)]
pub struct ProbeOutput {
    /// The exit code, if one was obtainable.
    pub exit_code: Option<i32>,
    /// The captured standard output, as raw bytes.
    pub stdout: Vec<u8>,
}

/// The human-readable description of an invocation: the program and its
/// arguments separated by single spaces.
pub open spec fn spec_command_description(program: Seq<char>, args: Seq<Seq<char>>) -> Seq<char> {
    program + seq![' '] + spec_join_spaces(args)
}

/// Shared machinery of runners that invoke one underlying program.
pub struct CommandRunner {
    pub program: String,
}

impl CommandRunner {
    /// A runner for the given program.
    pub fn new(program: String) -> (r: CommandRunner)
        ensures
            r.program@ == program@,
    {
        CommandRunner { program }
    }

    /// The invocation of this runner's program with the given arguments.
    pub fn command(&self, args: Vec<String>) -> (r: CommandSpec)
        ensures
            r.program@ == self.program@,
            r.args == args,
    {
        CommandSpec { program: self.program.clone(), args }
    }

    /// Reads a capability probe that ran the program in a dry-run mode:
    /// the script can run exactly when the probe exited with code 0.
    pub fn interpret_dry_run(&self, exit_code: Option<i32>) -> (r: bool)
        ensures
            r == (exit_code == Some(0i32)),
    {
        match exit_code {
            Some(0) => true,
            _ => false,
        }
    }

    /// Describes an invocation of this runner's program, as
    /// [`spec_command_description`] describes.
    pub fn describe(&self, args: &Vec<String>) -> (r: String)
        ensures
            r@ == spec_command_description(self.program@, args.deep_view()),
    {
        let mut s = self.program.clone();
        s.push(' ');
        let joined = join_with_spaces(args);
        s.append(joined.as_str());
        proof {
            assert(s@ =~= spec_command_description(self.program@, args.deep_view()));
        }
        s
    }

    /// Assembles the result of a completed script run: the outcome is
    /// classified from the exit code, the streamed output lines are
    /// accumulated in order, and the error stream is kept in full.
    pub fn finish_run(&self, command: String, exit_code: Option<i32>, stdout_lines: &Vec<String>, stderr:
        String) -> (r: ScriptRunResult)
        ensures
            r.command@ == command@,
            spec_classified(exit_code, r.result_type),
            r.exit_code == (match exit_code {
                Some(c) => c,
                None => 0i32,
            }),
            r.stdout@ == spec_concat_seqs(stdout_lines.deep_view()),
            r.stderr@ == stderr@,
    {
        let result_type = classify_exit(exit_code);
        let code: i32 = match exit_code {
            Some(c) => c,
            None => 0,
        };
        let stdout = concat_lines(stdout_lines);
        ScriptRunResult { command, result_type, exit_code: code, stdout, stderr }
    }
}

/// The line handed to the progress reporter for one line of streamed output,
/// tagged with the command description.
pub open spec fn spec_progress_line(description: Seq<char>, line: Seq<char>) -> Seq<char> {
    description + ": "@ + line
}

/// Tags a streamed output line with its command description, as
/// [`spec_progress_line`] describes.
pub fn progress_line(description: &str, line: &str) -> (r: String)
    ensures
        r@ == spec_progress_line(description@, line@),
{
    let mut s = description.to_owned();
    s.append(": ");
    s.append(line);
    proof {
        assert(s@ =~= spec_progress_line(description@, line@));
    }
    s
}

// ---------------------------------------------------------------------------
// The runner interface and its implementations
// ---------------------------------------------------------------------------

/// A strategy for probing for and executing a named script. The probe and
/// the run are described as invocations for the caller to perform; the
/// probe's outcome is read back through `can_run_script`.
pub trait ScriptRunner {
    /// The invocation that probes whether the script can run, if probing
    /// needs a process at all.
    fn probe_command(&self, context: &ScriptRunContext) -> Option<CommandSpec>;

    /// Reads the probe's outcome: whether the script can run, or the reason
    /// the probe's answer could not be understood.
    fn can_run_script(&self, context: &ScriptRunContext, probe: &ProbeOutput) -> Result<bool, String>;

    /// The invocation that runs the script, or nothing for a runner that
    /// never acts.
    fn run_command(&self, context: &ScriptRunContext) -> Option<CommandSpec>;
}

/// A runner that can never run anything.
pub struct NoopScriptRunner {}

impl ScriptRunner for NoopScriptRunner {
    fn probe_command(&self, _context: &ScriptRunContext) -> (r: Option<CommandSpec>)
        ensures
            r is None,
    {
        None
    }

    fn can_run_script(&self, _context: &ScriptRunContext, _probe: &ProbeOutput) -> (r: Result<
        bool,
        String,
    >)
        ensures
            r == Result::<bool, String>::Ok(false),
    {
        Ok(false)
    }

    fn run_command(&self, _context: &ScriptRunContext) -> (r: Option<CommandSpec>)
        ensures
            r is None,
    {
        None
    }
}

/// The generic build-file runner: runs scripts as `make` targets. Probing
/// invokes the target in dry-run mode and checks for exit code 0, so the
/// probe is delegated to the tool itself.
pub struct MakeScriptRunner {
    pub make_runner: CommandRunner,
}

/// The arguments probing a `make` target: the target in dry-run mode.
pub open spec fn spec_make_probe_args(script: Seq<char>) -> Seq<Seq<char>> {
    seq![script, "--dry-run"@]
}

/// The arguments running a `make` target.
pub open spec fn spec_make_run_args(script: Seq<char>) -> Seq<Seq<char>> {
    seq![script]
}

impl MakeScriptRunner {
    /// Whether this runner drives the `make` program.
    pub open spec fn wf(&self) -> bool {
        self.make_runner.program@ == "make"@
    }

    /// A runner driving `make`.
    pub fn new() -> (r: MakeScriptRunner)
        ensures
            r.wf(),
    {
        MakeScriptRunner { make_runner: CommandRunner::new(String::from_str("make")) }
    }
}

impl ScriptRunner for MakeScriptRunner {
    fn probe_command(&self, context: &ScriptRunContext) -> (r: Option<CommandSpec>)
        ensures
            r matches Some(c) && c.program@ == self.make_runner.program@ && c.args.deep_view()
                =~= spec_make_probe_args(context.script_spec@),
    {
        let mut args: Vec<String> = Vec::new();
        args.push(context.script_spec.clone());
        args.push(String::from_str("--dry-run"));
        let c = self.make_runner.command(args);
        proof {
            assert(c.args.deep_view() =~= spec_make_probe_args(context.script_spec@));
        }
        Some(c)
    }

    fn can_run_script(&self, _context: &ScriptRunContext, probe: &ProbeOutput) -> (r: Result<
        bool,
        String,
    >)
        ensures
            r == Result::<bool, String>::Ok(probe.exit_code == Some(0i32)),
    {
        Ok(self.make_runner.interpret_dry_run(probe.exit_code))
    }

    fn run_command(&self, context: &ScriptRunContext) -> (r: Option<CommandSpec>)
        ensures
            r matches Some(c) && c.program@ == self.make_runner.program@ && c.args.deep_view()
                =~= spec_make_run_args(context.script_spec@),
    {
        let mut args: Vec<String> = Vec::new();
        args.push(context.script_spec.clone());
        let c = self.make_runner.command(args);
        proof {
            assert(c.args.deep_view() =~= spec_make_run_args(context.script_spec@));
        }
        Some(c)
    }
}

// ---------------------------------------------------------------------------
// The wrapper/fallback chain
// ---------------------------------------------------------------------------

/// One member of a resolution chain.
pub enum RunnerKind {
    /// The generic build-file runner.
    Make(MakeScriptRunner),
    /// The ecosystem-native package-manager runner.
    Npm(NpmPackageScriptRunner),
}

impl RunnerKind {
    /// Whether the member's underlying program is the expected one.
    pub open spec fn wf(&self) -> bool {
        match self {
            RunnerKind::Make(m) => m.wf(),
            RunnerKind::Npm(n) => n.wf(),
        }
    }

    /// The member's probe invocation, as its own `probe_command` describes.
    pub fn probe_command(&self, context: &ScriptRunContext) -> (r: Option<CommandSpec>)
        ensures
            match self {
                RunnerKind::Make(m) => r matches Some(c) && c.program@ == m.make_runner.program@
                    && c.args.deep_view() =~= spec_make_probe_args(context.script_spec@),
                RunnerKind::Npm(n) => r matches Some(c) && c.program@ == n.npm_runner.program@
                    && c.args.deep_view() =~= crate::nodejs_npm::spec_npm_probe_args(),
            },
    {
        match self {
            RunnerKind::Make(m) => m.probe_command(context),
            RunnerKind::Npm(n) => n.probe_command(context),
        }
    }

    /// Reads the member's probe outcome, as its own `can_run_script`
    /// describes.
    pub fn can_run_script(&self, context: &ScriptRunContext, probe: &ProbeOutput) -> (r: Result<
        bool,
        String,
    >)
        ensures
            match self {
                RunnerKind::Make(_) => r == Result::<bool, String>::Ok(probe.exit_code
                    == Some(0i32)),
                RunnerKind::Npm(_) => {
                    &&& r is Ok <==> crate::nodejs_npm::spec_npm_script_entries(probe.stdout@)
                        is Some
                    &&& r matches Ok(b) ==> {
                        let entries = crate::nodejs_npm::spec_npm_script_entries(
                            probe.stdout@,
                        ).unwrap();
                        b == exists|j: int|
                            0 <= j < entries.len() && entries[j].0 == context.script_spec@
                    }
                },
            },
    {
        match self {
            RunnerKind::Make(m) => m.can_run_script(context, probe),
            RunnerKind::Npm(n) => n.can_run_script(context, probe),
        }
    }

    /// The member's run invocation, as its own `run_command` describes.
    pub fn run_command(&self, context: &ScriptRunContext) -> (r: Option<CommandSpec>)
        ensures
            match self {
                RunnerKind::Make(m) => r matches Some(c) && c.program@ == m.make_runner.program@
                    && c.args.deep_view() =~= spec_make_run_args(context.script_spec@),
                RunnerKind::Npm(n) => r matches Some(c) && c.program@ == n.npm_runner.program@
                    && c.args.deep_view() =~= crate::nodejs_npm::spec_npm_run_args(
                        context.script_spec@,
                    ),
            },
    {
        match self {
            RunnerKind::Make(m) => m.run_command(context),
            RunnerKind::Npm(n) => n.run_command(context),
        }
    }
}

/// Whether `r` names the position of the first `true` in `probes`, or
/// nothing when every probe failed.
pub open spec fn spec_is_first_capable(probes: Seq<bool>, r: Option<int>) -> bool {
    match r {
        Some(i) => 0 <= i < probes.len() && probes[i] && (forall|k: int| 0 <= k < i ==> !probes[k]),
        None => forall|k: int| 0 <= k < probes.len() ==> !probes[k],
    }
}

/// An ordered composition of runners, from most generic to most specific.
/// The first runner whose probe succeeds is the one that executes; a chain
/// in which no probe succeeds yields the noop outcome, not an error.
pub struct WrapperScriptRunner {
    pub runners: Vec<RunnerKind>,
}

impl WrapperScriptRunner {
    /// Whether every member of the chain is well-formed.
    pub open spec fn wf(&self) -> bool {
        forall|i: int| 0 <= i < self.runners@.len() ==> (#[trigger] self.runners@[i]).wf()
    }

    /// Wraps an ecosystem-specific runner behind the generic runners, which
    /// are probed first.
    pub fn wrap_with_generic_runners(runner: RunnerKind) -> (r: WrapperScriptRunner)
        requires
            runner.wf(),
        ensures
            r.wf(),
            r.runners@.len() == 2,
            r.runners@[0] is Make,
            r.runners@[1] == runner,
    {
        let mut runners: Vec<RunnerKind> = Vec::new();
        runners.push(RunnerKind::Make(MakeScriptRunner::new()));
        runners.push(runner);
        WrapperScriptRunner { runners }
    }

    /// The chain holding the generic runners alone.
    pub fn generic_runners() -> (r: WrapperScriptRunner)
        ensures
            r.wf(),
            r.runners@.len() == 1,
            r.runners@[0] is Make,
    {
        let mut runners: Vec<RunnerKind> = Vec::new();
        runners.push(RunnerKind::Make(MakeScriptRunner::new()));
        WrapperScriptRunner { runners }
    }

    /// How many runners the chain composes.
    pub fn runner_count(&self) -> (n: usize)
        ensures
            n == self.runners@.len(),
    {
        self.runners.len()
    }

    /// Whether the chain can run the script, given the probes' outcomes in
    /// chain order: exactly when some composed runner's probe succeeded.
    pub fn can_run_script(&self, probes: &Vec<bool>) -> (r: bool)
        requires
            probes@.len() == self.runners@.len(),
        ensures
            r == (exists|k: int| 0 <= k < probes@.len() && probes@[k]),
    {
        match self.select_runner(probes) {
            Some(i) => {
                proof {
                    assert(probes@[i as int]);
                }
                true
            },
            None => {
                proof {
                    assert(!(exists|k: int| 0 <= k < probes@.len() && probes@[k])) by {
                        assert(forall|k: int| 0 <= k < probes@.len() ==> !probes@[k]);
                    }
                }
                false
            },
        }
    }

    /// Picks the runner that executes: the first whose probe succeeded, in
    /// chain order; none when every probe failed.
    pub fn select_runner(&self, probes: &Vec<bool>) -> (r: Option<usize>)
        requires
            probes@.len() == self.runners@.len(),
        ensures
            match r {
                Some(i) => spec_is_first_capable(probes@, Some(i as int)),
                None => spec_is_first_capable(probes@, None),
            },
    {
        let n = probes.len();
        let mut i: usize = 0;
        while i < n
            invariant
                i <= n,
                n == probes@.len(),
                forall|k: int| 0 <= k < i ==> !probes@[k],
            decreases n - i,
        {
            if probes[i] {
                return Some(i);
            }
            i = i + 1;
        }
        None
    }
}

/// The generic-first tie-break of the chain: when the most generic runner's
/// probe succeeds, it is the one selected to execute, whatever the probes of
/// the more specific runners would have said.
pub proof fn lemma_generic_runner_precedence(probes: Seq<bool>, selected: Option<int>)
    requires
        probes.len() > 0,
        probes[0],
        spec_is_first_capable(probes, selected),
    ensures
        selected == Some(0int),
{
    match selected {
        Some(i) => {
            if i > 0 {
                assert(!probes[0]);
            }
        },
        None => {
            assert(!probes[0]);
        },
    }
}

/// A chain in which no probe succeeds selects no runner; the caller then
/// takes the outcome of [`ScriptRunResult::noop`], whose contract pins it
/// to a `Noop` with exit code 0 and empty output — never an error.
pub proof fn lemma_no_capable_runner_is_noop(probes: Seq<bool>, selected: Option<int>)
    requires
        forall|k: int| 0 <= k < probes.len() ==> !probes[k],
        spec_is_first_capable(probes, selected),
    ensures
        selected is None,
{
    match selected {
        Some(i) => {
            assert(!probes[i]);
        },
        None => {},
    }
}

} // verus!
