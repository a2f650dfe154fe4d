use mrt::executor::{pair_results, runner_chain_for};
use mrt::nodejs_npm::NpmPackageScriptRunner;
use mrt::package::{Package, PackageStatus};
use mrt::runners::{classify_exit, CommandRunner, MakeScriptRunner, NoopScriptRunner, ProbeOutput,
    RunnerKind, ScriptRunContext, ScriptRunResult, ScriptRunResultType, ScriptRunner,
    WrapperScriptRunner};
use mrt::text::{i64_to_string, join_path, strip_path_prefix, u64_to_string};

fn sample_package(name: &str, archetype_id: &str) -> Package {
    Package {
        name: String::from(name),
        version: String::from("1.0.0"),
        path: format!("packages/{}", name),
        absolute_path: format!("/repo/packages/{}", name),
        archetype_id: String::from(archetype_id),
        status: PackageStatus::Valid,
    }
}

fn context(script: &str) -> ScriptRunContext {
    ScriptRunContext {
        script_spec: String::from(script),
        package: sample_package("lib", "nodejs/npm"),
    }
}

fn probe_with_exit(code: Option<i32>) -> ProbeOutput {
    ProbeOutput { exit_code: code, stdout: Vec::new() }
}

#[test]
fn classify_exit_codes() {
    assert!(matches!(classify_exit(Some(0)), ScriptRunResultType::Success));
    match classify_exit(Some(2)) {
        ScriptRunResultType::Error(message) => assert_eq!(message, "Exit code 2"),
        other => panic!("expected an error, got {:?}", other),
    }
    match classify_exit(Some(-9)) {
        ScriptRunResultType::Error(message) => assert_eq!(message, "Exit code -9"),
        other => panic!("expected an error, got {:?}", other),
    }
    assert!(matches!(classify_exit(None), ScriptRunResultType::Noop));
}

#[test]
fn noop_outcome_is_benign() {
    let noop = ScriptRunResult::noop();
    assert!(noop.result_type.is_noop());
    assert!(!noop.result_type.is_success());
    assert_eq!(noop.exit_code, 0);
    assert_eq!(noop.command, "");
    assert_eq!(noop.stdout, "");
    assert_eq!(noop.stderr, "");
}

#[test]
fn make_runner_builds_probe_and_run_commands() {
    let runner = MakeScriptRunner::new();
    let ctx = context("format");
    let probe = runner.probe_command(&ctx).unwrap();
    assert_eq!(probe.program, "make");
    assert_eq!(probe.args, vec![String::from("format"), String::from("--dry-run")]);
    let run = runner.run_command(&ctx).unwrap();
    assert_eq!(run.program, "make");
    assert_eq!(run.args, vec![String::from("format")]);
    assert_eq!(runner.can_run_script(&ctx, &probe_with_exit(Some(0))), Ok(true));
    assert_eq!(runner.can_run_script(&ctx, &probe_with_exit(Some(2))), Ok(false));
    assert_eq!(runner.can_run_script(&ctx, &probe_with_exit(None)), Ok(false));
}

#[test]
fn npm_runner_builds_probe_and_run_commands() {
    let runner = NpmPackageScriptRunner::new();
    let ctx = context("build");
    let probe = runner.probe_command(&ctx).unwrap();
    assert_eq!(probe.program, "npm");
    assert_eq!(probe.args, vec![String::from("run"), String::from("--json")]);
    let run = runner.run_command(&ctx).unwrap();
    assert_eq!(run.program, "npm");
    assert_eq!(run.args, vec![String::from("run"), String::from("build")]);
}

#[test]
fn npm_runner_reads_script_listing() {
    let runner = NpmPackageScriptRunner::new();
    let listing = ProbeOutput {
        exit_code: Some(0),
        stdout: b"{\"build\":\"tsc\",\"test\":\"jest\"}".to_vec(),
    };
    let scripts = runner.list_available_scripts(&listing).unwrap();
    assert_eq!(scripts.len(), 2);
    assert!(scripts.iter().any(|(key, _)| key == "build"));

    assert_eq!(runner.can_run_script(&context("build"), &listing), Ok(true));
    assert_eq!(runner.can_run_script(&context("publish"), &listing), Ok(false));

    let not_an_object = ProbeOutput { exit_code: Some(0), stdout: b"[1,2,3]".to_vec() };
    assert!(runner.can_run_script(&context("build"), &not_an_object).is_err());
    let not_json = ProbeOutput { exit_code: Some(0), stdout: b"npm ERR!".to_vec() };
    assert!(runner.can_run_script(&context("build"), &not_json).is_err());
}

#[test]
fn noop_runner_never_runs() {
    let runner = NoopScriptRunner {};
    let ctx = context("anything");
    assert!(runner.probe_command(&ctx).is_none());
    assert!(runner.run_command(&ctx).is_none());
    assert_eq!(runner.can_run_script(&ctx, &probe_with_exit(Some(0))), Ok(false));
}

#[test]
fn wrapper_chain_prefers_generic_runner() {
    let chain = WrapperScriptRunner::wrap_with_generic_runners(RunnerKind::Npm(
        NpmPackageScriptRunner::new(),
    ));
    assert_eq!(chain.runner_count(), 2);
    // both probes succeed: the generic (make) runner, probed first, wins
    assert_eq!(chain.select_runner(&vec![true, true]), Some(0));
    // only the specific runner claims the script
    assert_eq!(chain.select_runner(&vec![false, true]), Some(1));
    // nobody claims it: no runner is selected, the outcome is the noop
    assert_eq!(chain.select_runner(&vec![false, false]), None);
    assert!(chain.can_run_script(&vec![true, false]));
    assert!(chain.can_run_script(&vec![false, true]));
    assert!(!chain.can_run_script(&vec![false, false]));

    let generic_only = WrapperScriptRunner::generic_runners();
    assert_eq!(generic_only.runner_count(), 1);
    assert_eq!(generic_only.select_runner(&vec![false]), None);
}

#[test]
fn command_runner_describes_and_finishes_runs() {
    let runner = CommandRunner::new(String::from("npm"));
    let args = vec![String::from("run"), String::from("build")];
    assert_eq!(runner.describe(&args), "npm run build");
    assert_eq!(runner.describe(&Vec::new()), "npm ");

    let lines = vec![String::from("first"), String::from("second")];
    let result = runner.finish_run(
        String::from("npm run build"),
        Some(0),
        &lines,
        String::from("warnings"),
    );
    assert_eq!(result.command, "npm run build");
    assert!(result.result_type.is_success());
    assert_eq!(result.exit_code, 0);
    assert_eq!(result.stdout, "firstsecond");
    assert_eq!(result.stderr, "warnings");

    let failed = runner.finish_run(String::from("npm run build"), Some(2), &Vec::new(),
        String::new());
    assert_eq!(failed.exit_code, 2);
    assert!(matches!(failed.result_type, ScriptRunResultType::Error(_)));

    let signalled = runner.finish_run(String::from("npm run build"), None, &Vec::new(),
        String::new());
    assert_eq!(signalled.exit_code, 0);
    assert!(signalled.result_type.is_noop());
}

#[test]
fn progress_lines_are_tagged_with_command() {
    assert_eq!(mrt::runners::progress_line("npm run build", "compiled"), "npm run build: compiled");
}

#[test]
fn batch_results_keep_input_order_with_one_failure() {
    let packages = vec![
        sample_package("one", "nodejs/npm"),
        sample_package("two", "python/poetry"),
        sample_package("three", "nodejs/npm"),
    ];
    let runner = CommandRunner::new(String::from("make"));
    let outcomes = vec![
        runner.finish_run(String::from("make build"), Some(0), &Vec::new(), String::new()),
        runner.finish_run(String::from("make build"), Some(2), &Vec::new(), String::new()),
        runner.finish_run(String::from("make build"), Some(0), &Vec::new(), String::new()),
    ];
    let paired = pair_results(packages, outcomes);
    assert_eq!(paired.len(), 3);
    assert_eq!(paired[0].0.name, "one");
    assert_eq!(paired[1].0.name, "two");
    assert_eq!(paired[2].0.name, "three");
    assert!(paired[0].1.result_type.is_success());
    match &paired[1].1.result_type {
        ScriptRunResultType::Error(message) => assert_eq!(message, "Exit code 2"),
        other => panic!("expected an error, got {:?}", other),
    }
    assert!(paired[2].1.result_type.is_success());
    let failures = paired
        .iter()
        .filter(|(_, r)| matches!(r.result_type, ScriptRunResultType::Error(_)))
        .count();
    assert_eq!(failures, 1);
}

#[test]
fn runner_chains_resolve_from_archetype_id() {
    let npm_chain = runner_chain_for(&sample_package("a", "nodejs/npm")).unwrap();
    assert_eq!(npm_chain.runner_count(), 2);
    let poetry_chain = runner_chain_for(&sample_package("b", "python/poetry")).unwrap();
    assert_eq!(poetry_chain.runner_count(), 1);
    assert!(runner_chain_for(&sample_package("c", "")).is_none());
}

#[test]
fn decimal_rendering() {
    assert_eq!(u64_to_string(0), "0");
    assert_eq!(u64_to_string(9), "9");
    assert_eq!(u64_to_string(1234567890), "1234567890");
    assert_eq!(i64_to_string(-5), "-5");
    assert_eq!(i64_to_string(42), "42");
    assert_eq!(i64_to_string(i64::MIN), "-9223372036854775808");
}

#[test]
fn path_utilities() {
    assert_eq!(strip_path_prefix("/a/b/c", "/a/b"), Some(String::from("c")));
    assert_eq!(strip_path_prefix("/a/b", "/a/b"), Some(String::from("")));
    assert_eq!(strip_path_prefix("/a/bc", "/a/b"), None);
    assert_eq!(strip_path_prefix("/a", "/a/b"), None);
    assert_eq!(join_path("/repo", "packages/x"), "/repo/packages/x");
    assert_eq!(join_path("/repo", "/abs/path"), "/abs/path");
}
