//! Tests of path validation, invocation composition, the execution
//! session, output collection, and report rendering.

use bifrost::bifrost_run::{manifest_path, run};
use bifrost::config::{BifrostPath, Config, WorkSpace};
use bifrost::docker::{
    collect, DockerEnv, ExecDirective, ExecEvent, ExecPhase, ExecutionResult,
};
use bifrost::errors::{ConfigError, ExecError, PathError};
use bifrost::manifest::ManifestConfig;
use bifrost::report::render;

fn test_workspace() -> WorkSpace {
    WorkSpace::new(Config::new(String::from("/home/user"), String::from("/home/user/proj")))
}

const ECHO_MANIFEST: &str = "[project]\nname = \"p\"\n[container]\nname = \"docker\"\n[workspace]\nname = \"w\"\nignore = []\n[command]\ncmds = [\"echo hello\", \"echo world\"]\n";

#[test]
fn validator_rejects_reserved_and_hidden_names() {
    assert!(matches!(BifrostPath::new("test"), Err(PathError::Reserved)));
    assert!(matches!(BifrostPath::new(".bifrost"), Err(PathError::Reserved)));
    assert!(matches!(BifrostPath::new(".hidden"), Err(PathError::Reserved)));
    let ok = BifrostPath::new("myproject").expect("an ordinary name must pass");
    assert_eq!(ok.path, "myproject");
}

#[test]
fn validator_looks_at_the_final_component() {
    assert!(matches!(BifrostPath::new("some/dir/test"), Err(PathError::Reserved)));
    assert!(BifrostPath::new("some/test/project").is_ok());
    assert!(matches!(BifrostPath::new(""), Err(PathError::Empty)));
    assert!(matches!(BifrostPath::new("ends/with/slash/"), Err(PathError::Empty)));
}

#[test]
fn mount_specification_is_composed_from_home() {
    let ws = test_workspace();
    let env = DockerEnv::new(&ws);
    assert_eq!(env.mounted_dir, "/home/user/.bifrost/container:/test");
}

#[test]
fn commands_are_collected_in_order() {
    let ws = test_workspace();
    let mut env = DockerEnv::new(&ws);
    let m = ManifestConfig::load(Some(ECHO_MANIFEST)).unwrap();
    env.collect_commands(m);
    assert_eq!(env.cmds, vec!["echo hello", "echo world"]);
}

#[test]
fn composition_joins_commands_with_and() {
    let ws = test_workspace();
    let mut env = DockerEnv::new(&ws);
    env.collect_commands(ManifestConfig::load(Some(ECHO_MANIFEST)).unwrap());
    let inv = env.compose_invocation();
    assert_eq!(inv.mounted_dir, "/home/user/.bifrost/container:/test");
    assert_eq!(inv.command_line, "bash -c \"cd /test/; echo hello && echo world; \"");
}

#[test]
fn composition_is_deterministic() {
    let ws = test_workspace();
    let m = ManifestConfig::load(Some(ECHO_MANIFEST)).unwrap();
    let mut env1 = DockerEnv::new(&ws);
    env1.collect_commands(m.clone());
    let mut env2 = DockerEnv::new(&ws);
    env2.collect_commands(m);
    let a = env1.compose_invocation();
    let b = env2.compose_invocation();
    assert_eq!(a.mounted_dir, b.mounted_dir);
    assert_eq!(a.command_line, b.command_line);
}

#[test]
fn runtime_argv_is_fixed() {
    let ws = test_workspace();
    let inv = DockerEnv::new(&ws).compose_invocation();
    let argv = inv.argv();
    assert_eq!(
        argv,
        vec!["docker", "run", "--rm", "-i", "-v", "/home/user/.bifrost/container:/test",
            "bifrost:0.1"]
    );
}

#[test]
fn collect_drops_empty_output_and_keeps_errors() {
    let r = collect(Some(String::new()), Some(String::from("boom")));
    assert!(r.stdout.is_empty());
    assert_eq!(r.stderr, vec!["boom"]);
    assert!(!r.succeeded());
}

#[test]
fn collect_keeps_output_and_drops_empty_errors() {
    let r = collect(Some(String::from("hello\n")), Some(String::new()));
    assert_eq!(r.stdout, vec!["hello\n"]);
    assert!(r.stderr.is_empty());
    assert!(r.succeeded());
}

#[test]
fn collect_treats_missing_streams_as_empty() {
    let r = collect(None, None);
    assert!(r.stdout.is_empty());
    assert!(r.stderr.is_empty());
    assert!(r.succeeded());
}

#[test]
fn process_output_appends_only_non_empty_text() {
    let ws = test_workspace();
    let mut env = DockerEnv::new(&ws);
    env.process_output(String::from("out"), String::new());
    env.process_output(String::new(), String::from("err"));
    assert_eq!(env.stdout, vec!["out"]);
    assert_eq!(env.stderr, vec!["err"]);
}

#[test]
fn run_prepares_the_echo_invocation() {
    let ws = test_workspace();
    let session = run(&ws, Some(ECHO_MANIFEST)).expect("the echo manifest must run");
    assert_eq!(session.phase, ExecPhase::Created);
    assert_eq!(session.invocation.mounted_dir, "/home/user/.bifrost/container:/test");
    assert_eq!(
        session.invocation.command_line,
        "bash -c \"cd /test/; echo hello && echo world; \""
    );
}

#[test]
fn run_without_a_manifest_file_is_not_found() {
    let ws = test_workspace();
    match run(&ws, None) {
        Err(ConfigError::NotFound) => {}
        other => panic!("expected NotFound, got {:?}", other.map(|_| ())),
    }
}

#[test]
fn run_with_an_empty_command_list_is_malformed() {
    let text = "[project]\nname = \"p\"\n[container]\nname = \"docker\"\n[workspace]\nname = \"w\"\nignore = []\n[command]\ncmds = []\n";
    let ws = test_workspace();
    match run(&ws, Some(text)) {
        Err(ConfigError::Malformed) => {}
        other => panic!("expected Malformed, got {:?}", other.map(|_| ())),
    }
}

#[test]
fn manifest_is_expected_in_the_working_directory() {
    let ws = test_workspace();
    assert_eq!(manifest_path(&ws), "/home/user/proj/Bifrost.toml");
}

#[test]
fn a_failed_spawn_aborts_with_launch_failed() {
    let ws = test_workspace();
    let mut session = run(&ws, Some(ECHO_MANIFEST)).unwrap();
    match session.step(ExecEvent::SpawnFailed) {
        ExecDirective::Abort(ExecError::LaunchFailed) => {}
        other => panic!("expected a LaunchFailed abort, got {:?}", other),
    }
    assert_eq!(session.phase, ExecPhase::Terminated);
}

#[test]
fn a_broken_channel_aborts_with_communication_failed() {
    let ws = test_workspace();
    let mut session = run(&ws, Some(ECHO_MANIFEST)).unwrap();
    match session.step(ExecEvent::Spawned) {
        ExecDirective::WriteInput(_) => {}
        other => panic!("expected a write directive, got {:?}", other),
    }
    match session.step(ExecEvent::ChannelBroken) {
        ExecDirective::Abort(ExecError::CommunicationFailed) => {}
        other => panic!("expected a CommunicationFailed abort, got {:?}", other),
    }
    assert_eq!(session.phase, ExecPhase::Terminated);
}

#[test]
fn a_full_session_delivers_the_collected_result() {
    let ws = test_workspace();
    let mut session = run(&ws, Some(ECHO_MANIFEST)).unwrap();
    let input = match session.step(ExecEvent::Spawned) {
        ExecDirective::WriteInput(line) => line,
        other => panic!("expected a write directive, got {:?}", other),
    };
    assert_eq!(input, "bash -c \"cd /test/; echo hello && echo world; \"");
    assert_eq!(session.phase, ExecPhase::Launched);
    assert!(matches!(session.step(ExecEvent::InputWritten), ExecDirective::AwaitOutput));
    assert_eq!(session.phase, ExecPhase::InputSent);
    assert!(matches!(session.step(ExecEvent::DrainStarted), ExecDirective::AwaitOutput));
    assert_eq!(session.phase, ExecPhase::Draining);
    let outcome = session.step(ExecEvent::Drained(
        Some(String::from("hello\nworld\n")),
        Some(String::new()),
    ));
    match outcome {
        ExecDirective::Deliver(result) => {
            assert_eq!(result.stdout, vec!["hello\nworld\n"]);
            assert!(result.stderr.is_empty());
            assert!(result.succeeded());
        }
        other => panic!("expected a delivery, got {:?}", other),
    }
    assert_eq!(session.phase, ExecPhase::Terminated);
}

#[test]
fn report_lists_output_then_errors() {
    let result = ExecutionResult {
        stdout: vec![String::from("hello\n"), String::from("world\n")],
        stderr: vec![String::from("oops\n")],
    };
    assert_eq!(render(&result), "OUTPUT\nhello\nworld\n\n\nERRORS\noops\n");
}

#[test]
fn report_of_an_empty_result_has_both_headings() {
    let result = ExecutionResult { stdout: vec![], stderr: vec![] };
    assert_eq!(render(&result), "OUTPUT\n\n\nERRORS\n");
}
