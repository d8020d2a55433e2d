use devcontainer::config::{DevcontainerConfig, HookCommand, HookToken, Runtime};
use devcontainer::errors::ErrorKind;
use devcontainer::lifecycle::{ContainerRecord, Launch, ProcessOutput};
use devcontainer::orchestrator::{
    advance, begin, begin_completion, completions, Action, ConfigFile, Event, Operation,
    Session, Stage,
};
use devcontainer::report::{attach_report, open_report, rebuild_report};
use devcontainer::config::ContainerState;

fn strings(items: &[&str]) -> Vec<String> {
    items.iter().map(|s| s.to_string()).collect()
}

fn finished(status: Option<i32>, stdout: &str, stderr: &str) -> Event {
    Event::Process(Launch::Completed(ProcessOutput {
        status,
        stdout: stdout.as_bytes().to_vec(),
        stderr: stderr.as_bytes().to_vec(),
    }))
}

fn not_launched(reason: &str) -> Event {
    Event::Process(Launch::Failed(reason.to_string()))
}

fn demo() -> DevcontainerConfig {
    let mut config = DevcontainerConfig::empty();
    config.name = Some("demo".to_string());
    config.image = Some("alpine:latest".to_string());
    config.forward_ports = vec![80];
    config
}

fn run_of(action: Action) -> (String, Vec<String>) {
    match action {
        Action::Run(program, arguments) => (program, arguments),
        other => panic!("expected a run, got {:?}", other),
    }
}

fn report_of(action: Action) -> (String, String) {
    match action {
        Action::Report(report) => (report.label, report.text),
        other => panic!("expected a report, got {:?}", other),
    }
}

fn failure_of(action: Action) -> (ErrorKind, String) {
    match action {
        Action::Fail(error) => (error.kind, error.message()),
        other => panic!("expected a failure, got {:?}", other),
    }
}

fn path_of(action: Action) -> String {
    match action {
        Action::ReadConfig(path) => path,
        other => panic!("expected a read, got {:?}", other),
    }
}

/// Takes an open of `/proj` with `config` up to the creation call.
fn opened(config: DevcontainerConfig) -> Session {
    let (session, action) = begin("devcontainer-open", &strings(&["/proj"]), None);
    assert_eq!(path_of(action), "/proj/.devcontainer/devcontainer.json");
    let (session, action) = advance(session, Event::Config(ConfigFile::Parsed(config)));
    assert_eq!(run_of(action), ("docker".to_string(), strings(&["--version"])));
    let (session, action) = advance(session, finished(Some(0), "Docker version 27", ""));
    let (program, arguments) = run_of(action);
    assert_eq!(program, "docker");
    assert_eq!(arguments[0], "run");
    assert_eq!(session.stage, Stage::Create);
    session
}

#[test]
fn open_without_hook_reports_the_created_container() {
    let (session, _) = begin("devcontainer-open", &strings(&["/proj"]), None);
    let (session, _) = advance(session, Event::Config(ConfigFile::Parsed(demo())));
    let (session, action) = advance(session, finished(Some(0), "", ""));
    assert_eq!(
        run_of(action),
        (
            "docker".to_string(),
            strings(&[
                "run",
                "-d",
                "--name",
                "zed-devcontainer-demo",
                "--mount",
                "type=bind,source=/proj,target=/workspace",
                "-p",
                "80:80",
                "alpine:latest",
                "sleep",
                "infinity",
            ])
        )
    );
    let (session, action) = advance(session, finished(Some(0), "deadbeef\n", ""));
    assert_eq!(session.stage, Stage::Done);
    let (label, text) = report_of(action);
    assert_eq!(label, "Devcontainer Open");
    assert!(text.contains("Container created: zed-devcontainer-demo\n"));
    assert!(!text.contains("Warning"));
    assert!(text.starts_with(
        "Opening devcontainer for project: /proj\n\nContainer runtime: docker\nDevcontainer name: demo\nUsing image: alpine:latest\n\nCreating container...\n"
    ));
    assert!(text.ends_with(
        "3. Connect using: ssh root@localhost -o ProxyCommand=\"docker exec -i zed-devcontainer-demo sh\"\n\nOr use the /devcontainer-attach command with the container name."
    ));
}

#[test]
fn open_with_failing_hook_still_reports_with_a_warning() {
    let mut config = demo();
    config.post_create_command = Some(HookCommand::Shell("false".to_string()));
    let session = opened(config);
    let (session, action) = advance(session, finished(Some(0), "", ""));
    assert_eq!(session.stage, Stage::Hook);
    assert_eq!(
        run_of(action),
        ("docker".to_string(), strings(&["exec", "zed-devcontainer-demo", "sh", "-c", "false"]))
    );
    let (session, action) = advance(session, finished(Some(1), "", "oops"));
    assert_eq!(session.stage, Stage::Done);
    let (_, text) = report_of(action);
    assert!(text.contains("Container created: zed-devcontainer-demo"));
    assert!(text
        .lines()
        .any(|l| l == "Warning: Post-create command failed: Command failed: oops"));
}

#[test]
fn open_with_hook_that_cannot_launch_warns_too() {
    let mut config = demo();
    config.post_create_command = Some(HookCommand::Shell("true".to_string()));
    let session = opened(config);
    let (session, _) = advance(session, finished(Some(0), "", ""));
    let (_, action) = advance(session, not_launched("gone"));
    let (_, text) = report_of(action);
    assert!(text.contains(
        "\nWarning: Post-create command failed: Failed to execute command in container: gone\n"
    ));
}

#[test]
fn open_with_passing_hook_has_no_warning() {
    let mut config = demo();
    config.post_create_command = Some(HookCommand::Tokens(vec![
        HookToken::Text("echo".to_string()),
        HookToken::Text("hi".to_string()),
    ]));
    let session = opened(config);
    let (session, action) = advance(session, finished(Some(0), "", ""));
    let (_, arguments) = run_of(action);
    assert_eq!(arguments, strings(&["exec", "zed-devcontainer-demo", "sh", "-c", "echo hi"]));
    let (_, action) = advance(session, finished(Some(0), "hi\n", ""));
    let (_, text) = report_of(action);
    assert!(!text.contains("Warning"));
    assert!(text.contains("\nRunning post-create commands...\n\n"));
}

#[test]
fn open_with_unsupported_hook_runs_nothing() {
    let mut config = demo();
    config.post_create_command = Some(HookCommand::Unsupported);
    let session = opened(config);
    let (session, action) = advance(session, finished(Some(0), "", ""));
    assert_eq!(session.stage, Stage::Done);
    let (_, text) = report_of(action);
    assert!(!text.contains("Warning"));
}

#[test]
fn open_joins_its_arguments_and_needs_one() {
    let (session, action) = begin("devcontainer-open", &strings(&["/my", "proj"]), None);
    assert_eq!(session.subject, "/my proj");
    assert_eq!(session.operation, Operation::Open);
    assert_eq!(path_of(action), "/my proj/.devcontainer/devcontainer.json");
    let (session, action) = begin("devcontainer-open", &strings(&[]), None);
    assert_eq!(session.stage, Stage::Done);
    assert_eq!(
        failure_of(action),
        (ErrorKind::MissingProjectPath, "Please provide a project path".to_string())
    );
}

#[test]
fn declaration_is_looked_for_in_two_places() {
    let (session, _) = begin("devcontainer-open", &strings(&["/proj"]), None);
    let (session, action) = advance(session, Event::Config(ConfigFile::Missing));
    assert_eq!(session.stage, Stage::SecondaryConfig);
    assert_eq!(path_of(action), "/proj/.devcontainer.json");
    let (session, action) = advance(session, Event::Config(ConfigFile::Missing));
    assert_eq!(session.stage, Stage::Done);
    assert_eq!(
        failure_of(action),
        (ErrorKind::ConfigNotFound, "No devcontainer.json found in project".to_string())
    );
}

#[test]
fn second_place_is_used_when_the_first_is_missing() {
    let (session, _) = begin("devcontainer-open", &strings(&["/proj"]), None);
    let (session, _) = advance(session, Event::Config(ConfigFile::Missing));
    let (session, action) = advance(session, Event::Config(ConfigFile::Parsed(demo())));
    assert_eq!(session.stage, Stage::DockerProbe);
    assert_eq!(session.config.name, Some("demo".to_string()));
    assert_eq!(run_of(action).0, "docker");
}

#[test]
fn unparsable_first_place_ends_without_fallback() {
    let (session, _) = begin("devcontainer-open", &strings(&["/proj"]), None);
    let (session, action) =
        advance(session, Event::Config(ConfigFile::Invalid("expected value".to_string())));
    assert_eq!(session.stage, Stage::Done);
    assert_eq!(
        failure_of(action),
        (
            ErrorKind::ConfigParseError,
            "Failed to parse devcontainer.json: expected value".to_string()
        )
    );
}

#[test]
fn second_engine_is_tried_when_the_first_does_not_launch() {
    let (session, _) = begin("devcontainer-open", &strings(&["/proj"]), None);
    let (session, _) = advance(session, Event::Config(ConfigFile::Parsed(demo())));
    let (session, action) = advance(session, not_launched("no docker"));
    assert_eq!(session.stage, Stage::PodmanProbe);
    assert_eq!(run_of(action), ("podman".to_string(), strings(&["--version"])));
    let (session, action) = advance(session, finished(Some(1), "", "degraded"));
    assert_eq!(session.runtime, Runtime::Podman);
    assert_eq!(run_of(action).0, "podman");
    let (_, action) = advance(session, finished(Some(0), "", ""));
    let (_, text) = report_of(action);
    assert!(text.contains("Container runtime: podman\n"));
    assert!(text.contains("ProxyCommand=\"podman exec -i zed-devcontainer-demo sh\""));
}

#[test]
fn no_engine_ends_the_operation() {
    let (session, _) = begin("devcontainer-open", &strings(&["/proj"]), None);
    let (session, _) = advance(session, Event::Config(ConfigFile::Parsed(demo())));
    let (session, _) = advance(session, not_launched("no docker"));
    let (session, action) = advance(session, not_launched("no podman"));
    assert_eq!(session.stage, Stage::Done);
    assert_eq!(failure_of(action).0, ErrorKind::NoRuntimeAvailable);
}

#[test]
fn engine_with_failing_version_call_is_still_taken() {
    let (session, _) = begin("devcontainer-open", &strings(&["/proj"]), None);
    let (session, _) = advance(session, Event::Config(ConfigFile::Parsed(demo())));
    let (session, action) = advance(session, finished(Some(1), "", "daemon down"));
    assert_eq!(session.runtime, Runtime::Docker);
    assert_eq!(session.stage, Stage::Create);
    assert_eq!(run_of(action).0, "docker");
}

#[test]
fn open_of_declaration_without_image_fails_at_creation_time() {
    let (session, _) = begin("devcontainer-open", &strings(&["/proj"]), None);
    let (session, _) =
        advance(session, Event::Config(ConfigFile::Parsed(DevcontainerConfig::empty())));
    assert_eq!(session.stage, Stage::DockerProbe);
    let (session, action) = advance(session, finished(Some(0), "", ""));
    assert_eq!(session.stage, Stage::Done);
    assert_eq!(failure_of(action).0, ErrorKind::NoImageSpecified);
}

#[test]
fn open_of_dockerfile_declaration_is_refused() {
    let mut config = DevcontainerConfig::empty();
    config.dockerfile = Some("Dockerfile".to_string());
    let (session, _) = begin("devcontainer-open", &strings(&["/proj"]), None);
    let (session, _) = advance(session, Event::Config(ConfigFile::Parsed(config)));
    let (_, action) = advance(session, finished(Some(0), "", ""));
    let (kind, message) = failure_of(action);
    assert_eq!(kind, ErrorKind::UnsupportedBuildSource);
    assert!(message.ends_with("Dockerfile: Dockerfile"));
}

#[test]
fn failed_creation_ends_the_operation() {
    let (_, action) = advance(opened(demo()), finished(Some(125), "", "Conflict. name in use"));
    assert_eq!(
        failure_of(action),
        (
            ErrorKind::CreateFailed,
            "Failed to create container: Conflict. name in use".to_string()
        )
    );
    let (_, action) = advance(opened(demo()), not_launched("os error 2"));
    assert_eq!(
        failure_of(action),
        (ErrorKind::CreateFailed, "Failed to create container: os error 2".to_string())
    );
}

#[test]
fn rebuild_checks_declaration_and_engine_then_reports() {
    let (session, action) = begin("devcontainer-rebuild", &strings(&[]), Some("/tree"));
    assert_eq!(session.operation, Operation::Rebuild);
    assert_eq!(path_of(action), "/tree/.devcontainer/devcontainer.json");
    let (session, _) =
        advance(session, Event::Config(ConfigFile::Parsed(DevcontainerConfig::empty())));
    let (session, action) = advance(session, finished(Some(0), "", ""));
    assert_eq!(session.stage, Stage::Done);
    let (label, text) = report_of(action);
    assert_eq!(label, "Devcontainer Rebuild");
    assert_eq!(
        text,
        "Rebuilding devcontainer...\n\nThis feature will:\n1. Stop the current container\n2. Remove the container\n3. Create a new container with updated configuration\n\nNote: Manual rebuild is required. Use /devcontainer-open to create a new container.\n"
    );
    assert_eq!(rebuild_report().text, text);
}

#[test]
fn rebuild_needs_a_worktree() {
    let (session, action) = begin("devcontainer-rebuild", &strings(&["x"]), None);
    assert_eq!(session.stage, Stage::Done);
    assert_eq!(
        failure_of(action),
        (ErrorKind::MissingWorktree, "No worktree available".to_string())
    );
}

#[test]
fn attach_on_stopped_container_starts_it_before_reporting() {
    let (session, action) = begin("devcontainer-attach", &strings(&["c1"]), None);
    assert_eq!(run_of(action), ("docker".to_string(), strings(&["--version"])));
    let (session, action) = advance(session, finished(Some(0), "", ""));
    assert_eq!(session.stage, Stage::Inspect);
    assert_eq!(
        run_of(action),
        (
            "docker".to_string(),
            strings(&["inspect", "--format", "{{.State.Running}}", "c1"])
        )
    );
    let (session, action) = advance(session, finished(Some(0), "false\n", ""));
    assert_eq!(session.stage, Stage::Start);
    assert_eq!(run_of(action), ("docker".to_string(), strings(&["start", "c1"])));
    let (session, action) = advance(session, finished(Some(0), "c1\n", ""));
    assert_eq!(session.stage, Stage::Done);
    let (label, text) = report_of(action);
    assert_eq!(label, "Devcontainer Attach");
    assert_eq!(
        text,
        "Container: c1\nStatus: Stopped\n\nContainer is not running. Starting it...\nContainer started.\n\nTo connect to this container using Zed's remote development:\n1. Open Command Palette (Cmd/Ctrl+P)\n2. Run 'projects: Open Remote'\n3. Connect using: ssh root@localhost -o ProxyCommand=\"docker exec -i c1 sh\"\n"
    );
}

#[test]
fn attach_on_running_container_starts_nothing() {
    let (session, _) = begin("devcontainer-attach", &strings(&["my", "box"]), None);
    assert_eq!(session.subject, "my box");
    let (session, _) = advance(session, finished(Some(0), "", ""));
    let (session, action) = advance(session, finished(Some(0), "true\n", ""));
    assert_eq!(session.stage, Stage::Done);
    let (_, text) = report_of(action);
    assert!(text.starts_with("Container: my box\nStatus: Running\n\nTo connect"));
    assert!(!text.contains("Starting"));
    assert_eq!(attach_report("my box", Runtime::Docker, ContainerState::Running).text, text);
}

#[test]
fn attach_treats_an_inspection_error_as_stopped() {
    let (session, _) = begin("devcontainer-attach", &strings(&["c1"]), None);
    let (session, _) = advance(session, finished(Some(0), "", ""));
    let (session, action) = advance(session, finished(Some(1), "", "No such object"));
    assert_eq!(session.stage, Stage::Start);
    assert_eq!(run_of(action).1, strings(&["start", "c1"]));
}

#[test]
fn attach_fails_when_the_start_fails() {
    let (session, _) = begin("devcontainer-attach", &strings(&["c1"]), None);
    let (session, _) = advance(session, finished(Some(0), "", ""));
    let (session, _) = advance(session, finished(Some(0), "false", ""));
    let (done, action) = advance(session.clone(), finished(Some(1), "", "no such container"));
    assert_eq!(done.stage, Stage::Done);
    assert_eq!(
        failure_of(action),
        (ErrorKind::StartFailed, "Failed to start container: no such container".to_string())
    );
    let (_, action) = advance(session, not_launched("gone"));
    assert_eq!(
        failure_of(action),
        (ErrorKind::StartFailed, "Failed to start container: gone".to_string())
    );
}

#[test]
fn attach_fails_when_the_inspection_cannot_launch() {
    let (session, _) = begin("devcontainer-attach", &strings(&["c1"]), None);
    let (session, _) = advance(session, finished(Some(0), "", ""));
    let (_, action) = advance(session, not_launched("gone"));
    assert_eq!(
        failure_of(action),
        (ErrorKind::InspectFailed, "Failed to inspect container: gone".to_string())
    );
}

#[test]
fn attach_needs_a_container() {
    let (_, action) = begin("devcontainer-attach", &strings(&[]), None);
    assert_eq!(
        failure_of(action),
        (ErrorKind::MissingContainer, "Please provide a container name or ID".to_string())
    );
}

#[test]
fn unknown_command_is_refused() {
    let (session, action) = begin("devcontainer-destroy", &strings(&["x"]), None);
    assert_eq!(session.stage, Stage::Done);
    assert_eq!(
        failure_of(action),
        (
            ErrorKind::UnknownCommand,
            "unknown slash command: \"devcontainer-destroy\"".to_string()
        )
    );
    let (_, action) = begin_completion("other");
    assert_eq!(failure_of(action).1, "unknown slash command: \"other\"");
}

#[test]
fn completion_lists_the_running_containers() {
    let (session, action) = begin_completion("devcontainer-attach");
    assert_eq!(run_of(action), ("docker".to_string(), strings(&["--version"])));
    let (session, action) = advance(session, not_launched("no docker"));
    assert_eq!(run_of(action).0, "podman");
    let (session, action) = advance(session, finished(Some(0), "", ""));
    assert_eq!(session.stage, Stage::List);
    assert_eq!(
        run_of(action),
        ("podman".to_string(), strings(&["ps", "--format", "{{.ID}}|{{.Names}}"]))
    );
    let (session, action) =
        advance(session, finished(Some(0), "abc123|mycontainer\nbad-line\nxyz789|other", ""));
    assert_eq!(session.stage, Stage::Done);
    match action {
        Action::Suggest(items) => {
            assert_eq!(items.len(), 2);
            assert_eq!(items[0].label, "mycontainer (abc123)");
            assert_eq!(items[0].new_text, "abc123");
            assert!(items[0].run_command);
            assert_eq!(items[1].label, "other (xyz789)");
            assert_eq!(items[1].new_text, "xyz789");
        }
        other => panic!("expected suggestions, got {:?}", other),
    }
}

#[test]
fn completion_of_other_commands_is_empty() {
    for command in ["devcontainer-open", "devcontainer-rebuild"] {
        let (session, action) = begin_completion(command);
        assert_eq!(session.stage, Stage::Done);
        assert!(matches!(action, Action::Suggest(items) if items.is_empty()));
    }
}

#[test]
fn completion_fails_when_the_listing_cannot_launch() {
    let (session, _) = begin_completion("devcontainer-attach");
    let (session, _) = advance(session, finished(Some(0), "", ""));
    let (_, action) = advance(session, not_launched("gone"));
    assert_eq!(
        failure_of(action),
        (ErrorKind::ListFailed, "Failed to list containers: gone".to_string())
    );
}

#[test]
fn suggestions_name_the_container_and_insert_the_id() {
    let records = vec![ContainerRecord { id: "1f".to_string(), name: "web".to_string() }];
    let items = completions(&records);
    assert_eq!(items.len(), 1);
    assert_eq!(items[0].label, "web (1f)");
    assert_eq!(items[0].new_text, "1f");
    assert!(items[0].run_command);
}

#[test]
fn event_that_was_not_asked_for_ends_the_operation() {
    let (session, _) = begin("devcontainer-open", &strings(&["/proj"]), None);
    let (session, action) = advance(session, finished(Some(0), "", ""));
    assert_eq!(session.stage, Stage::Done);
    assert_eq!(failure_of(action).0, ErrorKind::UnexpectedEvent);
    let (_, action) = advance(session, Event::Config(ConfigFile::Missing));
    assert_eq!(failure_of(action).0, ErrorKind::UnexpectedEvent);
}

#[test]
fn open_report_text_is_exact() {
    let report = open_report("/p", Runtime::Docker, &DevcontainerConfig::empty(), "c", &None);
    assert_eq!(report.label, "Devcontainer Open");
    assert_eq!(
        report.text,
        "Opening devcontainer for project: /p\n\nContainer runtime: docker\n\nCreating container...\nContainer created: c\n\nRunning post-create commands...\n\n\u{e2}\u{153}\u{201c} Container is ready!\n\nTo connect to this container, use Zed's remote development feature:\n1. Open Command Palette (Cmd/Ctrl+Shift+P)\n2. Run 'projects: Open Remote'\n3. Connect using: ssh root@localhost -o ProxyCommand=\"docker exec -i c sh\"\n\nOr use the /devcontainer-attach command with the container name."
    );
}

#[test]
fn listing_that_is_not_valid_text_is_read_with_replacements() {
    let (session, _) = begin_completion("devcontainer-attach");
    let (session, _) = advance(session, finished(Some(0), "", ""));
    let output = ProcessOutput {
        status: Some(0),
        stdout: vec![b'i', b'|', 0xff, b'\n', 0xe2, 0x9c, 0x93, b'|', b'n'],
        stderr: Vec::new(),
    };
    let (_, action) = advance(session, Event::Process(Launch::Completed(output)));
    match action {
        Action::Suggest(items) => {
            assert_eq!(items.len(), 2);
            assert_eq!(items[0].label, "\u{fffd} (i)");
            assert_eq!(items[1].label, "n (\u{2713})");
            assert_eq!(items[1].new_text, "\u{2713}");
        }
        other => panic!("expected suggestions, got {:?}", other),
    }
}
