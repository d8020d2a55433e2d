use devcontainer::args::{container_name, run_arguments};
use devcontainer::config::{DevcontainerConfig, HookCommand, HookToken};
use devcontainer::errors::{Error, ErrorKind};
use devcontainer::hooks::shell_command;
use devcontainer::text::{decimal_string, join, replace_char, split_text};

fn strings(items: &[&str]) -> Vec<String> {
    items.iter().map(|s| s.to_string()).collect()
}

fn with_image(image: &str) -> DevcontainerConfig {
    let mut config = DevcontainerConfig::empty();
    config.image = Some(image.to_string());
    config
}

#[test]
fn declaration_without_image_or_dockerfile_is_refused() {
    let mut config = DevcontainerConfig::empty();
    config.name = Some("x".to_string());
    config.forward_ports = vec![1, 2];
    let err = run_arguments(&config, "/p").unwrap_err();
    assert_eq!(err.kind, ErrorKind::NoImageSpecified);
    assert_eq!(err.detail, "");
    assert_eq!(err.message(), "No image or dockerfile specified in devcontainer.json");
}

#[test]
fn dockerfile_only_declaration_names_the_dockerfile() {
    let mut config = DevcontainerConfig::empty();
    config.dockerfile = Some("docker/Dockerfile.dev".to_string());
    let err = run_arguments(&config, "/p").unwrap_err();
    assert_eq!(err.kind, ErrorKind::UnsupportedBuildSource);
    assert_eq!(err.detail, "docker/Dockerfile.dev");
    assert_eq!(
        err.message(),
        "Building from Dockerfile not yet implemented. Please build the image manually and specify it in 'image' field. Dockerfile: docker/Dockerfile.dev"
    );
}

#[test]
fn image_wins_over_dockerfile() {
    let mut config = with_image("alpine");
    config.dockerfile = Some("Dockerfile".to_string());
    let args = run_arguments(&config, "/p").unwrap();
    assert_eq!(
        args,
        strings(&[
            "run",
            "-d",
            "--name",
            "zed-devcontainer",
            "--mount",
            "type=bind,source=/p,target=/workspace",
            "alpine",
            "sleep",
            "infinity",
        ])
    );
}

#[test]
fn forwarded_ports_keep_their_order() {
    let mut config = with_image("alpine");
    config.forward_ports = vec![3000, 8080];
    let args = run_arguments(&config, "/p").unwrap();
    let first = args.windows(2).position(|w| w[0] == "-p" && w[1] == "3000:3000").unwrap();
    let second = args.windows(2).position(|w| w[0] == "-p" && w[1] == "8080:8080").unwrap();
    assert!(first < second);
    assert_eq!(args.iter().filter(|a| *a == "-p").count(), 2);
}

#[test]
fn declared_mount_follows_the_workspace_mount() {
    let mut config = with_image("alpine");
    config.mounts = strings(&["type=bind,source=/a,target=/b"]);
    let args = run_arguments(&config, "/home/me/proj").unwrap();
    let mounts: Vec<&String> = args
        .windows(2)
        .filter(|w| w[0] == "--mount")
        .map(|w| &w[1])
        .collect();
    assert_eq!(
        mounts,
        vec!["type=bind,source=/home/me/proj,target=/workspace", "type=bind,source=/a,target=/b"]
    );
}

#[test]
fn declared_workspace_mount_is_used_as_it_stands() {
    let mut config = with_image("alpine");
    config.workspace_mount = Some("type=volume,source=v,target=/w".to_string());
    let args = run_arguments(&config, "/p").unwrap();
    assert_eq!(args[4], "--mount");
    assert_eq!(args[5], "type=volume,source=v,target=/w");
    assert_eq!(args.iter().filter(|a| *a == "--mount").count(), 1);
}

#[test]
fn full_argument_list_is_in_order() {
    let mut config = with_image("ubuntu:22.04");
    config.name = Some("My App".to_string());
    config.mounts = strings(&["m1", "m2"]);
    config.forward_ports = vec![80, 0, 65535];
    config.run_args = strings(&["--privileged", "--cap-add=SYS_PTRACE"]);
    let args = run_arguments(&config, "/src").unwrap();
    assert_eq!(
        args,
        strings(&[
            "run",
            "-d",
            "--name",
            "zed-devcontainer-My-App",
            "--mount",
            "type=bind,source=/src,target=/workspace",
            "--mount",
            "m1",
            "--mount",
            "m2",
            "-p",
            "80:80",
            "-p",
            "0:0",
            "-p",
            "65535:65535",
            "--privileged",
            "--cap-add=SYS_PTRACE",
            "ubuntu:22.04",
            "sleep",
            "infinity",
        ])
    );
}

#[test]
fn name_with_space_gives_hyphenated_container_name() {
    let mut config = DevcontainerConfig::empty();
    config.name = Some("My App".to_string());
    assert_eq!(container_name(&config), "zed-devcontainer-My-App");
}

#[test]
fn missing_name_gives_default_container_name() {
    assert_eq!(container_name(&DevcontainerConfig::empty()), "zed-devcontainer");
}

#[test]
fn every_space_of_the_name_is_replaced() {
    let mut config = DevcontainerConfig::empty();
    config.name = Some(" a  b ".to_string());
    assert_eq!(container_name(&config), "zed-devcontainer--a--b-");
    assert_eq!(replace_char("caf\u{e9} au lait", ' ', '-'), "caf\u{e9}-au-lait");
}

#[test]
fn decimal_numerals() {
    assert_eq!(decimal_string(0), "0");
    assert_eq!(decimal_string(7), "7");
    assert_eq!(decimal_string(10), "10");
    assert_eq!(decimal_string(3000), "3000");
    assert_eq!(decimal_string(65535), "65535");
}

#[test]
fn join_and_split() {
    assert_eq!(join(&strings(&[]), " "), "");
    assert_eq!(join(&strings(&["a"]), " "), "a");
    assert_eq!(join(&strings(&["a", "b", "c"]), " "), "a b c");
    assert_eq!(split_text("", '|'), strings(&[""]));
    assert_eq!(split_text("a|b", '|'), strings(&["a", "b"]));
    assert_eq!(split_text("|a||", '|'), strings(&["", "a", "", ""]));
}

#[test]
fn hook_list_is_joined_by_spaces() {
    let hook = Some(HookCommand::Tokens(vec![
        HookToken::Text("echo".to_string()),
        HookToken::Text("hi".to_string()),
    ]));
    assert_eq!(shell_command(&hook), Some("echo hi".to_string()));
}

#[test]
fn hook_list_leaves_out_what_is_no_string() {
    let hook = Some(HookCommand::Tokens(vec![
        HookToken::Text("npm".to_string()),
        HookToken::Other,
        HookToken::Text("install".to_string()),
    ]));
    assert_eq!(shell_command(&hook), Some("npm install".to_string()));
    assert_eq!(shell_command(&Some(HookCommand::Tokens(vec![]))), Some(String::new()));
}

#[test]
fn hook_string_is_kept_and_other_shapes_are_nothing() {
    let hook = Some(HookCommand::Shell("npm  install && true".to_string()));
    assert_eq!(shell_command(&hook), Some("npm  install && true".to_string()));
    assert_eq!(shell_command(&Some(HookCommand::Unsupported)), None);
    assert_eq!(shell_command(&None), None);
}

#[test]
fn messages_of_all_kinds() {
    let cases = [
        (ErrorKind::ConfigNotFound, "", "No devcontainer.json found in project"),
        (ErrorKind::ConfigParseError, "eof", "Failed to parse devcontainer.json: eof"),
        (
            ErrorKind::NoRuntimeAvailable,
            "",
            "Neither docker nor podman found. Please install a container runtime.",
        ),
        (ErrorKind::CreateFailed, "boom", "Failed to create container: boom"),
        (ErrorKind::StartFailed, "boom", "Failed to start container: boom"),
        (ErrorKind::InspectFailed, "boom", "Failed to inspect container: boom"),
        (ErrorKind::HookFailed, "boom", "Command failed: boom"),
        (ErrorKind::HookLaunchFailed, "boom", "Failed to execute command in container: boom"),
        (ErrorKind::ListFailed, "boom", "Failed to list containers: boom"),
        (ErrorKind::MissingProjectPath, "", "Please provide a project path"),
        (ErrorKind::MissingContainer, "", "Please provide a container name or ID"),
        (ErrorKind::MissingWorktree, "", "No worktree available"),
        (ErrorKind::UnknownCommand, "nope", "unknown slash command: \"nope\""),
        (ErrorKind::UnexpectedEvent, "", "unexpected event"),
    ];
    for (kind, detail, message) in cases {
        assert_eq!(Error::with_detail(kind, detail).message(), message);
    }
    assert_eq!(Error::bare(ErrorKind::ConfigNotFound).detail, "");
}
