//! The texts that an operation hands back to the user.

use vstd::prelude::*;
use crate::config::{ContainerState, DevcontainerConfig, Runtime};

verus! {

/// A finished operation's answer: one labelled section of text.
#[derive(Clone, Debug)]
pub struct Report {
    pub label: String,
    pub text: String,
}

/// `label`, the value and a line feed where there is a value; nothing
/// where there is none.
pub open spec fn optional_line(label: Seq<char>, value: Option<Seq<char>>) -> Seq<char> {
    match value {
        Some(v) => label + v + "\n"@,
        None => Seq::empty(),
    }
}

/// The text of an optional string.
pub open spec fn text_of(value: Option<String>) -> Option<Seq<char>> {
    match value {
        Some(v) => Some(v@),
        None => None,
    }
}

/// How to reach a container by hand after it was created.
pub open spec fn open_instructions(runtime: Runtime, container: Seq<char>) -> Seq<char> {
    "To connect to this container, use Zed's remote development feature:\n1. Open Command Palette (Cmd/Ctrl+Shift+P)\n2. Run 'projects: Open Remote'\n3. Connect using: ssh root@localhost -o ProxyCommand=\""@
        + runtime.program_text() + " exec -i "@ + container
        + " sh\"\n\nOr use the /devcontainer-attach command with the container name."@
}

/// How to reach a container by hand after attaching to it.
pub open spec fn attach_instructions(runtime: Runtime, container: Seq<char>) -> Seq<char> {
    "To connect to this container using Zed's remote development:\n1. Open Command Palette (Cmd/Ctrl+P)\n2. Run 'projects: Open Remote'\n3. Connect using: ssh root@localhost -o ProxyCommand=\""@
        + runtime.program_text() + " exec -i "@ + container + " sh\"\n"@
}

/// The report of a finished open operation. `warning` is the message of
/// the failure of the post-create command, where it failed.
pub open spec fn open_text(
    project_path: Seq<char>,
    runtime: Runtime,
    config: &DevcontainerConfig,
    container: Seq<char>,
    warning: Option<Seq<char>>,
) -> Seq<char> {
    "Opening devcontainer for project: "@ + project_path + "\n\n"@ + "Container runtime: "@
        + runtime.program_text() + "\n"@ + optional_line(
        "Devcontainer name: "@,
        text_of(config.name),
    ) + optional_line("Using image: "@, text_of(config.image)) + "\nCreating container...\n"@
        + "Container created: "@ + container + "\n"@ + "\nRunning post-create commands...\n"@
        + optional_line("Warning: Post-create command failed: "@, warning)
        + "\n\u{e2}\u{153}\u{201c} Container is ready!\n\n"@ + open_instructions(
        runtime,
        container,
    )
}

/// The report of a finished attach operation on a container that was
/// found in `state`; a stopped one has been started by then.
pub open spec fn attach_text(container: Seq<char>, runtime: Runtime, state: ContainerState) -> Seq<
    char,
> {
    "Container: "@ + container + "\n"@ + match state {
        ContainerState::Running => "Status: Running\n\n"@,
        ContainerState::Stopped =>
            "Status: Stopped\n\nContainer is not running. Starting it...\nContainer started.\n\n"@,
    } + attach_instructions(runtime, container)
}

/// The report of a rebuild operation.
pub open spec fn rebuild_text() -> Seq<char> {
    "Rebuilding devcontainer...\n\nThis feature will:\n1. Stop the current container\n2. Remove the container\n3. Create a new container with updated configuration\n\nNote: Manual rebuild is required. Use /devcontainer-open to create a new container.\n"@
}

fn line(label: &str, value: &Option<String>) -> (out: String)
    ensures
        out@ == optional_line(label@, text_of(*value)),
{
    match value {
        Some(v) => {
            let mut out = String::from_str(label);
            out.append(v.as_str());
            out.append("\n");
            out
        },
        None => String::new(),
    }
}

fn open_instructions_string(runtime: Runtime, container: &str) -> (out: String)
    ensures
        out@ == open_instructions(runtime, container@),
{
    let mut out = String::from_str(
        "To connect to this container, use Zed's remote development feature:\n1. Open Command Palette (Cmd/Ctrl+Shift+P)\n2. Run 'projects: Open Remote'\n3. Connect using: ssh root@localhost -o ProxyCommand=\"",
    );
    out.append(runtime.program().as_str());
    out.append(" exec -i ");
    out.append(container);
    out.append(" sh\"\n\nOr use the /devcontainer-attach command with the container name.");
    out
}

fn attach_instructions_string(runtime: Runtime, container: &str) -> (out: String)
    ensures
        out@ == attach_instructions(runtime, container@),
{
    let mut out = String::from_str(
        "To connect to this container using Zed's remote development:\n1. Open Command Palette (Cmd/Ctrl+P)\n2. Run 'projects: Open Remote'\n3. Connect using: ssh root@localhost -o ProxyCommand=\"",
    );
    out.append(runtime.program().as_str());
    out.append(" exec -i ");
    out.append(container);
    out.append(" sh\"\n");
    out
}

/// The report of a finished open operation.
pub fn open_report(
    project_path: &str,
    runtime: Runtime,
    config: &DevcontainerConfig,
    container: &str,
    warning: &Option<String>,
) -> (out: Report)
    ensures
        out.label@ == "Devcontainer Open"@,
        out.text@ == open_text(project_path@, runtime, config, container@, text_of(*warning)),
{
    let mut text = String::from_str("Opening devcontainer for project: ");
    text.append(project_path);
    text.append("\n\n");
    text.append("Container runtime: ");
    text.append(runtime.program().as_str());
    text.append("\n");
    text.append(line("Devcontainer name: ", &config.name).as_str());
    text.append(line("Using image: ", &config.image).as_str());
    text.append("\nCreating container...\n");
    text.append("Container created: ");
    text.append(container);
    text.append("\n");
    text.append("\nRunning post-create commands...\n");
    text.append(line("Warning: Post-create command failed: ", warning).as_str());
    text.append("\n\u{e2}\u{153}\u{201c} Container is ready!\n\n");
    text.append(open_instructions_string(runtime, container).as_str());
    Report { label: String::from_str("Devcontainer Open"), text }
}

/// The report of a finished attach operation.
pub fn attach_report(container: &str, runtime: Runtime, state: ContainerState) -> (out: Report)
    ensures
        out.label@ == "Devcontainer Attach"@,
        out.text@ == attach_text(container@, runtime, state),
{
    let mut text = String::from_str("Container: ");
    text.append(container);
    text.append("\n");
    match state {
        ContainerState::Running => {
            text.append("Status: Running\n\n");
        },
        ContainerState::Stopped => {
            text.append(
                "Status: Stopped\n\nContainer is not running. Starting it...\nContainer started.\n\n",
            );
        },
    }
    text.append(attach_instructions_string(runtime, container).as_str());
    Report { label: String::from_str("Devcontainer Attach"), text }
}

/// The report of a rebuild operation.
pub fn rebuild_report() -> (out: Report)
    ensures
        out.label@ == "Devcontainer Rebuild"@,
        out.text@ == rebuild_text(),
{
    Report {
        label: String::from_str("Devcontainer Rebuild"),
        text: String::from_str(
            "Rebuilding devcontainer...\n\nThis feature will:\n1. Stop the current container\n2. Remove the container\n3. Create a new container with updated configuration\n\nNote: Manual rebuild is required. Use /devcontainer-open to create a new container.\n",
        ),
    }
}

} // verus!
