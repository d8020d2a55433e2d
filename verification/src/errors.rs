//! The failures an operation can end in, and the one-line message of each.

use vstd::prelude::*;

verus! {

/// What went wrong.
#[derive(Clone, Copy, Debug, PartialEq, Eq, Structural)]
pub enum ErrorKind {
    /// No declaration file exists in the project.
    ConfigNotFound,
    /// The first declaration file that exists does not parse.
    ConfigParseError,
    /// Neither engine could be launched.
    NoRuntimeAvailable,
    /// The declaration names a Dockerfile and no image.
    UnsupportedBuildSource,
    /// The declaration names neither image nor Dockerfile.
    NoImageSpecified,
    /// The engine could not create the container.
    CreateFailed,
    /// The engine could not start the container.
    StartFailed,
    /// The engine could not be launched to inspect the container.
    InspectFailed,
    /// A command ran inside the container and reported failure.
    HookFailed,
    /// The engine could not be launched to run a command in the container.
    HookLaunchFailed,
    /// The engine could not be launched to list containers.
    ListFailed,
    /// The caller gave no project path.
    MissingProjectPath,
    /// The caller gave no container name or id.
    MissingContainer,
    /// The caller has no worktree open.
    MissingWorktree,
    /// The command name is not one of this library's.
    UnknownCommand,
    /// The driver reported something that was not asked for.
    UnexpectedEvent,
}

/// A failure: its kind and the detail that the message ends with (a path, a
/// parser's message, the engine's error output, the launch error). The
/// detail is empty for kinds that have none.
#[derive(Clone, Debug)]
pub struct Error {
    pub kind: ErrorKind,
    pub detail: String,
}

/// The fixed text that a message of this kind starts with.
pub open spec fn prefix_of(kind: ErrorKind) -> Seq<char> {
    match kind {
        ErrorKind::ConfigNotFound => "No devcontainer.json found in project"@,
        ErrorKind::ConfigParseError => "Failed to parse devcontainer.json: "@,
        ErrorKind::NoRuntimeAvailable =>
            "Neither docker nor podman found. Please install a container runtime."@,
        ErrorKind::UnsupportedBuildSource =>
            "Building from Dockerfile not yet implemented. Please build the image manually and specify it in 'image' field. Dockerfile: "@,
        ErrorKind::NoImageSpecified => "No image or dockerfile specified in devcontainer.json"@,
        ErrorKind::CreateFailed => "Failed to create container: "@,
        ErrorKind::StartFailed => "Failed to start container: "@,
        ErrorKind::InspectFailed => "Failed to inspect container: "@,
        ErrorKind::HookFailed => "Command failed: "@,
        ErrorKind::HookLaunchFailed => "Failed to execute command in container: "@,
        ErrorKind::ListFailed => "Failed to list containers: "@,
        ErrorKind::MissingProjectPath => "Please provide a project path"@,
        ErrorKind::MissingContainer => "Please provide a container name or ID"@,
        ErrorKind::MissingWorktree => "No worktree available"@,
        ErrorKind::UnknownCommand => "unknown slash command: "@,
        ErrorKind::UnexpectedEvent => "unexpected event"@,
    }
}

/// Whether a message of this kind puts its detail between double quotes.
pub open spec fn quotes_detail(kind: ErrorKind) -> bool {
    kind == ErrorKind::UnknownCommand
}

/// The message of a failure of `kind` with `detail`.
pub open spec fn message_of(kind: ErrorKind, detail: Seq<char>) -> Seq<char> {
    if quotes_detail(kind) {
        prefix_of(kind) + "\""@ + detail + "\""@
    } else {
        prefix_of(kind) + detail
    }
}

fn prefix(kind: ErrorKind) -> (out: String)
    ensures
        out@ == prefix_of(kind),
{
    match kind {
        ErrorKind::ConfigNotFound => String::from_str("No devcontainer.json found in project"),
        ErrorKind::ConfigParseError => String::from_str("Failed to parse devcontainer.json: "),
        ErrorKind::NoRuntimeAvailable => String::from_str(
            "Neither docker nor podman found. Please install a container runtime.",
        ),
        ErrorKind::UnsupportedBuildSource => String::from_str(
            "Building from Dockerfile not yet implemented. Please build the image manually and specify it in 'image' field. Dockerfile: ",
        ),
        ErrorKind::NoImageSpecified => String::from_str(
            "No image or dockerfile specified in devcontainer.json",
        ),
        ErrorKind::CreateFailed => String::from_str("Failed to create container: "),
        ErrorKind::StartFailed => String::from_str("Failed to start container: "),
        ErrorKind::InspectFailed => String::from_str("Failed to inspect container: "),
        ErrorKind::HookFailed => String::from_str("Command failed: "),
        ErrorKind::HookLaunchFailed => String::from_str("Failed to execute command in container: "),
        ErrorKind::ListFailed => String::from_str("Failed to list containers: "),
        ErrorKind::MissingProjectPath => String::from_str("Please provide a project path"),
        ErrorKind::MissingContainer => String::from_str("Please provide a container name or ID"),
        ErrorKind::MissingWorktree => String::from_str("No worktree available"),
        ErrorKind::UnknownCommand => String::from_str("unknown slash command: "),
        ErrorKind::UnexpectedEvent => String::from_str("unexpected event"),
    }
}

impl Error {
    /// A failure of a kind that carries no detail.
    pub fn bare(kind: ErrorKind) -> (out: Error)
        ensures
            out.kind == kind,
            out.detail@ == Seq::<char>::empty(),
    {
        Error { kind, detail: String::new() }
    }

    /// A failure of `kind` with a copy of `detail`.
    pub fn with_detail(kind: ErrorKind, detail: &str) -> (out: Error)
        ensures
            out.kind == kind,
            out.detail@ == detail@,
    {
        Error { kind, detail: String::from_str(detail) }
    }

    /// The single line shown to the user.
    pub fn message(&self) -> (out: String)
        ensures
            out@ == message_of(self.kind, self.detail@),
    {
        let mut out = prefix(self.kind);
        match self.kind {
            ErrorKind::UnknownCommand => {
                out.append("\"");
                out.append(self.detail.as_str());
                out.append("\"");
            },
            _ => {
                out.append(self.detail.as_str());
            },
        }
        out
    }
}

} // verus!
