//! The devcontainer declaration as the rest of the library reads it.

use vstd::prelude::*;

verus! {

/// One element of a hook given as a list.
#[derive(Clone, Debug)]
pub enum HookToken {
    /// A string element.
    Text(String),
    /// Any element that is not a string.
    Other,
}

/// A lifecycle command in one of the shapes a declaration may give it.
#[derive(Clone, Debug)]
pub enum HookCommand {
    /// A single shell command line.
    Shell(String),
    /// An ordered list of elements.
    Tokens(Vec<HookToken>),
    /// Any other shape; it is never run.
    Unsupported,
}

/// A parsed devcontainer declaration. Every field is optional; whether the
/// declaration names a usable image is decided only when a container is
/// about to be created.
#[derive(Clone, Debug)]
pub struct DevcontainerConfig {
    pub name: Option<String>,
    pub image: Option<String>,
    pub dockerfile: Option<String>,
    pub context: Option<String>,
    pub workspace_folder: Option<String>,
    pub workspace_mount: Option<String>,
    pub mounts: Vec<String>,
    pub run_args: Vec<String>,
    pub post_create_command: Option<HookCommand>,
    pub post_start_command: Option<HookCommand>,
    pub post_attach_command: Option<HookCommand>,
    pub forward_ports: Vec<u16>,
    pub remote_user: Option<String>,
}

impl DevcontainerConfig {
    /// The declaration that sets nothing.
    pub fn empty() -> (out: DevcontainerConfig)
        ensures
            out.name is None,
            out.image is None,
            out.dockerfile is None,
            out.context is None,
            out.workspace_folder is None,
            out.workspace_mount is None,
            out.mounts@.len() == 0,
            out.run_args@.len() == 0,
            out.post_create_command is None,
            out.post_start_command is None,
            out.post_attach_command is None,
            out.forward_ports@.len() == 0,
            out.remote_user is None,
    {
        DevcontainerConfig {
            name: None,
            image: None,
            dockerfile: None,
            context: None,
            workspace_folder: None,
            workspace_mount: None,
            mounts: Vec::new(),
            run_args: Vec::new(),
            post_create_command: None,
            post_start_command: None,
            post_attach_command: None,
            forward_ports: Vec::new(),
            remote_user: None,
        }
    }
}

/// The container engines that can be driven.
#[derive(Clone, Copy, Debug, PartialEq, Eq, Structural)]
pub enum Runtime {
    Docker,
    Podman,
}

impl Runtime {
    /// The name of the engine's binary.
    pub open spec fn program_text(self) -> Seq<char> {
        match self {
            Runtime::Docker => "docker"@,
            Runtime::Podman => "podman"@,
        }
    }

    /// The name of the engine's binary.
    pub fn program(self) -> (out: String)
        ensures
            out@ == self.program_text(),
    {
        match self {
            Runtime::Docker => String::from_str("docker"),
            Runtime::Podman => String::from_str("podman"),
        }
    }
}

/// Whether a container was seen running.
#[derive(Clone, Copy, Debug, PartialEq, Eq, Structural)]
pub enum ContainerState {
    Running,
    Stopped,
}

} // verus!
