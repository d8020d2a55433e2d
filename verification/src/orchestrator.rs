//! The user-facing operations as a sequence of steps. Each step names one
//! action for the driver (read a declaration, run the engine) or ends the
//! operation; the driver performs the action and reports what came of it.

use vstd::prelude::*;
use crate::args::{container_name, container_name_of, run_arguments, run_arguments_of};
use crate::config::{ContainerState, DevcontainerConfig, Runtime};
use crate::errors::{message_of, Error, ErrorKind};
use crate::hooks::{shell_command, shell_command_of};
use crate::lifecycle::{
    check_exec, check_launch, container_state, decode, exec_arguments, failure_of,
    inspect_arguments, lines, list_arguments, lossy_text, parse_container_list, record_texts,
    records_of, start_arguments, state_of, trimmed, version_arguments, ContainerRecord, Launch,
    ProcessOutput,
};
use crate::report::{
    attach_report, attach_text, open_report, open_text, rebuild_report, rebuild_text, Report,
};
use crate::text::{join, joined, same_text, texts};

verus! {

/// The operation that a session carries out.
#[derive(Clone, Copy, Debug, PartialEq, Eq, Structural)]
pub enum Operation {
    Open,
    Rebuild,
    Attach,
    Complete,
}

/// What a session is waiting for.
#[derive(Clone, Copy, Debug, PartialEq, Eq, Structural)]
pub enum Stage {
    /// The declaration in the project's `.devcontainer` directory.
    PrimaryConfig,
    /// The declaration at the project's root.
    SecondaryConfig,
    /// The version call of the first engine.
    DockerProbe,
    /// The version call of the second engine.
    PodmanProbe,
    /// The creation of the container.
    Create,
    /// The post-create command.
    Hook,
    /// The inspection of the container.
    Inspect,
    /// The start of the container.
    Start,
    /// The listing of the running containers.
    List,
    /// Nothing: the operation has ended.
    Done,
}

/// One operation under way. `subject` is the project path of an open or a
/// rebuild and the container of an attach; `config` and `runtime` hold
/// what has been loaded and found so far, `container` the name of the
/// container once an open has asked for it.
#[derive(Clone, Debug)]
pub struct Session {
    pub operation: Operation,
    pub stage: Stage,
    pub subject: String,
    pub config: DevcontainerConfig,
    pub runtime: Runtime,
    pub container: String,
}

/// What the driver found at the path of a declaration.
#[derive(Clone, Debug)]
pub enum ConfigFile {
    /// No file could be read there.
    Missing,
    /// A file is there and does not parse; the text is the parser's message.
    Invalid(String),
    /// A file is there and holds this declaration.
    Parsed(DevcontainerConfig),
}

/// What the driver reports after an action.
#[derive(Clone, Debug)]
pub enum Event {
    Config(ConfigFile),
    Process(Launch),
}

/// A suggested argument for the attach command.
#[derive(Clone, Debug)]
pub struct Completion {
    pub label: String,
    pub new_text: String,
    pub run_command: bool,
}

/// What the driver is to do next. The last three end the operation.
#[derive(Clone, Debug)]
pub enum Action {
    /// Read and parse the declaration at this path.
    ReadConfig(String),
    /// Run this program with these arguments.
    Run(String, Vec<String>),
    /// Hand this report to the user.
    Report(Report),
    /// Hand this failure to the user.
    Fail(Error),
    /// Hand these suggestions to the user.
    Suggest(Vec<Completion>),
}

/// Where the declaration is looked for first.
pub open spec fn primary_path(project_path: Seq<char>) -> Seq<char> {
    project_path + "/.devcontainer/devcontainer.json"@
}

/// Where the declaration is looked for when the first place holds none.
pub open spec fn secondary_path(project_path: Seq<char>) -> Seq<char> {
    project_path + "/.devcontainer.json"@
}

/// The suggestion for a listed container: its name with the id in
/// brackets as the label, the id as the text to insert, to be run at once.
pub open spec fn suggestion_for(c: Completion, record: (Seq<char>, Seq<char>)) -> bool {
    &&& c.label@ == record.1 + " ("@ + record.0 + ")"@
    &&& c.new_text@ == record.0
    &&& c.run_command
}

impl Action {
    pub open spec fn reads(&self, path: Seq<char>) -> bool {
        self matches Action::ReadConfig(p) && p@ == path
    }

    pub open spec fn runs(&self, program: Seq<char>, arguments: Seq<Seq<char>>) -> bool {
        self matches Action::Run(p, a) && p@ == program && texts(a@) == arguments
    }

    pub open spec fn reports(&self, label: Seq<char>, text: Seq<char>) -> bool {
        self matches Action::Report(r) && r.label@ == label && r.text@ == text
    }

    pub open spec fn fails(&self, kind: ErrorKind, detail: Seq<char>) -> bool {
        self matches Action::Fail(e) && e.kind == kind && e.detail@ == detail
    }

    pub open spec fn suggests(&self, records: Seq<(Seq<char>, Seq<char>)>) -> bool {
        self matches Action::Suggest(items) && items@.len() == records.len() && forall|i: int|
            0 <= i < records.len() ==> suggestion_for(#[trigger] items@[i], records[i])
    }

    /// The action ends the operation.
    pub open spec fn is_final(&self) -> bool {
        self is Report || self is Fail || self is Suggest
    }
}

impl Stage {
    /// How far along a stage is. No step leads to a stage that is not
    /// further along.
    pub open spec fn rank(self) -> nat {
        match self {
            Stage::PrimaryConfig => 0,
            Stage::SecondaryConfig => 1,
            Stage::DockerProbe => 2,
            Stage::PodmanProbe => 3,
            Stage::Create => 4,
            Stage::Inspect => 4,
            Stage::List => 4,
            Stage::Hook => 5,
            Stage::Start => 5,
            Stage::Done => 6,
        }
    }
}

impl Session {
    /// The stage fits the operation, and a session that has asked for a
    /// container holds a declaration with an image and the name that the
    /// declaration gives the container.
    pub open spec fn consistent(&self) -> bool {
        match self.stage {
            Stage::PrimaryConfig | Stage::SecondaryConfig => self.operation == Operation::Open
                || self.operation == Operation::Rebuild,
            Stage::DockerProbe | Stage::PodmanProbe | Stage::Done => true,
            Stage::Create => {
                &&& self.operation == Operation::Open
                &&& self.config.image is Some
                &&& self.container@ == container_name_of(&self.config)
            },
            Stage::Hook => {
                &&& self.operation == Operation::Open
                &&& self.config.image is Some
                &&& self.container@ == container_name_of(&self.config)
                &&& shell_command_of(self.config.post_create_command) is Some
            },
            Stage::Inspect | Stage::Start => self.operation == Operation::Attach,
            Stage::List => self.operation == Operation::Complete,
        }
    }

    /// `post` is this session moved to `stage`, all else as it was.
    pub open spec fn moved_to(&self, post: Session, stage: Stage) -> bool {
        &&& post.stage == stage
        &&& post.operation == self.operation
        &&& post.subject@ == self.subject@
        &&& post.config == self.config
        &&& post.runtime == self.runtime
        &&& post.container@ == self.container@
    }
}

/// The first step of the command `command`. An open needs a project path
/// and a rebuild a worktree, and both start by looking for the
/// declaration; an attach needs a container and starts by looking for an
/// engine. Several arguments are one value, joined by single spaces.
pub open spec fn begins(
    command: Seq<char>,
    arguments: Seq<Seq<char>>,
    worktree: Option<Seq<char>>,
    post: Session,
    action: Action,
) -> bool {
    if command == "devcontainer-open"@ {
        if arguments.len() == 0 {
            post.stage == Stage::Done && action.fails(
                ErrorKind::MissingProjectPath,
                Seq::empty(),
            )
        } else {
            &&& post.operation == Operation::Open
            &&& post.stage == Stage::PrimaryConfig
            &&& post.subject@ == joined(arguments, " "@)
            &&& action.reads(primary_path(post.subject@))
        }
    } else if command == "devcontainer-rebuild"@ {
        match worktree {
            None => post.stage == Stage::Done && action.fails(
                ErrorKind::MissingWorktree,
                Seq::empty(),
            ),
            Some(root) => {
                &&& post.operation == Operation::Rebuild
                &&& post.stage == Stage::PrimaryConfig
                &&& post.subject@ == root
                &&& action.reads(primary_path(root))
            },
        }
    } else if command == "devcontainer-attach"@ {
        if arguments.len() == 0 {
            post.stage == Stage::Done && action.fails(ErrorKind::MissingContainer, Seq::empty())
        } else {
            &&& post.operation == Operation::Attach
            &&& post.stage == Stage::DockerProbe
            &&& post.subject@ == joined(arguments, " "@)
            &&& action.runs("docker"@, seq!["--version"@])
        }
    } else {
        post.stage == Stage::Done && action.fails(ErrorKind::UnknownCommand, command)
    }
}

/// The first step of completing an argument of `command`: only the attach
/// command has suggestions, and they need an engine.
pub open spec fn begins_completion(command: Seq<char>, post: Session, action: Action) -> bool {
    if command == "devcontainer-open"@ || command == "devcontainer-rebuild"@ {
        post.stage == Stage::Done && action.suggests(Seq::empty())
    } else if command == "devcontainer-attach"@ {
        &&& post.operation == Operation::Complete
        &&& post.stage == Stage::DockerProbe
        &&& action.runs("docker"@, seq!["--version"@])
    } else {
        post.stage == Stage::Done && action.fails(ErrorKind::UnknownCommand, command)
    }
}

/// The step after a look at one place of the declaration. A file that
/// does not parse ends the operation at once, also at the first place; a
/// missing file sends the driver to the second place, and ends the
/// operation when that was the second; a parsed one is kept and the first
/// engine is probed.
pub open spec fn config_step(pre: Session, file: ConfigFile, post: Session, action: Action) -> bool {
    match file {
        ConfigFile::Invalid(detail) => post.stage == Stage::Done && action.fails(
            ErrorKind::ConfigParseError,
            detail@,
        ),
        ConfigFile::Missing => if pre.stage == Stage::PrimaryConfig {
            pre.moved_to(post, Stage::SecondaryConfig) && action.reads(
                secondary_path(pre.subject@),
            )
        } else {
            post.stage == Stage::Done && action.fails(ErrorKind::ConfigNotFound, Seq::empty())
        },
        ConfigFile::Parsed(config) => {
            &&& post.stage == Stage::DockerProbe
            &&& post.operation == pre.operation
            &&& post.subject@ == pre.subject@
            &&& post.config == config
            &&& action.runs("docker"@, seq!["--version"@])
        },
    }
}

/// The step once `runtime` is known to launch.
pub open spec fn runtime_step(pre: Session, runtime: Runtime, post: Session, action: Action) -> bool {
    match pre.operation {
        Operation::Open => match pre.config.image {
            Some(image) => {
                &&& post.stage == Stage::Create
                &&& post.operation == pre.operation
                &&& post.subject@ == pre.subject@
                &&& post.config == pre.config
                &&& post.runtime == runtime
                &&& post.container@ == container_name_of(&pre.config)
                &&& action.runs(
                    runtime.program_text(),
                    run_arguments_of(&pre.config, pre.subject@, image@),
                )
            },
            None => match pre.config.dockerfile {
                Some(dockerfile) => post.stage == Stage::Done && action.fails(
                    ErrorKind::UnsupportedBuildSource,
                    dockerfile@,
                ),
                None => post.stage == Stage::Done && action.fails(
                    ErrorKind::NoImageSpecified,
                    Seq::empty(),
                ),
            },
        },
        Operation::Rebuild => post.stage == Stage::Done && action.reports(
            "Devcontainer Rebuild"@,
            rebuild_text(),
        ),
        Operation::Attach => {
            &&& post.stage == Stage::Inspect
            &&& post.operation == pre.operation
            &&& post.subject@ == pre.subject@
            &&& post.runtime == runtime
            &&& action.runs(
                runtime.program_text(),
                seq!["inspect"@, "--format"@, "{{.State.Running}}"@, pre.subject@],
            )
        },
        Operation::Complete => {
            &&& post.stage == Stage::List
            &&& post.operation == pre.operation
            &&& post.runtime == runtime
            &&& action.runs(
                runtime.program_text(),
                seq!["ps"@, "--format"@, "{{.ID}}|{{.Names}}"@],
            )
        },
    }
}

/// The step after a version call. An engine that launched is taken,
/// whatever it answered; when the first did not launch the second is
/// tried, and when neither did the operation ends.
pub open spec fn probe_step(pre: Session, launch: Launch, post: Session, action: Action) -> bool {
    match launch {
        Launch::Completed(_) => runtime_step(
            pre,
            if pre.stage == Stage::DockerProbe {
                Runtime::Docker
            } else {
                Runtime::Podman
            },
            post,
            action,
        ),
        Launch::Failed(_) => if pre.stage == Stage::DockerProbe {
            pre.moved_to(post, Stage::PodmanProbe) && action.runs("podman"@, seq!["--version"@])
        } else {
            post.stage == Stage::Done && action.fails(
                ErrorKind::NoRuntimeAvailable,
                Seq::empty(),
            )
        },
    }
}

/// The step after the creation call. A failed creation ends the operation.
/// After a successful one the post-create command is run where the
/// declaration has one that stands for a command line; else the report is
/// ready, without a warning.
pub open spec fn create_step(pre: Session, launch: Launch, post: Session, action: Action) -> bool {
    match failure_of(&launch) {
        Some(detail) => post.stage == Stage::Done && action.fails(
            ErrorKind::CreateFailed,
            detail,
        ),
        None => match shell_command_of(pre.config.post_create_command) {
            Some(line) => pre.moved_to(post, Stage::Hook) && action.runs(
                pre.runtime.program_text(),
                seq!["exec"@, pre.container@, "sh"@, "-c"@, line],
            ),
            None => post.stage == Stage::Done && action.reports(
                "Devcontainer Open"@,
                open_text(pre.subject@, pre.runtime, &pre.config, pre.container@, None),
            ),
        },
    }
}

/// The message of the failure of a post-create command, where it failed.
pub open spec fn hook_warning(launch: Launch) -> Option<Seq<char>> {
    match launch {
        Launch::Failed(reason) => Some(message_of(ErrorKind::HookLaunchFailed, reason@)),
        Launch::Completed(output) => if output.succeeded() {
            None
        } else {
            Some(message_of(ErrorKind::HookFailed, lossy_text(output.stderr@)))
        },
    }
}

/// The step after the post-create command: the operation ends with its
/// report either way, and a failed command shows as a warning in it.
pub open spec fn hook_step(pre: Session, launch: Launch, post: Session, action: Action) -> bool {
    post.stage == Stage::Done && action.reports(
        "Devcontainer Open"@,
        open_text(pre.subject@, pre.runtime, &pre.config, pre.container@, hook_warning(launch)),
    )
}

/// The step after the inspection: a running container is reported at
/// once, any other answer has the container started first.
pub open spec fn inspect_step(pre: Session, launch: Launch, post: Session, action: Action) -> bool {
    match launch {
        Launch::Failed(reason) => post.stage == Stage::Done && action.fails(
            ErrorKind::InspectFailed,
            reason@,
        ),
        Launch::Completed(output) => match state_of(trimmed(lossy_text(output.stdout@))) {
            ContainerState::Running => post.stage == Stage::Done && action.reports(
                "Devcontainer Attach"@,
                attach_text(pre.subject@, pre.runtime, ContainerState::Running),
            ),
            ContainerState::Stopped => pre.moved_to(post, Stage::Start) && action.runs(
                pre.runtime.program_text(),
                seq!["start"@, pre.subject@],
            ),
        },
    }
}

/// The step after the start call: a failed start ends the operation, a
/// successful one is reported.
pub open spec fn start_step(pre: Session, launch: Launch, post: Session, action: Action) -> bool {
    post.stage == Stage::Done && match failure_of(&launch) {
        Some(detail) => action.fails(ErrorKind::StartFailed, detail),
        None => action.reports(
            "Devcontainer Attach"@,
            attach_text(pre.subject@, pre.runtime, ContainerState::Stopped),
        ),
    }
}

/// The step after the listing: one suggestion for each listed container.
pub open spec fn list_step(pre: Session, launch: Launch, post: Session, action: Action) -> bool {
    post.stage == Stage::Done && match launch {
        Launch::Failed(reason) => action.fails(ErrorKind::ListFailed, reason@),
        Launch::Completed(output) => action.suggests(
            records_of(lines(lossy_text(output.stdout@))),
        ),
    }
}

/// The step that `event` causes in `pre`. An event that the stage does not
/// wait for ends the operation.
pub open spec fn step(pre: Session, event: Event, post: Session, action: Action) -> bool {
    match (pre.stage, event) {
        (Stage::PrimaryConfig, Event::Config(file)) => config_step(pre, file, post, action),
        (Stage::SecondaryConfig, Event::Config(file)) => config_step(pre, file, post, action),
        (Stage::DockerProbe, Event::Process(launch)) => probe_step(pre, launch, post, action),
        (Stage::PodmanProbe, Event::Process(launch)) => probe_step(pre, launch, post, action),
        (Stage::Create, Event::Process(launch)) => create_step(pre, launch, post, action),
        (Stage::Hook, Event::Process(launch)) => hook_step(pre, launch, post, action),
        (Stage::Inspect, Event::Process(launch)) => inspect_step(pre, launch, post, action),
        (Stage::Start, Event::Process(launch)) => start_step(pre, launch, post, action),
        (Stage::List, Event::Process(launch)) => list_step(pre, launch, post, action),
        _ => post.stage == Stage::Done && action.fails(
            ErrorKind::UnexpectedEvent,
            Seq::empty(),
        ),
    }
}

fn fresh(operation: Operation, stage: Stage, subject: String) -> (out: Session)
    ensures
        out.operation == operation,
        out.stage == stage,
        out.subject == subject,
{
    Session {
        operation,
        stage,
        subject,
        config: DevcontainerConfig::empty(),
        runtime: Runtime::Docker,
        container: String::new(),
    }
}

fn ended(session: Session) -> (out: Session)
    ensures
        out.stage == Stage::Done,
{
    let mut out = session;
    out.stage = Stage::Done;
    out
}

fn probe(runtime: Runtime) -> (out: Action)
    ensures
        out.runs(runtime.program_text(), seq!["--version"@]),
{
    Action::Run(runtime.program(), version_arguments())
}

fn unexpected(session: Session) -> (out: (Session, Action))
    ensures
        out.0.stage == Stage::Done,
        out.1.fails(ErrorKind::UnexpectedEvent, Seq::empty()),
{
    (ended(session), Action::Fail(Error::bare(ErrorKind::UnexpectedEvent)))
}

/// The text of an optional string slice.
pub open spec fn slice_text(value: Option<&str>) -> Option<Seq<char>> {
    match value {
        Some(v) => Some(v@),
        None => None,
    }
}

/// Starts the operation that the command `command` names, with the
/// arguments and the worktree root that the user's call came with.
pub fn begin(command: &str, arguments: &Vec<String>, worktree: Option<&str>) -> (out: (
    Session,
    Action,
))
    ensures
        begins(command@, texts(arguments@), slice_text(worktree), out.0, out.1),
{
    if same_text(command, "devcontainer-open") {
        if arguments.len() == 0 {
            (
                fresh(Operation::Open, Stage::Done, String::new()),
                Action::Fail(Error::bare(ErrorKind::MissingProjectPath)),
            )
        } else {
            let subject = join(arguments, " ");
            let mut path = subject.clone();
            path.append("/.devcontainer/devcontainer.json");
            (fresh(Operation::Open, Stage::PrimaryConfig, subject), Action::ReadConfig(path))
        }
    } else if same_text(command, "devcontainer-rebuild") {
        match worktree {
            None => (
                fresh(Operation::Rebuild, Stage::Done, String::new()),
                Action::Fail(Error::bare(ErrorKind::MissingWorktree)),
            ),
            Some(root) => {
                let subject = String::from_str(root);
                let mut path = subject.clone();
                path.append("/.devcontainer/devcontainer.json");
                (
                    fresh(Operation::Rebuild, Stage::PrimaryConfig, subject),
                    Action::ReadConfig(path),
                )
            },
        }
    } else if same_text(command, "devcontainer-attach") {
        if arguments.len() == 0 {
            (
                fresh(Operation::Attach, Stage::Done, String::new()),
                Action::Fail(Error::bare(ErrorKind::MissingContainer)),
            )
        } else {
            let subject = join(arguments, " ");
            (fresh(Operation::Attach, Stage::DockerProbe, subject), probe(Runtime::Docker))
        }
    } else {
        (
            fresh(Operation::Open, Stage::Done, String::new()),
            Action::Fail(Error::with_detail(ErrorKind::UnknownCommand, command)),
        )
    }
}

/// Starts the completion of an argument of the command `command`.
pub fn begin_completion(command: &str) -> (out: (Session, Action))
    ensures
        begins_completion(command@, out.0, out.1),
{
    if same_text(command, "devcontainer-open") || same_text(command, "devcontainer-rebuild") {
        (fresh(Operation::Complete, Stage::Done, String::new()), Action::Suggest(Vec::new()))
    } else if same_text(command, "devcontainer-attach") {
        (
            fresh(Operation::Complete, Stage::DockerProbe, String::new()),
            probe(Runtime::Docker),
        )
    } else {
        (
            fresh(Operation::Complete, Stage::Done, String::new()),
            Action::Fail(Error::with_detail(ErrorKind::UnknownCommand, command)),
        )
    }
}

fn after_config(session: Session, file: ConfigFile) -> (out: (Session, Action))
    requires
        session.stage == Stage::PrimaryConfig || session.stage == Stage::SecondaryConfig,
    ensures
        config_step(session, file, out.0, out.1),
{
    match file {
        ConfigFile::Invalid(detail) => (
            ended(session),
            Action::Fail(Error { kind: ErrorKind::ConfigParseError, detail }),
        ),
        ConfigFile::Missing => {
            match session.stage {
                Stage::PrimaryConfig => {
                    let mut path = session.subject.clone();
                    path.append("/.devcontainer.json");
                    let mut next = session;
                    next.stage = Stage::SecondaryConfig;
                    (next, Action::ReadConfig(path))
                },
                _ => (ended(session), Action::Fail(Error::bare(ErrorKind::ConfigNotFound))),
            }
        },
        ConfigFile::Parsed(config) => {
            let mut next = session;
            next.config = config;
            next.stage = Stage::DockerProbe;
            (next, probe(Runtime::Docker))
        },
    }
}

fn after_runtime(session: Session, runtime: Runtime) -> (out: (Session, Action))
    ensures
        runtime_step(session, runtime, out.0, out.1),
{
    match session.operation {
        Operation::Open => {
            match run_arguments(&session.config, session.subject.as_str()) {
                Ok(arguments) => {
                    let name = container_name(&session.config);
                    let mut next = session;
                    next.runtime = runtime;
                    next.container = name;
                    next.stage = Stage::Create;
                    (next, Action::Run(runtime.program(), arguments))
                },
                Err(e) => (ended(session), Action::Fail(e)),
            }
        },
        Operation::Rebuild => (ended(session), Action::Report(rebuild_report())),
        Operation::Attach => {
            let arguments = inspect_arguments(session.subject.as_str());
            let mut next = session;
            next.runtime = runtime;
            next.stage = Stage::Inspect;
            (next, Action::Run(runtime.program(), arguments))
        },
        Operation::Complete => {
            let mut next = session;
            next.runtime = runtime;
            next.stage = Stage::List;
            (next, Action::Run(runtime.program(), list_arguments()))
        },
    }
}

fn after_probe(session: Session, launch: Launch) -> (out: (Session, Action))
    requires
        session.stage == Stage::DockerProbe || session.stage == Stage::PodmanProbe,
    ensures
        probe_step(session, launch, out.0, out.1),
{
    match launch {
        Launch::Completed(_) => {
            match session.stage {
                Stage::DockerProbe => after_runtime(session, Runtime::Docker),
                _ => after_runtime(session, Runtime::Podman),
            }
        },
        Launch::Failed(_) => {
            match session.stage {
                Stage::DockerProbe => {
                    let mut next = session;
                    next.stage = Stage::PodmanProbe;
                    (next, probe(Runtime::Podman))
                },
                _ => (ended(session), Action::Fail(Error::bare(ErrorKind::NoRuntimeAvailable))),
            }
        },
    }
}

fn after_create(session: Session, launch: Launch) -> (out: (Session, Action))
    ensures
        create_step(session, launch, out.0, out.1),
{
    match check_launch(&launch, ErrorKind::CreateFailed) {
        Err(e) => (ended(session), Action::Fail(e)),
        Ok(()) => {
            match shell_command(&session.config.post_create_command) {
                Some(line) => {
                    let arguments = exec_arguments(session.container.as_str(), line.as_str());
                    let program = session.runtime.program();
                    let mut next = session;
                    next.stage = Stage::Hook;
                    (next, Action::Run(program, arguments))
                },
                None => {
                    let report = open_report(
                        session.subject.as_str(),
                        session.runtime,
                        &session.config,
                        session.container.as_str(),
                        &None,
                    );
                    (ended(session), Action::Report(report))
                },
            }
        },
    }
}

fn after_hook(session: Session, launch: Launch) -> (out: (Session, Action))
    ensures
        hook_step(session, launch, out.0, out.1),
{
    let warning = match check_exec(&launch) {
        Err(e) => Some(e.message()),
        Ok(()) => None,
    };
    let report = open_report(
        session.subject.as_str(),
        session.runtime,
        &session.config,
        session.container.as_str(),
        &warning,
    );
    (ended(session), Action::Report(report))
}

fn after_inspect(session: Session, launch: Launch) -> (out: (Session, Action))
    ensures
        inspect_step(session, launch, out.0, out.1),
{
    match launch {
        Launch::Failed(reason) => (
            ended(session),
            Action::Fail(Error { kind: ErrorKind::InspectFailed, detail: reason }),
        ),
        Launch::Completed(output) => {
            match container_state(decode(&output.stdout).as_str()) {
                ContainerState::Running => {
                    let report = attach_report(
                        session.subject.as_str(),
                        session.runtime,
                        ContainerState::Running,
                    );
                    (ended(session), Action::Report(report))
                },
                ContainerState::Stopped => {
                    let arguments = start_arguments(session.subject.as_str());
                    let program = session.runtime.program();
                    let mut next = session;
                    next.stage = Stage::Start;
                    (next, Action::Run(program, arguments))
                },
            }
        },
    }
}

fn after_start(session: Session, launch: Launch) -> (out: (Session, Action))
    ensures
        start_step(session, launch, out.0, out.1),
{
    match check_launch(&launch, ErrorKind::StartFailed) {
        Err(e) => (ended(session), Action::Fail(e)),
        Ok(()) => {
            let report = attach_report(
                session.subject.as_str(),
                session.runtime,
                ContainerState::Stopped,
            );
            (ended(session), Action::Report(report))
        },
    }
}

/// One suggestion for each listed container, in the order of the listing.
pub fn completions(records: &Vec<ContainerRecord>) -> (out: Vec<Completion>)
    ensures
        out@.len() == records@.len(),
        forall|i: int|
            0 <= i < records@.len() ==> suggestion_for(
                #[trigger] out@[i],
                record_texts(records@)[i],
            ),
{
    let mut out: Vec<Completion> = Vec::new();
    let mut i: usize = 0;
    while i < records.len()
        invariant
            i <= records.len(),
            out@.len() == i,
            forall|k: int|
                0 <= k < i ==> suggestion_for(#[trigger] out@[k], record_texts(records@)[k]),
        decreases records.len() - i,
    {
        let record = &records[i];
        let mut label = record.name.clone();
        label.append(" (");
        label.append(record.id.as_str());
        label.append(")");
        out.push(Completion { label, new_text: record.id.clone(), run_command: true });
        i += 1;
    }
    out
}

fn after_list(session: Session, launch: Launch) -> (out: (Session, Action))
    ensures
        list_step(session, launch, out.0, out.1),
{
    match launch {
        Launch::Failed(reason) => (
            ended(session),
            Action::Fail(Error { kind: ErrorKind::ListFailed, detail: reason }),
        ),
        Launch::Completed(output) => {
            let records = parse_container_list(decode(&output.stdout).as_str());
            (ended(session), Action::Suggest(completions(&records)))
        },
    }
}

/// Takes the session one step further on what the driver reports.
pub fn advance(session: Session, event: Event) -> (out: (Session, Action))
    ensures
        step(session, event, out.0, out.1),
{
    match event {
        Event::Config(file) => {
            match session.stage {
                Stage::PrimaryConfig | Stage::SecondaryConfig => after_config(session, file),
                _ => unexpected(session),
            }
        },
        Event::Process(launch) => {
            match session.stage {
                Stage::DockerProbe | Stage::PodmanProbe => after_probe(session, launch),
                Stage::Create => after_create(session, launch),
                Stage::Hook => after_hook(session, launch),
                Stage::Inspect => after_inspect(session, launch),
                Stage::Start => after_start(session, launch),
                Stage::List => after_list(session, launch),
                _ => unexpected(session),
            }
        },
    }
}

/// A command begins in a consistent session, and the first action ends
/// the operation exactly when the session is done.
pub proof fn lemma_begin_is_consistent(
    command: Seq<char>,
    arguments: Seq<Seq<char>>,
    worktree: Option<Seq<char>>,
    post: Session,
    action: Action,
)
    requires
        begins(command, arguments, worktree, post, action),
    ensures
        post.consistent(),
        action.is_final() <==> post.stage == Stage::Done,
{
}

/// A completion begins in a consistent session, and the first action ends
/// it exactly when the session is done.
pub proof fn lemma_completion_begin_is_consistent(command: Seq<char>, post: Session, action: Action)
    requires
        begins_completion(command, post, action),
    ensures
        post.consistent(),
        action.is_final() <==> post.stage == Stage::Done,
{
}

/// Every step keeps a consistent session consistent.
pub proof fn lemma_step_keeps_consistency(
    pre: Session,
    event: Event,
    post: Session,
    action: Action,
)
    requires
        pre.consistent(),
        step(pre, event, post, action),
    ensures
        post.consistent(),
{
}

/// Every step of a session that is not done leads further along, so an
/// operation ends after at most six steps and asks for no call twice; and
/// a step's action ends the operation exactly when it leaves the session
/// done.
pub proof fn lemma_step_advances(pre: Session, event: Event, post: Session, action: Action)
    requires
        step(pre, event, post, action),
    ensures
        pre.stage != Stage::Done ==> post.stage.rank() > pre.stage.rank(),
        pre.stage == Stage::Done ==> post.stage == Stage::Done,
        action.is_final() <==> post.stage == Stage::Done,
{
}

/// A post-create command never fails an open: whatever comes of it, the
/// step after it ends the operation with the report of the container that
/// was created, and the report carries a warning exactly when the command
/// could not be launched or did not end with exit code zero.
pub proof fn lemma_hook_failure_is_a_warning(
    pre: Session,
    launch: Launch,
    post: Session,
    action: Action,
)
    requires
        pre.stage == Stage::Hook,
        step(pre, Event::Process(launch), post, action),
    ensures
        post.stage == Stage::Done,
        action.reports(
            "Devcontainer Open"@,
            open_text(pre.subject@, pre.runtime, &pre.config, pre.container@, hook_warning(launch)),
        ),
        hook_warning(launch) is Some <==> failure_of(&launch) is Some,
{
}

/// A session fails before it asks for a container when its declaration
/// names no image: with a Dockerfile the failure names that Dockerfile,
/// with neither it says that no image is named.
pub proof fn lemma_open_without_image_fails(
    pre: Session,
    output: ProcessOutput,
    post: Session,
    action: Action,
)
    requires
        pre.operation == Operation::Open,
        pre.stage == Stage::DockerProbe || pre.stage == Stage::PodmanProbe,
        pre.config.image is None,
        step(pre, Event::Process(Launch::Completed(output)), post, action),
    ensures
        post.stage == Stage::Done,
        match pre.config.dockerfile {
            Some(dockerfile) => action.fails(ErrorKind::UnsupportedBuildSource, dockerfile@),
            None => action.fails(ErrorKind::NoImageSpecified, Seq::empty()),
        },
{
}

/// An attach starts the container exactly when the inspection did not find
/// it running: after an inspection that answered anything but running, the
/// step asks for the start call and ends nothing; after one that answered
/// running, the step ends the operation with its report and asks for no
/// call.
pub proof fn lemma_attach_starts_only_stopped(
    pre: Session,
    output: ProcessOutput,
    post: Session,
    action: Action,
)
    requires
        pre.stage == Stage::Inspect,
        step(pre, Event::Process(Launch::Completed(output)), post, action),
    ensures
        state_of(trimmed(lossy_text(output.stdout@))) == ContainerState::Stopped ==> post.stage
            == Stage::Start && !action.is_final() && action.runs(
            pre.runtime.program_text(),
            seq!["start"@, pre.subject@],
        ),
        state_of(trimmed(lossy_text(output.stdout@))) == ContainerState::Running ==> post.stage
            == Stage::Done && action is Report && !(action is Run),
{
}

/// A report of an attach on a stopped container comes only after the
/// start call: the step that follows the start is the one that reports,
/// and it reports only a start that succeeded.
pub proof fn lemma_attach_reports_after_start(
    pre: Session,
    launch: Launch,
    post: Session,
    action: Action,
)
    requires
        pre.stage == Stage::Start,
        step(pre, Event::Process(launch), post, action),
    ensures
        post.stage == Stage::Done,
        action is Report <==> failure_of(&launch) is None,
        action is Fail <==> failure_of(&launch) is Some,
{
}

} // verus!
