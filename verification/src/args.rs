//! The argument list that asks the engine for a detached, named container.

use vstd::prelude::*;
use crate::config::DevcontainerConfig;
use crate::errors::{Error, ErrorKind};
use crate::text::{decimal, decimal_string, replace_char, replaced, texts};

verus! {

/// The name under which the container of `config` is created: a fixed
/// prefix and the declared name with each space turned into a hyphen, or
/// the fixed default where no name is declared.
pub open spec fn container_name_of(config: &DevcontainerConfig) -> Seq<char> {
    match config.name {
        Some(name) => "zed-devcontainer-"@ + replaced(name@, ' ', '-'),
        None => "zed-devcontainer"@,
    }
}

/// The workspace mount: the declared one as it stands, or a bind mount of
/// the project at `/workspace`.
pub open spec fn workspace_mount_of(config: &DevcontainerConfig, project_path: Seq<char>) -> Seq<
    char,
> {
    match config.workspace_mount {
        Some(mount) => mount@,
        None => "type=bind,source="@ + project_path + ",target=/workspace"@,
    }
}

/// Each value in order, each preceded by `flag` as an argument of its own.
pub open spec fn flagged(flag: Seq<char>, values: Seq<Seq<char>>) -> Seq<Seq<char>>
    decreases values.len(),
{
    if values.len() == 0 {
        Seq::empty()
    } else {
        flagged(flag, values.drop_last()).push(flag).push(values.last())
    }
}

/// The flagged list keeps the order of the values: it is twice as long as
/// the values, and the value at place `i` stands right behind its flag.
pub proof fn lemma_flagged_layout(flag: Seq<char>, values: Seq<Seq<char>>, i: int)
    requires
        0 <= i < values.len(),
    ensures
        flagged(flag, values).len() == 2 * values.len(),
        flagged(flag, values)[2 * i] == flag,
        flagged(flag, values)[2 * i + 1] == values[i],
    decreases values.len(),
{
    let init = values.drop_last();
    if i < init.len() {
        lemma_flagged_layout(flag, init, i);
    } else if init.len() > 0 {
        lemma_flagged_layout(flag, init, i - 1);
    }
}

/// The mapping of a port to the same port on the host.
pub open spec fn port_mapping(port: u16) -> Seq<char> {
    decimal(port as nat) + ":"@ + decimal(port as nat)
}

/// The mappings of `ports`, in order.
pub open spec fn port_mappings(ports: Seq<u16>) -> Seq<Seq<char>> {
    ports.map_values(|p: u16| port_mapping(p))
}

/// Everything that precedes the image in the argument list.
pub open spec fn run_options_of(config: &DevcontainerConfig, project_path: Seq<char>) -> Seq<
    Seq<char>,
> {
    seq![
        "run"@,
        "-d"@,
        "--name"@,
        container_name_of(config),
        "--mount"@,
        workspace_mount_of(config, project_path),
    ] + flagged("--mount"@, texts(config.mounts@)) + flagged(
        "-p"@,
        port_mappings(config.forward_ports@),
    ) + texts(config.run_args@)
}

/// The whole argument list for a declaration whose image is `image`: the
/// options, the image, and a command that keeps the container alive.
pub open spec fn run_arguments_of(
    config: &DevcontainerConfig,
    project_path: Seq<char>,
    image: Seq<char>,
) -> Seq<Seq<char>> {
    run_options_of(config, project_path) + seq![image, "sleep"@, "infinity"@]
}

/// The name under which the container of `config` is created.
pub fn container_name(config: &DevcontainerConfig) -> (out: String)
    ensures
        out@ == container_name_of(config),
{
    match &config.name {
        Some(name) => {
            let mut out = String::from_str("zed-devcontainer-");
            let clean = replace_char(name.as_str(), ' ', '-');
            out.append(clean.as_str());
            out
        },
        None => String::from_str("zed-devcontainer"),
    }
}

fn workspace_mount(config: &DevcontainerConfig, project_path: &str) -> (out: String)
    ensures
        out@ == workspace_mount_of(config, project_path@),
{
    match &config.workspace_mount {
        Some(mount) => mount.clone(),
        None => {
            let mut out = String::from_str("type=bind,source=");
            out.append(project_path);
            out.append(",target=/workspace");
            out
        },
    }
}

fn port_mapping_string(port: u16) -> (out: String)
    ensures
        out@ == port_mapping(port),
{
    let mut out = decimal_string(port);
    let again = decimal_string(port);
    out.append(":");
    out.append(again.as_str());
    out
}

/// The arguments of the engine's `run` verb for `config` and the project at
/// `project_path`. A declaration with an image always yields the list; one
/// with only a Dockerfile is refused with that Dockerfile as the detail;
/// one with neither is refused as naming no image.
pub fn run_arguments(config: &DevcontainerConfig, project_path: &str) -> (out: Result<
    Vec<String>,
    Error,
>)
    ensures
        match config.image {
            Some(image) => out matches Ok(args) && texts(args@) == run_arguments_of(
                config,
                project_path@,
                image@,
            ),
            None => match config.dockerfile {
                Some(dockerfile) => out matches Err(e) && e.kind
                    == ErrorKind::UnsupportedBuildSource && e.detail@ == dockerfile@,
                None => out matches Err(e) && e.kind == ErrorKind::NoImageSpecified && e.detail@
                    == Seq::<char>::empty(),
            },
        },
{
    let image = match &config.image {
        Some(image) => image.clone(),
        None => {
            return match &config.dockerfile {
                Some(dockerfile) => Err(
                    Error::with_detail(ErrorKind::UnsupportedBuildSource, dockerfile.as_str()),
                ),
                None => Err(Error::bare(ErrorKind::NoImageSpecified)),
            };
        },
    };
    let mut args: Vec<String> = Vec::new();
    args.push(String::from_str("run"));
    args.push(String::from_str("-d"));
    args.push(String::from_str("--name"));
    args.push(container_name(config));
    args.push(String::from_str("--mount"));
    args.push(workspace_mount(config, project_path));
    let ghost head = texts(args@);
    proof {
        assert(head =~= seq![
            "run"@,
            "-d"@,
            "--name"@,
            container_name_of(config),
            "--mount"@,
            workspace_mount_of(config, project_path@),
        ]);
        assert(head + flagged("--mount"@, texts(config.mounts@).take(0)) =~= head);
    }
    let mut i: usize = 0;
    while i < config.mounts.len()
        invariant
            i <= config.mounts.len(),
            texts(args@) == head + flagged("--mount"@, texts(config.mounts@).take(i as int)),
        decreases config.mounts.len() - i,
    {
        let ghost before = texts(args@);
        proof {
            let next = texts(config.mounts@).take(i + 1);
            assert(next.drop_last() =~= texts(config.mounts@).take(i as int));
            assert(next.last() == config.mounts@[i as int]@);
        }
        args.push(String::from_str("--mount"));
        args.push(config.mounts[i].clone());
        proof {
            assert(texts(args@) =~= before.push("--mount"@).push(config.mounts@[i as int]@));
            assert(texts(args@) =~= head + flagged(
                "--mount"@,
                texts(config.mounts@).take(i + 1),
            ));
        }
        i += 1;
    }
    proof {
        assert(texts(config.mounts@).take(i as int) =~= texts(config.mounts@));
    }
    let ghost mounted = texts(args@);
    proof {
        assert(mounted + flagged("-p"@, port_mappings(config.forward_ports@).take(0))
            =~= mounted);
    }
    let mut j: usize = 0;
    while j < config.forward_ports.len()
        invariant
            j <= config.forward_ports.len(),
            texts(args@) == mounted + flagged(
                "-p"@,
                port_mappings(config.forward_ports@).take(j as int),
            ),
        decreases config.forward_ports.len() - j,
    {
        let ghost before = texts(args@);
        let port = config.forward_ports[j];
        proof {
            let next = port_mappings(config.forward_ports@).take(j + 1);
            assert(next.drop_last() =~= port_mappings(config.forward_ports@).take(j as int));
            assert(next.last() == port_mapping(port));
        }
        args.push(String::from_str("-p"));
        args.push(port_mapping_string(port));
        proof {
            assert(texts(args@) =~= before.push("-p"@).push(port_mapping(port)));
            assert(texts(args@) =~= mounted + flagged(
                "-p"@,
                port_mappings(config.forward_ports@).take(j + 1),
            ));
        }
        j += 1;
    }
    proof {
        assert(port_mappings(config.forward_ports@).take(j as int) =~= port_mappings(
            config.forward_ports@,
        ));
    }
    let ghost mapped = texts(args@);
    let mut k: usize = 0;
    proof {
        assert(mapped + texts(config.run_args@).take(0) =~= mapped);
    }
    while k < config.run_args.len()
        invariant
            k <= config.run_args.len(),
            texts(args@) == mapped + texts(config.run_args@).take(k as int),
        decreases config.run_args.len() - k,
    {
        let ghost before = texts(args@);
        args.push(config.run_args[k].clone());
        proof {
            assert(texts(args@) =~= before.push(config.run_args@[k as int]@));
            assert(texts(config.run_args@).take(k + 1) =~= texts(config.run_args@).take(
                k as int,
            ).push(config.run_args@[k as int]@));
            assert(texts(args@) =~= mapped + texts(config.run_args@).take(k + 1));
        }
        k += 1;
    }
    proof {
        assert(texts(config.run_args@).take(k as int) =~= texts(config.run_args@));
        assert(texts(args@) == run_options_of(config, project_path@));
    }
    let ghost options = texts(args@);
    args.push(image);
    args.push(String::from_str("sleep"));
    args.push(String::from_str("infinity"));
    proof {
        assert(texts(args@) =~= options + seq![config.image->0@, "sleep"@, "infinity"@]);
    }
    Ok(args)
}

} // verus!
