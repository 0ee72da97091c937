//! The command lines of the container runtime, as sequences of argument tokens.
//!
//! Every function here is a specification: the functions that build command
//! lines are proved to produce exactly these sequences.

use crate::command::CommandLine;
use crate::plan::ContainerOptions;
use crate::text::decimal;
use vstd::prelude::*;

verus! {

/// A value for the runtime's `--volume` flag: `source:destination`.
pub open spec fn volume_value(source: Seq<char>, destination: Seq<char>) -> Seq<char> {
    source + ":"@ + destination
}

/// Mounts the directory `dir` at its own path and makes it the working directory.
pub open spec fn current_dir_as_volume(dir: Seq<char>) -> Seq<Seq<char>> {
    seq!["--volume"@, volume_value(dir, dir), "--workdir"@, dir]
}

/// Mounts the runtime's control socket at its own path.
pub open spec fn docker_sock_as_volume() -> Seq<Seq<char>> {
    seq!["--volume"@, volume_value("/var/run/docker.sock"@, "/var/run/docker.sock"@)]
}

/// `flag` before each of `values`, in order: `flag v0 flag v1 ...`.
pub open spec fn flagged(flag: Seq<char>, values: Seq<Seq<char>>) -> Seq<Seq<char>>
    decreases values.len(),
{
    if values.len() == 0 {
        Seq::empty()
    } else {
        flagged(flag, values.drop_last()).push(flag).push(values.last())
    }
}

/// One `--volume` flag for each entry, verbatim.
pub open spec fn volumes(entries: Seq<Seq<char>>) -> Seq<Seq<char>> {
    flagged("--volume"@, entries)
}

/// One `--env` flag for each entry, verbatim.
pub open spec fn environment(entries: Seq<Seq<char>>) -> Seq<Seq<char>> {
    flagged("--env"@, entries)
}

/// The numbers of `groups` written in decimal.
pub open spec fn group_names(groups: Seq<u32>) -> Seq<Seq<char>> {
    Seq::new(groups.len(), |i: int| decimal(groups[i] as nat))
}

/// Runs the container as user `uid` with primary group `gid`: the `--user`
/// flag, the host's user and group databases mounted at their own paths so
/// that the numbers have names inside, and one `--group-add` for each
/// supplementary group.
pub open spec fn current_user(uid: u32, gid: u32, groups: Seq<u32>) -> Seq<Seq<char>> {
    seq![
        "--user"@,
        decimal(uid as nat) + ":"@ + decimal(gid as nat),
        "--volume"@,
        volume_value("/etc/passwd"@, "/etc/passwd"@),
        "--volume"@,
        volume_value("/etc/group"@, "/etc/group"@),
    ] + flagged("--group-add"@, group_names(groups))
}

/// The arguments common to every `run`: the subcommand, removal on exit, the
/// working directory, the control socket, the volumes, the environment and,
/// where the user is forwarded, the arguments `user`.
pub open spec fn docker_run(options: ContainerOptions, dir: Seq<char>, user: Seq<Seq<char>>) -> Seq<
    Seq<char>,
> {
    seq!["run"@, "--rm"@] + current_dir_as_volume(dir) + docker_sock_as_volume() + volumes(
        options.volumes,
    ) + environment(options.environment) + (if options.forward_user {
        user
    } else {
        Seq::empty()
    })
}

/// `user` is what [`current_user`] gives for some user of the host.
pub open spec fn is_current_user(user: Seq<Seq<char>>) -> bool {
    exists|uid: u32, gid: u32, groups: Seq<u32>| user == current_user(uid, gid, groups)
}

/// `user` is what forwarding the user adds to a run with `options`: what
/// [`current_user`] gives for some user of the host where the options forward
/// the user, and nothing where they do not.
pub open spec fn is_forwarded_user(options: ContainerOptions, user: Seq<Seq<char>>) -> bool {
    if options.forward_user {
        is_current_user(user)
    } else {
        user == Seq::<Seq<char>>::empty()
    }
}

/// The flag that forwards a terminal, where the process is attached to one.
pub open spec fn forward_tty(attached: bool) -> Option<Seq<char>> {
    if attached {
        Some("--tty"@)
    } else {
        None
    }
}

/// `tty` is what [`forward_tty`] gives, attached or not.
pub open spec fn is_forward_tty(tty: Option<Seq<char>>) -> bool {
    tty == forward_tty(true) || tty == forward_tty(false)
}

/// The arguments of a build of `context` that writes the image's identifier to `iidfile`.
pub open spec fn docker_build(context: Seq<char>, iidfile: Seq<char>) -> Seq<Seq<char>> {
    seq!["build"@, context, "--iidfile"@, iidfile]
}

/// A build of `context`. With a `recipe` the build is told to read its
/// Dockerfile from standard input, and the recipe is what it reads.
pub open spec fn build(
    context: Seq<char>,
    recipe: Option<Seq<char>>,
    iidfile: Seq<char>,
) -> CommandLine {
    CommandLine {
        program: "docker"@,
        args: docker_build(context, iidfile) + (if recipe is Some {
            seq!["-f"@, "-"@]
        } else {
            Seq::empty()
        }),
        input: recipe,
    }
}

/// The run of a mission in `image`: `run` is the common part, and the script
/// arrives on standard input.
pub open spec fn execute(run: Seq<Seq<char>>, image: Seq<char>, script: Seq<char>) -> CommandLine {
    CommandLine {
        program: "docker"@,
        args: run + seq!["--interactive"@, image],
        input: Some(script),
    }
}

/// The run of the shell in `image`: `run` is the common part, `tty` the flag
/// that forwards a terminal, if any, and `args` the command inside the container.
pub open spec fn shell(
    run: Seq<Seq<char>>,
    tty: Option<Seq<char>>,
    image: Seq<char>,
    args: Seq<Seq<char>>,
) -> CommandLine {
    CommandLine {
        program: "docker"@,
        args: run + seq!["--interactive"@] + (match tty {
            Some(flag) => seq![flag],
            None => Seq::empty(),
        }) + seq![image] + args,
        input: None,
    }
}

/// `args` holds `flag` with `value` right behind it.
pub open spec fn passes(args: Seq<Seq<char>>, flag: Seq<char>, value: Seq<char>) -> bool {
    exists|at: int|
        0 <= at && at + 1 < args.len() && #[trigger] args[at] == flag && args[at + 1] == value
}

/// [`flagged`] holds two tokens for each value.
pub proof fn lemma_flagged_len(flag: Seq<char>, values: Seq<Seq<char>>)
    ensures
        flagged(flag, values).len() == 2 * values.len(),
    decreases values.len(),
{
    if values.len() > 0 {
        lemma_flagged_len(flag, values.drop_last());
    }
}

/// The tokens that [`flagged`] holds for the value at index `i`: the flag,
/// then the value.
pub proof fn lemma_flagged_at(flag: Seq<char>, values: Seq<Seq<char>>, i: int)
    requires
        0 <= i < values.len(),
    ensures
        2 * i + 1 < flagged(flag, values).len(),
        flagged(flag, values)[2 * i] == flag,
        flagged(flag, values)[2 * i + 1] == values[i],
    decreases values.len(),
{
    lemma_flagged_len(flag, values);
    lemma_flagged_len(flag, values.drop_last());
    if i < values.len() - 1 {
        lemma_flagged_at(flag, values.drop_last(), i);
    }
}

/// Every volume of the options is handed to the runtime, verbatim, behind a
/// `--volume` flag.
pub proof fn law_volumes_are_passed(
    options: ContainerOptions,
    dir: Seq<char>,
    user: Seq<Seq<char>>,
    entry: int,
)
    requires
        0 <= entry < options.volumes.len(),
    ensures
        passes(docker_run(options, dir, user), "--volume"@, options.volumes[entry]),
{
    lemma_flagged_at("--volume"@, options.volumes, entry);
    let args = docker_run(options, dir, user);
    let at = 8 + 2 * entry;
    assert(args[at] == "--volume"@);
}

/// Every variable of the options is handed to the runtime, verbatim, behind
/// an `--env` flag.
pub proof fn law_environment_is_passed(
    options: ContainerOptions,
    dir: Seq<char>,
    user: Seq<Seq<char>>,
    entry: int,
)
    requires
        0 <= entry < options.environment.len(),
    ensures
        passes(docker_run(options, dir, user), "--env"@, options.environment[entry]),
{
    lemma_flagged_len("--volume"@, options.volumes);
    lemma_flagged_at("--env"@, options.environment, entry);
    let args = docker_run(options, dir, user);
    let at = 8 + 2 * options.volumes.len() + 2 * entry;
    assert(args[at] == "--env"@);
}

/// Where the options forward the user, the runtime is told to run the
/// container as that user and primary group, by their numbers, and to add
/// each supplementary group.
pub proof fn law_user_is_forwarded(
    options: ContainerOptions,
    dir: Seq<char>,
    uid: u32,
    gid: u32,
    groups: Seq<u32>,
)
    requires
        options.forward_user,
    ensures
        passes(
            docker_run(options, dir, current_user(uid, gid, groups)),
            "--user"@,
            decimal(uid as nat) + ":"@ + decimal(gid as nat),
        ),
        forall|i: int|
            0 <= i < groups.len() ==> passes(
                docker_run(options, dir, current_user(uid, gid, groups)),
                "--group-add"@,
                decimal(#[trigger] groups[i] as nat),
            ),
{
    lemma_flagged_len("--volume"@, options.volumes);
    lemma_flagged_len("--env"@, options.environment);
    lemma_flagged_len("--group-add"@, group_names(groups));
    let user = current_user(uid, gid, groups);
    let args = docker_run(options, dir, user);
    let start = (8 + 2 * options.volumes.len() + 2 * options.environment.len()) as int;
    assert(args[start] == user[0]);
    assert forall|i: int| 0 <= i < groups.len() implies passes(
        args,
        "--group-add"@,
        decimal(#[trigger] groups[i] as nat),
    ) by {
        lemma_flagged_at("--group-add"@, group_names(groups), i);
        assert(args[start + 6 + 2 * i] == user[6 + 2 * i]);
    }
}

} // verus!
