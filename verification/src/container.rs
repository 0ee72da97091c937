//! The container invocation engine: it resolves a container's image and
//! assembles the command lines of the container runtime.

use crate::command::{ExitStatus, ExitStatusEx, Invocation};
use crate::host;
use crate::model;
use crate::plan::{Container, ImageOrBuild, ImageSpec, Mission, Shell};
use crate::text::to_decimal;
use vstd::prelude::*;
use vstd::string::StringExecFns;

verus! {

/// Appends `token` to `args`.
fn push_token(args: &mut Vec<String>, token: String)
    ensures
        final(args).deep_view() == old(args).deep_view().push(token@),
{
    args.push(token);
}

/// Appends a copy of `text` to `args`.
fn push_text(args: &mut Vec<String>, text: &str)
    ensures
        final(args).deep_view() == old(args).deep_view().push(text@),
{
    push_token(args, String::from_str(text));
}

/// Appends copies of `more` to `args`, in order.
fn push_all(args: &mut Vec<String>, more: &[String])
    ensures
        final(args).deep_view() == old(args).deep_view() + more.deep_view(),
{
    let mut next: usize = 0;
    while next < more.len()
        invariant
            next <= more.len(),
            args.deep_view() == old(args).deep_view() + more.deep_view().take(next as int),
        decreases more.len() - next,
    {
        push_text(args, more[next].as_str());
        next += 1;
    }
}

/// No arguments.
fn no_args() -> (args: Vec<String>)
    ensures
        args.deep_view() == Seq::<Seq<char>>::empty(),
{
    let args: Vec<String> = Vec::new();
    args
}

/// Formats a value for the runtime's `--volume` flag.
pub fn volume_value(source: &str, destination: &str) -> (value: String)
    ensures
        value@ == model::volume_value(source@, destination@),
{
    let mut value = String::from_str(source);
    value.append(":");
    value.append(destination);
    value
}

/// Mounts the current directory as a volume at the same path, and works there.
pub fn current_dir_as_volume(current_dir: &str) -> (args: Vec<String>)
    ensures
        args.deep_view() == model::current_dir_as_volume(current_dir@),
{
    let mut args = no_args();
    push_text(&mut args, "--volume");
    push_token(&mut args, volume_value(current_dir, current_dir));
    push_text(&mut args, "--workdir");
    push_text(&mut args, current_dir);
    args
}

/// Mounts the runtime's control socket, so that containers can use the host's daemon.
pub fn docker_sock_as_volume() -> (args: Vec<String>)
    ensures
        args.deep_view() == model::docker_sock_as_volume(),
{
    let mut args = no_args();
    push_text(&mut args, "--volume");
    push_token(&mut args, volume_value("/var/run/docker.sock", "/var/run/docker.sock"));
    args
}

/// `flag` before each of `values`.
fn flagged(flag: &str, values: &[String]) -> (args: Vec<String>)
    ensures
        args.deep_view() == model::flagged(flag@, values.deep_view()),
{
    let mut args = no_args();
    let mut next: usize = 0;
    while next < values.len()
        invariant
            next <= values.len(),
            args.deep_view() == model::flagged(flag@, values.deep_view().take(next as int)),
        decreases values.len() - next,
    {
        push_text(&mut args, flag);
        push_text(&mut args, values[next].as_str());
        assert(values.deep_view().take(next + 1).drop_last() =~= values.deep_view().take(
            next as int,
        ));
        next += 1;
    }
    assert(values.deep_view().take(values.len() as int) =~= values.deep_view());
    args
}

/// One `--volume` flag for each of `entries`, verbatim.
pub fn volumes(entries: &[String]) -> (args: Vec<String>)
    ensures
        args.deep_view() == model::volumes(entries.deep_view()),
{
    flagged("--volume", entries)
}

/// One `--env` flag for each of `entries`, verbatim.
pub fn environment(entries: &[String]) -> (args: Vec<String>)
    ensures
        args.deep_view() == model::environment(entries.deep_view()),
{
    flagged("--env", entries)
}

/// The launch of a container could not be set up.
#[derive(Debug, Clone, PartialEq, Eq)]
pub enum LaunchSetupError {
    /// The supplementary groups of the current user could not be read; `errno`
    /// is the error number of the system call.
    Groups { errno: i32 },
    /// No handle to the standard input of the child process could be obtained.
    Stdin,
    /// The host could not do its part; `reason` is what it reported.
    Host { reason: String },
}

/// The handle on which the input of a child process is written, where the
/// host has one. Where it has none the launch has failed, whatever the child
/// does afterwards.
pub fn input_handle<Handle>(handle: Option<Handle>) -> (result: Result<
    Handle,
    LaunchSetupError,
>)
    ensures
        match handle {
            Some(handle) => result == Ok::<Handle, LaunchSetupError>(handle),
            None => result == Err::<Handle, LaunchSetupError>(LaunchSetupError::Stdin),
        },
{
    match handle {
        Some(handle) => Ok(handle),
        None => Err(LaunchSetupError::Stdin),
    }
}

/// The arguments that run a container as the user `uid` with the primary
/// group `gid` and the supplementary groups `groups`.
pub fn user_arguments(uid: u32, gid: u32, groups: &[u32]) -> (args: Vec<String>)
    ensures
        args.deep_view() == model::current_user(uid, gid, groups@),
{
    let mut user = to_decimal(uid);
    user.append(":");
    user.append(to_decimal(gid).as_str());

    let mut args = no_args();
    push_text(&mut args, "--user");
    push_token(&mut args, user);
    push_text(&mut args, "--volume");
    push_token(&mut args, volume_value("/etc/passwd", "/etc/passwd"));
    push_text(&mut args, "--volume");
    push_token(&mut args, volume_value("/etc/group", "/etc/group"));
    let ghost fixed = args.deep_view();

    let ghost names = model::group_names(groups@);
    let mut next: usize = 0;
    while next < groups.len()
        invariant
            next <= groups.len(),
            names == model::group_names(groups@),
            args.deep_view() == fixed + model::flagged("--group-add"@, names.take(next as int)),
        decreases groups.len() - next,
    {
        push_text(&mut args, "--group-add");
        push_token(&mut args, to_decimal(groups[next]));
        assert(names.take(next + 1).drop_last() =~= names.take(next as int));
        next += 1;
    }
    assert(names.take(groups.len() as int) =~= names);
    args
}

/// The arguments that run a container as the current user of the host.
///
/// The user, the primary group and the supplementary groups are asked of the
/// host. Whatever it answers, the arguments are those of [`user_arguments`]
/// for that answer. The only failure is that the groups cannot be read.
pub fn current_user() -> (result: Result<Vec<String>, LaunchSetupError>)
    ensures
        result matches Ok(args) ==> model::is_current_user(args.deep_view()),
        result matches Err(error) ==> error is Groups,
{
    let uid = host::getuid();
    let gid = host::getgid();
    match host::getgroups() {
        Ok(groups) => {
            let args = user_arguments(uid, gid, groups.as_slice());
            Ok(args)
        },
        Err(errno) => Err(LaunchSetupError::Groups { errno: host::errno_number(errno) }),
    }
}

/// The arguments common to every run of `container` from `current_dir`, with
/// `user` as the arguments that forward the user.
pub fn run_arguments(container: &Container, current_dir: &str, user: &[String]) -> (args: Vec<
    String,
>)
    ensures
        args.deep_view() == model::docker_run(container@, current_dir@, user.deep_view()),
{
    let mut args = no_args();
    push_text(&mut args, "run");
    push_text(&mut args, "--rm");
    push_all(&mut args, current_dir_as_volume(current_dir).as_slice());
    push_all(&mut args, docker_sock_as_volume().as_slice());
    push_all(&mut args, volumes(container.volumes.as_slice()).as_slice());
    push_all(&mut args, environment(container.environment.as_slice()).as_slice());
    if container.forward_user {
        push_all(&mut args, user);
    }
    args
}

/// The arguments common to every run of `container` from `current_dir`.
///
/// Where the user is forwarded, the current user is asked of the host: see
/// [`current_user`]. Otherwise nothing is asked, and the call succeeds.
pub fn docker_run(container: &Container, current_dir: &str) -> (result: Result<
    Vec<String>,
    LaunchSetupError,
>)
    ensures
        result matches Ok(args) ==> exists|user: Seq<Seq<char>>|
            model::is_forwarded_user(container@, user) && args.deep_view()
                == #[trigger] model::docker_run(container@, current_dir@, user),
        result matches Err(error) ==> container.forward_user && error is Groups,
{
    let user = if container.forward_user {
        match current_user() {
            Ok(user) => user,
            Err(error) => {
                return Err(error);
            },
        }
    } else {
        no_args()
    };
    let args = run_arguments(container, current_dir, user.as_slice());
    Ok(args)
}

/// The flag that forwards a terminal, where `attached` says that the process
/// writes to one.
pub fn tty_argument(attached: bool) -> (tty: Option<String>)
    ensures
        tty.deep_view() == model::forward_tty(attached),
{
    if attached {
        Some(String::from_str("--tty"))
    } else {
        None
    }
}

/// Adds `--tty` if the current process is attached to a terminal.
///
/// The host is asked whether the standard output is a terminal; where it
/// cannot tell, no terminal is forwarded.
pub fn forward_tty() -> (tty: Option<String>)
    ensures
        model::is_forward_tty(tty.deep_view()),
{
    let attached = match host::isatty() {
        Ok(attached) => attached,
        Err(_) => false,
    };
    tty_argument(attached)
}

/// The run of a mission's script in `image`, after the common arguments `run`.
pub fn mission_command(run: Vec<String>, image: &str, script: &str) -> (invocation: Invocation)
    ensures
        invocation@ == model::execute(run.deep_view(), image@, script@),
{
    let mut args = run;
    // Needed for pipes to work.
    push_text(&mut args, "--interactive");
    push_text(&mut args, image);
    assert(args.deep_view() =~= run.deep_view() + seq!["--interactive"@, image@]);
    Invocation {
        program: String::from_str("docker"),
        args,
        input: Some(String::from_str(script)),
    }
}

/// The run of `mission` in `image`, from the directory `current_dir`: the
/// command line of the runtime, with the script as its input.
///
/// The host is asked for the current user where the mission forwards it: see
/// [`docker_run`]. The call fails only where that fails.
pub fn execute(mission: &Mission, image: &str, current_dir: &str) -> (result: Result<
    Invocation,
    LaunchSetupError,
>)
    ensures
        result matches Ok(invocation) ==> exists|user: Seq<Seq<char>>|
            model::is_forwarded_user(mission.container@, user) && invocation@ == model::execute(
                #[trigger] model::docker_run(mission.container@, current_dir@, user),
                image@,
                mission.script@,
            ),
        result matches Err(error) ==> mission.container.forward_user && error is Groups,
{
    match docker_run(&mission.container, current_dir) {
        Ok(run) => Ok(mission_command(run, image, mission.script.as_str())),
        Err(error) => Err(error),
    }
}

/// The run of a shell in `image`, after the common arguments `run`: with the
/// flag `tty`, if any, and with `args` as the command inside the container.
pub fn shell_command(
    run: Vec<String>,
    tty: Option<String>,
    image: &str,
    args: &[String],
) -> (invocation: Invocation)
    ensures
        invocation@ == model::shell(run.deep_view(), tty.deep_view(), image@, args.deep_view()),
{
    let mut all = run;
    push_text(&mut all, "--interactive");
    match tty {
        Some(flag) => {
            push_token(&mut all, flag);
        },
        None => {},
    }
    push_text(&mut all, image);
    push_all(&mut all, args);
    assert(all.deep_view() =~= model::shell(
        run.deep_view(),
        tty.deep_view(),
        image@,
        args.deep_view(),
    ).args);
    Invocation { program: String::from_str("docker"), args: all, input: None }
}

/// The run of the shell `entry` in `image`, from the directory `current_dir`, with
/// `args` as the command inside the container. The process keeps the host's
/// standard input.
///
/// The host is asked for the current user where the shell forwards it (see
/// [`docker_run`]), and whether a terminal is attached (see [`forward_tty`]).
/// The call fails only where the former fails.
pub fn shell(entry: &Shell, args: &[String], image: &str, current_dir: &str) -> (result: Result<
    Invocation,
    LaunchSetupError,
>)
    ensures
        result matches Ok(invocation) ==> exists|user: Seq<Seq<char>>, tty: Option<Seq<char>>|
            model::is_forwarded_user(entry.container@, user) && model::is_forward_tty(tty)
                && invocation@ == #[trigger] model::shell(
                model::docker_run(entry.container@, current_dir@, user),
                tty,
                image@,
                args.deep_view(),
            ),
        result matches Err(error) ==> entry.container.forward_user && error is Groups,
{
    match docker_run(&entry.container, current_dir) {
        Ok(run) => {
            let tty = forward_tty();
            Ok(shell_command(run, tty, image, args))
        },
        Err(error) => Err(error),
    }
}

/// An image could not be built.
#[derive(Debug, Clone, PartialEq, Eq)]
pub enum BuildError {
    /// The build of `context` ended with a status that is not a success.
    BuildFailed { context: String },
    /// The identifier of the built image could not be read; `reason` is what
    /// the host reported.
    ImageId { reason: String },
}

/// The arguments of a build of `context` that writes the image's identifier
/// to the file `iidfile`.
pub fn docker_build(context: &str, iidfile: &str) -> (args: Vec<String>)
    ensures
        args.deep_view() == model::docker_build(context@, iidfile@),
{
    let mut args = no_args();
    push_text(&mut args, "build");
    push_text(&mut args, context);
    push_text(&mut args, "--iidfile");
    push_text(&mut args, iidfile);
    args
}

/// A build that resolves an image: the context directory and, for a build
/// from a recipe, the text of the Dockerfile.
#[derive(Debug, Clone, PartialEq, Eq)]
pub struct Build {
    pub context: String,
    pub recipe: Option<String>,
}

/// The mathematical value of a [`Build`].
pub struct BuildSpec {
    pub context: Seq<char>,
    pub recipe: Option<Seq<char>>,
}

impl View for Build {
    type V = BuildSpec;

    open spec fn view(&self) -> BuildSpec {
        BuildSpec { context: self.context@, recipe: self.recipe.deep_view() }
    }
}

impl Build {
    /// The one invocation of the runtime that performs this build and writes
    /// the image's identifier to the file `iidfile`. A recipe is streamed to
    /// the build on its standard input.
    pub fn command(&self, iidfile: &str) -> (invocation: Invocation)
        ensures
            invocation@ == model::build(self@.context, self@.recipe, iidfile@),
    {
        let mut args = docker_build(self.context.as_str(), iidfile);
        let input = match &self.recipe {
            Some(recipe) => {
                push_text(&mut args, "-f");
                push_text(&mut args, "-");
                Some(recipe.clone())
            },
            None => None,
        };
        assert(args.deep_view() =~= model::build(self@.context, self@.recipe, iidfile@).args);
        Invocation { program: String::from_str("docker"), args, input }
    }

    /// Judges the status with which the build ended: a status that is not a
    /// success is the failure of the build of this context.
    pub fn finished(&self, status: &ExitStatus) -> (result: Result<(), BuildError>)
        ensures
            result is Ok <==> status.succeeded(),
            result matches Err(error) ==> error matches BuildError::BuildFailed { context }
                && context@ == self@.context,
    {
        match status.exit_ok_() {
            Ok(()) => Ok(()),
            Err(_) => Err(BuildError::BuildFailed { context: self.context.clone() }),
        }
    }

    /// The image that a build made: `contents` is what the host read from the
    /// file that the build wrote, or why it could not read it. The identifier
    /// is the full contents of the file, as they are.
    pub fn image_id(contents: Result<String, String>) -> (result: Result<String, BuildError>)
        ensures
            match contents {
                Ok(text) => result == Ok::<String, BuildError>(text),
                Err(reason) => result == Err::<String, BuildError>(
                    BuildError::ImageId { reason },
                ),
            },
    {
        match contents {
            Ok(text) => Ok(text),
            Err(reason) => Err(BuildError::ImageId { reason }),
        }
    }
}

/// What resolving an image asks for.
#[derive(Debug, Clone, PartialEq, Eq)]
pub enum Resolution {
    /// The image is known: nothing is to be done.
    Image { image: String },
    /// The image is the result of this build.
    Build { build: Build },
}

/// Resolves the image of a container: the tag, verbatim, where one is given,
/// and otherwise the build that makes the image. A recipe is built in the
/// current directory.
pub fn image(image_or_build: &ImageOrBuild) -> (resolution: Resolution)
    ensures
        match image_or_build@ {
            ImageSpec::Image { tag } => resolution matches Resolution::Image { image } && image@
                == tag,
            ImageSpec::Build { context } => resolution matches Resolution::Build { build }
                && build@ == (BuildSpec { context, recipe: None }),
            ImageSpec::Recipe { dockerfile } => resolution matches Resolution::Build { build }
                && build@ == (BuildSpec { context: "."@, recipe: Some(dockerfile) }),
        },
{
    match image_or_build {
        ImageOrBuild::Image { image } => Resolution::Image { image: image.clone() },
        ImageOrBuild::Build { build } => Resolution::Build {
            build: Build { context: build.clone(), recipe: None },
        },
        ImageOrBuild::Recipe { recipe } => Resolution::Build {
            build: Build { context: String::from_str("."), recipe: Some(recipe.clone()) },
        },
    }
}

} // verus!
