use ops::command::Invocation;
use ops::container::{forward_tty, image, shell, Resolution};
use ops::plan::{ConfigError, Container, ImageOrBuild, Mission, Plan, Shell};

fn strings(items: &[&str]) -> Vec<String> {
    items.iter().map(|item| item.to_string()).collect()
}

#[test]
fn shell_accepts_args() {
    let container = Container::new(ImageOrBuild::Image { image: "busybox".to_string() });
    let entry = Shell { container };
    let plan = Plan::from_file(vec![], Some(entry)).unwrap();

    let entry = ops::run::shell(plan).unwrap();
    let image = match image(&entry.container.image_or_build) {
        Resolution::Image { image } => image,
        Resolution::Build { .. } => unreachable!(),
    };
    let invocation = shell(&entry, &strings(&["echo", "hello", "world"]), &image, "/work").unwrap();

    let mut args = strings(&[
        "run",
        "--rm",
        "--volume",
        "/work:/work",
        "--workdir",
        "/work",
        "--volume",
        "/var/run/docker.sock:/var/run/docker.sock",
        "--interactive",
    ]);
    args.extend(forward_tty());
    args.extend(strings(&["busybox", "echo", "hello", "world"]));
    assert_eq!(invocation, Invocation { program: "docker".to_string(), args, input: None });
}

#[test]
fn shell_without_arguments_runs_the_default_command_of_the_image() {
    let container = Container::new(ImageOrBuild::Image { image: "busybox".to_string() });
    let entry = Shell { container };
    let invocation = shell(&entry, &[], "busybox", "/work").unwrap();
    assert_eq!(invocation.args.last().unwrap(), "busybox");
    assert_eq!(invocation.input, None);
}

#[test]
fn missing_shell_is_a_configuration_error() {
    let mission = Mission {
        container: Container::new(ImageOrBuild::Image { image: "busybox".to_string() }),
        script: "true".to_string(),
    };
    let plan = Plan::from_file(vec![("hello-world".to_string(), mission)], None).unwrap();
    assert_eq!(ops::run::shell(plan), Err(ConfigError::MissingShell));
}
