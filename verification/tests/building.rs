use ops::command::{ExitStatus, Invocation};
use ops::container::{execute, image, Build, BuildError, Resolution};
use ops::plan::{Container, ImageOrBuild, Mission, Plan};
use ops::run::{exit_code, Error, ExecutionOutcome};

fn strings(items: &[&str]) -> Vec<String> {
    items.iter().map(|item| item.to_string()).collect()
}

const IMAGE_ID: &str = "sha256:27a71e19c95622dc913ca6ca9fed58e68e04e9426d0ee64ac0c5b6a02f1eaf14";

/// Resolves an image the way a host does, with a build that ends with `status`
/// and writes `IMAGE_ID`. Returns the builds that were run beside the result.
fn resolve(
    spec: &ImageOrBuild,
    status: ExitStatus,
) -> (Vec<Invocation>, Result<String, BuildError>) {
    let build = match image(spec) {
        Resolution::Image { image } => return (vec![], Ok(image)),
        Resolution::Build { build } => build,
    };
    let builds = vec![build.command("/tmp/iidfile")];
    if let Err(error) = build.finished(&status) {
        return (builds, Err(error));
    }
    (builds, Build::image_id(Ok(IMAGE_ID.to_string())))
}

#[test]
fn docker_build() {
    let spec = ImageOrBuild::Build { build: ".".to_string() };
    let mission = Mission { container: Container::new(spec), script: "true".to_string() };
    let plan = Plan::from_file(vec![("hello-world".to_string(), mission)], None).unwrap();
    let mut run = ops::run::execute(plan, None);

    let (_, mission) = run.current().unwrap();
    let succeeded = ExitStatus { code: Some(0) };
    let (builds, resolved) = resolve(&mission.container.image_or_build, succeeded);
    assert_eq!(
        builds,
        vec![Invocation {
            program: "docker".to_string(),
            args: strings(&["build", ".", "--iidfile", "/tmp/iidfile"]),
            input: None,
        }]
    );
    let invocation = execute(mission, &resolved.unwrap(), "/work").unwrap();
    assert_eq!(invocation.args[invocation.args.len() - 2..], strings(&["--interactive", IMAGE_ID]));
    assert_eq!(invocation.input, Some("true".to_string()));

    run.record(Ok(ExitStatus { code: Some(0) }));
    assert!(run.current().is_none());
    let result = run.finish();
    assert_eq!(result, Ok(ExecutionOutcome { failed: vec![] }));
    assert_eq!(exit_code(&result), 0);
}

#[test]
fn docker_build_from_recipe() {
    let spec = ImageOrBuild::Recipe { recipe: "FROM busybox".to_string() };
    let mission = Mission { container: Container::new(spec), script: "true".to_string() };
    let plan = Plan::from_file(vec![("hello-world".to_string(), mission)], None).unwrap();
    let mut run = ops::run::execute(plan, None);

    let (_, mission) = run.current().unwrap();
    let succeeded = ExitStatus { code: Some(0) };
    let (builds, resolved) = resolve(&mission.container.image_or_build, succeeded);
    assert_eq!(
        builds,
        vec![Invocation {
            program: "docker".to_string(),
            args: strings(&["build", ".", "--iidfile", "/tmp/iidfile", "-f", "-"]),
            input: Some("FROM busybox".to_string()),
        }]
    );
    let invocation = execute(mission, &resolved.unwrap(), "/work").unwrap();
    assert_eq!(invocation.args[invocation.args.len() - 2..], strings(&["--interactive", IMAGE_ID]));

    run.record(Ok(ExitStatus { code: Some(0) }));
    let result = run.finish();
    assert_eq!(result, Ok(ExecutionOutcome { failed: vec![] }));
    assert_eq!(exit_code(&result), 0);
}

#[test]
fn recipe_is_built_like_a_context_but_for_the_dockerfile() {
    let from_context = Build { context: ".".to_string(), recipe: None };
    let from_recipe = Build { context: ".".to_string(), recipe: Some("FROM busybox".to_string()) };
    let context = from_context.command("/tmp/iidfile");
    let recipe = from_recipe.command("/tmp/iidfile");
    assert_eq!(recipe.program, context.program);
    let mut expected = context.args.clone();
    expected.extend(strings(&["-f", "-"]));
    assert_eq!(recipe.args, expected);
    assert_eq!(context.input, None);
    assert_eq!(recipe.input, Some("FROM busybox".to_string()));
    for code in [Some(0), Some(1), None] {
        let status = ExitStatus { code };
        assert_eq!(from_recipe.finished(&status), from_context.finished(&status));
    }
}

#[test]
fn image_tag_needs_no_build() {
    let spec = ImageOrBuild::Image { image: "busybox".to_string() };
    assert_eq!(resolve(&spec, ExitStatus { code: Some(1) }), (vec![], Ok("busybox".to_string())));
}

#[test]
fn failing_build_ends_the_run_with_a_build_error() {
    let broken = Mission {
        container: Container::new(ImageOrBuild::Build { build: "missing".to_string() }),
        script: "true".to_string(),
    };
    let fine = Mission {
        container: Container::new(ImageOrBuild::Image { image: "busybox".to_string() }),
        script: "true".to_string(),
    };
    let plan = Plan::from_file(
        vec![
            ("first".to_string(), fine.clone()),
            ("broken".to_string(), broken),
            ("last".to_string(), fine),
        ],
        None,
    )
    .unwrap();
    let mut run = ops::run::execute(plan, None);
    run.record(Ok(ExitStatus { code: Some(0) }));

    let (name, mission) = run.current().unwrap();
    assert_eq!(name, "broken");
    let failed = ExitStatus { code: Some(1) };
    let (builds, resolved) = resolve(&mission.container.image_or_build, failed);
    assert_eq!(builds.len(), 1);
    let error = resolved.unwrap_err();
    assert_eq!(error, BuildError::BuildFailed { context: "missing".to_string() });

    run.record(Err(Error::Build(error.clone())));
    assert!(run.current().is_none());
    run.record(Ok(ExitStatus { code: Some(0) }));
    assert!(run.current().is_none());
    let result = run.finish();
    assert_eq!(result, Err(Error::Build(error)));
    assert_ne!(exit_code(&result), 0);
}
