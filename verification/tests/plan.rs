use ops::plan::{false_, ConfigError, Container, ImageOrBuild, Mission, Plan, Shell};

fn mission(script: &str) -> Mission {
    Mission {
        container: Container::new(ImageOrBuild::Image { image: "busybox".to_string() }),
        script: script.to_string(),
    }
}

#[test]
fn forward_user_defaults_to_false() {
    assert!(!false_());
    let container = Container::new(ImageOrBuild::Image { image: "busybox".to_string() });
    assert_eq!(container.image_or_build, ImageOrBuild::Image { image: "busybox".to_string() });
    assert!(!container.forward_user);
    assert!(container.volumes.is_empty());
    assert!(container.environment.is_empty());
}

#[test]
fn from_file_keeps_the_entries_in_their_order() {
    let entries = vec![
        ("success".to_string(), mission("true")),
        ("failure".to_string(), mission("false")),
        ("hello-world".to_string(), mission("echo hello world")),
    ];
    let plan = Plan::from_file(entries.clone(), None).unwrap();
    assert_eq!(plan.missions, entries);
    assert_eq!(plan.shell, None);
}

#[test]
fn from_file_keeps_the_shell() {
    let shell = Shell { container: Container::new(ImageOrBuild::Build { build: ".".to_string() }) };
    let plan = Plan::from_file(Vec::new(), Some(shell.clone())).unwrap();
    assert!(plan.missions.is_empty());
    assert_eq!(plan.shell, Some(shell));
}

#[test]
fn from_file_refuses_a_name_that_occurs_twice() {
    let entries = vec![
        ("a".to_string(), mission("true")),
        ("b".to_string(), mission("true")),
        ("a".to_string(), mission("false")),
    ];
    assert_eq!(
        Plan::from_file(entries, None),
        Err(ConfigError::DuplicateMission { name: "a".to_string() })
    );
}

#[test]
fn from_file_reports_the_first_name_that_repeats() {
    let entries = vec![
        ("a".to_string(), mission("true")),
        ("b".to_string(), mission("true")),
        ("c".to_string(), mission("true")),
        ("b".to_string(), mission("true")),
        ("a".to_string(), mission("true")),
    ];
    assert_eq!(
        Plan::from_file(entries, None),
        Err(ConfigError::DuplicateMission { name: "b".to_string() })
    );
}

#[test]
fn from_file_tells_names_apart_by_every_character() {
    let entries = vec![
        ("build".to_string(), mission("true")),
        ("Build".to_string(), mission("true")),
        ("build ".to_string(), mission("true")),
        ("".to_string(), mission("true")),
    ];
    assert!(Plan::from_file(entries, None).is_ok());
}
