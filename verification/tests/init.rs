use harbor_core::init::{plan_init, InitError, PLACEHOLDER_NAME};

#[test]
fn valid_dir_name_becomes_package_name_and_files_validate() {
    let plan = plan_init("/x/weather", Some("weather"), false, false).unwrap();
    assert_eq!(plan.outcome.name, "weather");
    assert!(!plan.outcome.name_is_placeholder);
    assert_eq!(plan.outcome.manifest_path, "/x/weather/harbor.toml");
    assert_eq!(plan.outcome.lockfile_path, "/x/weather/harbor.lock");
    assert!(plan.manifest_toml.contains("name = \"weather\""));
}

#[test]
fn invalid_dir_name_falls_back_to_placeholder() {
    let plan = plan_init("/x/My Project!", Some("My Project!"), false, false).unwrap();
    assert!(plan.outcome.name_is_placeholder);
    assert_eq!(plan.outcome.name, PLACEHOLDER_NAME);
    assert_eq!(plan.outcome.name, "my-package");
}

#[test]
fn too_short_dir_name_falls_back_to_placeholder() {
    let plan = plan_init("/x/ab", Some("ab"), false, false).unwrap();
    assert!(plan.outcome.name_is_placeholder);
    assert_eq!(plan.outcome.name, PLACEHOLDER_NAME);
}

#[test]
fn existing_manifest_without_force_errors_and_changes_nothing() {
    let err = plan_init("/x/weather", Some("weather"), true, false).unwrap_err();
    assert!(matches!(err, InitError::AlreadyExists { .. }));
}

#[test]
fn existing_files_with_force_are_overwritten() {
    let plan = plan_init("/x/weather", Some("weather"), true, true).unwrap();
    assert!(plan.manifest_toml.contains("name = \"weather\""));
}

#[test]
fn already_exists_error_message_mentions_force() {
    let err = plan_init("/x/weather", Some("weather"), true, false).unwrap_err();
    let msg = err.message();
    assert!(msg.contains("--force"), "got: {msg}");
    assert!(msg.contains("harbor.toml"), "got: {msg}");
}
