use harbor_core::cache::{removal_scope, RemovalScope};
use harbor_core::cache::HarborHome;

#[test]
fn path_accessors_return_expected_joined_paths() {
    let home = HarborHome::at("/fake/root");

    assert_eq!(home.root(), "/fake/root");
    assert_eq!(home.packages(), "/fake/root/packages");
    assert_eq!(home.runtimes(), "/fake/root/runtimes");
    assert_eq!(home.envs(), "/fake/root/envs");
    assert_eq!(home.models(), "/fake/root/models");
    assert_eq!(home.logs(), "/fake/root/logs");
    assert_eq!(home.tmp(), "/fake/root/tmp");
    assert_eq!(home.credentials_path(), "/fake/root/credentials.toml");
}

#[test]
fn local_package_and_env_dir_shape() {
    let home = HarborHome::at("/fake/root");

    assert_eq!(
        home.local_package_dir("my-agent", "1.2.3"),
        "/fake/root/packages/local/my-agent/1.2.3"
    );
    assert_eq!(
        home.local_env_dir("my-agent", "1.2.3"),
        "/fake/root/envs/local/my-agent/1.2.3"
    );
}

#[test]
fn grants_live_outside_the_package_cache() {
    let home = HarborHome::at("/fake/root");
    let path = home.local_grants_path("pkg", "1.0.0");
    assert_eq!(path, "/fake/root/permissions/local/pkg/1.0.0.toml");
    assert!(!path.starts_with(&home.packages()));
    assert!(path.starts_with(home.root()));
}

#[test]
fn registry_and_github_paths_are_namespaced() {
    let home = HarborHome::at("/h");
    assert_eq!(home.registry_package_dir("o", "n", "1.0.0"), "/h/packages/registry/o/n/1.0.0");
    assert_eq!(home.registry_env_dir("o", "n", "1.0.0"), "/h/envs/registry/o/n/1.0.0");
    assert_eq!(home.registry_grants_path("o", "n", "1.0.0"), "/h/permissions/registry/o/n/1.0.0.toml");
    assert_eq!(home.github_package_dir("o", "r", "abc"), "/h/packages/github/o/r/abc");
    assert_eq!(home.github_env_dir("o", "r", "abc"), "/h/envs/github/o/r/abc");
    assert_eq!(home.github_grants_path("o", "r", "abc"), "/h/permissions/github/o/r/abc.toml");
}

#[test]
fn trailing_slash_root_joins_with_a_single_separator() {
    let home = HarborHome::at("/fake/root/");
    assert_eq!(home.packages(), "/fake/root/packages");
}

#[test]
fn layout_lists_the_standard_directories() {
    let home = HarborHome::at("/r");
    let dirs = home.layout_dirs();
    assert!(dirs.contains(&"/r/packages".to_string()));
    assert!(dirs.contains(&"/r/tmp".to_string()));
    assert!(!dirs.iter().any(|d| d.ends_with("credentials.toml")));
}

#[test]
fn removal_scope_distinguishes_scoped_and_local_names() {
    assert_eq!(
        removal_scope("demo/echo"),
        RemovalScope::Scoped { owner: "demo".to_string(), name: "echo".to_string() }
    );
    assert_eq!(removal_scope("echo"), RemovalScope::Local { name: "echo".to_string() });
}

#[test]
fn resolve_ends_with_dot_harbor_when_home_dir_exists() {
    if let Ok(home) = HarborHome::resolve() {
        assert!(home.root().ends_with("/.harbor"), "got: {}", home.root());
    }
}

#[test]
fn from_home_dir_joins_dot_harbor() {
    let home = HarborHome::from_home_dir(Some("/home/alice")).unwrap();
    assert_eq!(home.root(), "/home/alice/.harbor");
    let home = HarborHome::from_home_dir(Some("/home/bob/")).unwrap();
    assert_eq!(home.packages(), "/home/bob/.harbor/packages");
}

#[test]
fn from_home_dir_without_home_is_no_home_dir() {
    assert_eq!(HarborHome::from_home_dir(None), Err(harbor_core::cache::CacheError::NoHomeDir));
}

#[test]
fn resolve_fails_only_with_no_home_dir() {
    match HarborHome::resolve() {
        Ok(home) => assert!(home.root().ends_with(".harbor")),
        Err(e) => assert_eq!(e, harbor_core::cache::CacheError::NoHomeDir),
    }
}
