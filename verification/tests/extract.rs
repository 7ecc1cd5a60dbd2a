use harbor_core::cache::join_path;
use harbor_core::run::extract::{check_confined, staging_dir};
use harbor_core::run::extract::{check_entry_paths, is_path_safe, ExtractError};

#[test]
fn safe_relative_paths_are_accepted() {
    assert!(is_path_safe("harbor.toml"));
    assert!(is_path_safe("src/main.py"));
    assert!(is_path_safe("a/b/c/d.txt"));
}

#[test]
fn parent_dir_traversal_is_rejected() {
    assert!(!is_path_safe("../x"));
    assert!(!is_path_safe("a/../../b"));
    assert!(!is_path_safe("../../../etc/passwd"));
}

#[test]
fn absolute_paths_are_rejected() {
    assert!(!is_path_safe("/abs/x"));
    assert!(!is_path_safe("/etc/passwd"));
}

#[test]
fn empty_path_is_rejected() {
    assert!(!is_path_safe(""));
}

#[test]
fn entry_check_names_the_first_unsafe_path() {
    let paths = vec!["ok.txt".to_string(), "../evil.txt".to_string(), "/abs".to_string()];
    match check_entry_paths(&paths) {
        Err(ExtractError::UnsafePath { path }) => assert_eq!(path, "../evil.txt"),
        other => panic!("unexpected: {other:?}"),
    }
    assert!(check_entry_paths(&["a/b".to_string(), "c".to_string()]).is_ok());
    assert!(!is_path_safe("./c"));
    assert!(is_path_safe("a/./b"));
    assert!(is_path_safe("a//b"));
}

#[test]
fn staging_and_confinement() {
    assert_eq!(staging_dir("/h/tmp", "42-7"), "/h/tmp/extract-42-7");
    assert!(check_confined("/h/tmp/extract-1/src", "/h/tmp/extract-1", "src/a.py").is_ok());
    assert!(check_confined("/h/tmp/extract-1", "/h/tmp/extract-1", "a.py").is_ok());
    assert_eq!(
        check_confined("/h/tmp/extract-10", "/h/tmp/extract-1", "x").unwrap_err(),
        ExtractError::PathEscapesDestination { path: "x".to_string() }
    );
}

#[test]
fn safe_entry_joined_to_a_directory_stays_under_it() {
    for p in ["harbor.toml", "src/main.py", "a/b/c.txt"] {
        assert!(is_path_safe(p));
        let dir: Vec<char> = "/h/packages/local/a/1.0.0".chars().collect();
        let joined: String = join_path(&dir, p).into_iter().collect();
        assert!(joined.starts_with("/h/packages/local/a/1.0.0/"), "{joined}");
        assert!(joined.ends_with(p));
    }
}
