use harbor_core::package::{file_mode, is_excluded, select_package_files, sort_by_archive_path, to_archive_path};

fn pairs(v: &[&str]) -> Vec<(String, String)> {
    v.iter().map(|p| (p.to_string(), format!("/disk/{p}"))).collect()
}

#[test]
fn git_directory_is_always_excluded() {
    assert!(is_excluded(".git/config"));
    assert!(is_excluded("sub/.git/HEAD"));
    assert!(!is_excluded(".gitignore"));
    assert!(!is_excluded("a.git/x"));
}

#[test]
fn previous_harbor_archive_is_excluded_from_collection() {
    assert!(is_excluded("my-agent-1.0.0.harbor"));
    assert!(is_excluded("my-agent-1.0.0.harbor.tmp"));
    assert!(!is_excluded("harbor.toml"));
}

#[test]
fn files_are_sorted_by_path_bytes() {
    let walked = pairs(&["b.txt", "a/z.txt", ".git/HEAD", "A.txt", "a.txt", "old.harbor"]);
    let files = select_package_files(&walked);
    let names: Vec<&str> = files.iter().map(|(p, _)| p.as_str()).collect();
    assert_eq!(names, vec!["A.txt", "a.txt", "a/z.txt", "b.txt"]);
    assert_eq!(files[0].1, "/disk/A.txt");
}

#[test]
fn sorting_orders_by_utf8_bytes() {
    let sorted = sort_by_archive_path(pairs(&["é", "z", "a/b", "a"]));
    let names: Vec<&str> = sorted.iter().map(|(p, _)| p.as_str()).collect();
    assert_eq!(names, vec!["a", "a/b", "z", "é"]);
}

#[test]
fn archive_paths_use_forward_slashes_and_modes_follow_the_exec_bit() {
    assert_eq!(to_archive_path(&["src".to_string(), "main.py".to_string()]), "src/main.py");
    assert_eq!(to_archive_path(&["README.md".to_string()]), "README.md");
    assert_eq!(file_mode(true), 0o755);
    assert_eq!(file_mode(false), 0o644);
}

#[test]
fn distinct_walked_paths_give_a_strictly_ordered_list() {
    let files = select_package_files(&pairs(&["src/b.py", ".git/HEAD", "README.md", "src/a.py", "x.harbor"]));
    let paths: Vec<&str> = files.iter().map(|f| f.0.as_str()).collect();
    assert_eq!(paths, vec!["README.md", "src/a.py", "src/b.py"]);
    assert!(paths.windows(2).all(|w| w[0].as_bytes() < w[1].as_bytes()));
}
