use harbor_core::github::{
    derive_package_name, is_valid_commit_sha, parse_github_url, parse_ls_remote_head, slugify_name,
    strip_top_level_component, GithubError,
};
use harbor_core::init::is_valid_package_name;

#[test]
fn parses_valid_url() {
    let r = parse_github_url("https://github.com/octocat/hello-world").unwrap();
    assert_eq!(r.owner, "octocat");
    assert_eq!(r.repo, "hello-world");
}

#[test]
fn parses_url_with_trailing_slash() {
    let r = parse_github_url("https://github.com/octocat/hello-world/").unwrap();
    assert_eq!(r.owner, "octocat");
    assert_eq!(r.repo, "hello-world");
}

#[test]
fn parses_url_with_dot_git_suffix() {
    let r = parse_github_url("https://github.com/octocat/hello-world.git").unwrap();
    assert_eq!(r.owner, "octocat");
    assert_eq!(r.repo, "hello-world");
}

#[test]
fn rejects_extra_path_segments() {
    let err = parse_github_url("https://github.com/octocat/hello-world/tree/main").unwrap_err();
    assert!(matches!(err, GithubError::InvalidUrl { .. }));
}

#[test]
fn rejects_non_github_host() {
    let err = parse_github_url("https://gitlab.com/octocat/hello-world").unwrap_err();
    assert!(matches!(err, GithubError::InvalidUrl { .. }));
}

#[test]
fn rejects_http_scheme() {
    let err = parse_github_url("http://github.com/octocat/hello-world").unwrap_err();
    assert!(matches!(err, GithubError::InvalidUrl { .. }));
}

#[test]
fn rejects_empty_owner_or_repo() {
    assert!(parse_github_url("https://github.com//hello-world").is_err());
    assert!(parse_github_url("https://github.com/octocat/").is_err());
}

#[test]
fn rejects_traversal_components_defensively() {
    assert!(parse_github_url("https://github.com/../hello-world").is_err());
    assert!(parse_github_url("https://github.com/octocat/..").is_err());
}

#[test]
fn messy_repo_name_is_slugified_into_a_valid_name() {
    let name = derive_package_name("My_Repo.Name");
    assert!(is_valid_package_name(&name), "got: {name:?}");
    assert_eq!(name, "my_repo-name");
}

#[test]
fn hopeless_repo_name_falls_back_to_placeholder() {
    assert_eq!(derive_package_name("!!!"), "imported-package");
    assert_eq!(derive_package_name(".."), "imported-package");
    assert_eq!(derive_package_name(""), "imported-package");
}

#[test]
fn commit_sha_validation() {
    assert!(is_valid_commit_sha(&"a".repeat(40)));
    assert!(is_valid_commit_sha("0123456789abcdef0123456789abcdef01234567"));
    assert!(!is_valid_commit_sha(&"A".repeat(40)), "must reject uppercase");
    assert!(!is_valid_commit_sha(&"a".repeat(39)), "must reject short shas");
    assert!(!is_valid_commit_sha(&"g".repeat(40)), "must reject non-hex");
}

#[test]
fn slug_collapses_and_trims_dashes() {
    assert_eq!(slugify_name("--Hello  World--"), "hello-world");
}

#[test]
fn ls_remote_head_line_yields_the_sha() {
    let sha = "0123456789abcdef0123456789abcdef01234567";
    let out = format!("{sha}\tHEAD\n");
    assert_eq!(parse_ls_remote_head("o", "r", &out).unwrap(), sha);
    assert!(matches!(
        parse_ls_remote_head("o", "r", "nonsense\tHEAD\n"),
        Err(GithubError::UnexpectedHeadFormat { .. })
    ));
}

#[test]
fn tarball_top_level_directory_is_stripped() {
    assert_eq!(strip_top_level_component("repo-abc/src/main.py"), Some("src/main.py".to_string()));
    assert_eq!(strip_top_level_component("repo-abc/"), None);
    assert_eq!(strip_top_level_component("repo-abc"), None);
}

#[test]
fn github_errors_describe_themselves() {
    assert_eq!(
        GithubError::InvalidUrl { url: "u".to_string(), reason: "host must be github.com".to_string() }.message(),
        "invalid GitHub repository URL \"u\": host must be github.com"
    );
    assert_eq!(
        GithubError::MissingDependency("git".to_string()).message(),
        "git is required for `harbor add` but was not found (or is not executable) in PATH"
    );
}

#[test]
fn repository_urls() {
    let r = parse_github_url("https://github.com/octocat/hello-world").unwrap();
    assert_eq!(r.git_url(), "https://github.com/octocat/hello-world.git");
    assert_eq!(r.tarball_url("abc"), "https://codeload.github.com/octocat/hello-world/tar.gz/abc");
    assert_eq!(r.tarball_file_name("abc"), "octocat-hello-world-abc.tar.gz");
}

fn widget_facts(existing: Option<&str>) -> harbor_core::github::CheckoutFacts {
    harbor_core::github::CheckoutFacts {
        existing_manifest: existing.map(|s| s.to_string()),
        markers: harbor_core::github::LanguageMarkers { pyproject_toml: true, package_json: false, cargo_toml: false },
        requires_python: None,
        python_entrypoints: vec![false, false, false, false],
        uv_lock: false,
        package_main: None,
        package_main_exists: false,
        engines_node: None,
        index_js: false,
        src_index_js: false,
        package_lock: false,
    }
}

#[test]
fn existing_harbor_toml_is_preserved_verbatim() {
    let original = "spec-version = 1\nname = \"already-a-package\"\n# a repo that is already a harbor package\n";
    let repo = harbor_core::github::RepoRef { owner: "acme".to_string(), repo: "widget".to_string() };
    let sha = "f".repeat(40);
    let toml_str = harbor_core::github::infer_manifest_text(&repo, &sha, &widget_facts(Some(original)))
        .expect("should return existing content");
    assert_eq!(toml_str, original);
}

#[test]
fn checkout_without_harbor_toml_gets_an_inferred_one() {
    let repo = harbor_core::github::RepoRef { owner: "acme".to_string(), repo: "widget".to_string() };
    let sha = "f".repeat(40);
    let text = harbor_core::github::infer_manifest_text(&repo, &sha, &widget_facts(None)).unwrap();
    assert!(text.contains("name = \"widget\""), "{text}");
    assert!(text.contains(&format!("Imported from https://github.com/acme/widget at {sha}")), "{text}");
}

#[test]
fn import_without_a_supported_language_fails_with_the_detection_error() {
    let repo = harbor_core::github::RepoRef { owner: "acme".to_string(), repo: "widget".to_string() };
    let mut rust_only = widget_facts(None);
    rust_only.markers = harbor_core::github::LanguageMarkers { pyproject_toml: false, package_json: false, cargo_toml: true };
    assert_eq!(
        harbor_core::github::infer_manifest_text(&repo, "abc", &rust_only).unwrap_err(),
        GithubError::UnsupportedLanguage { language: "rust".to_string() }
    );
    let mut bare = widget_facts(None);
    bare.markers = harbor_core::github::LanguageMarkers { pyproject_toml: false, package_json: false, cargo_toml: false };
    assert_eq!(
        harbor_core::github::infer_manifest_text(&repo, "abc", &bare).unwrap_err(),
        GithubError::UndetectedLanguage
    );
}

#[test]
fn accepted_urls_rebuild_from_their_parts() {
    for url in [
        "https://github.com/octocat/hello-world",
        "https://github.com/octocat/hello-world/",
        "https://github.com/octocat/hello-world.git",
        "https://github.com/octocat/hello-world.git/",
    ] {
        let r = parse_github_url(url).unwrap();
        let prefix = format!("https://github.com/{}/{}", r.owner, r.repo);
        assert!(url.starts_with(&prefix), "{url}");
        assert!(["", "/", ".git", ".git/"].contains(&&url[prefix.len()..]), "{url}");
        assert!(!r.owner.starts_with('.') && !r.repo.contains('/'));
    }
}
