use harbor_core::manifest::{Dependencies, Language, Manifest, PackageType};
use harbor_core::package::PackageError;
use harbor_core::validate::{archive_file_name, check_package, finalize_file_set, normalize_rel_path, PackageFacts, ValidateError};

fn manifest(commands: Vec<(&str, &str)>) -> Manifest {
    Manifest {
        name: "my-agent".to_string(),
        version: "1.0.0".to_string(),
        description: "A test agent.".to_string(),
        package_type: PackageType::Agent,
        language: Language::Python,
        runtime: ">=3.11,<4".to_string(),
        entrypoint: "src/main.py".to_string(),
        license: "MIT".to_string(),
        permissions: vec![],
        features: vec![],
        os: vec![],
        commands: commands.into_iter().map(|(a, b)| (a.to_string(), b.to_string())).collect(),
        dependencies: Dependencies { manifest: "pyproject.toml".to_string(), lockfile: None },
    }
}

fn valid_facts() -> PackageFacts {
    PackageFacts {
        manifest: Ok(manifest(vec![])),
        validation: Ok(vec![]),
        existing_lock: None,
        readme_present: true,
        license_present: true,
        files: Ok(vec!["LICENSE".to_string(), "README.md".to_string(), "harbor.toml".to_string(), "src/main.py".to_string()]),
        entrypoint_is_file: true,
    }
}

#[test]
fn happy_path_passes_every_check() {
    let (m, w) = check_package(valid_facts()).unwrap();
    assert_eq!(m.name, "my-agent");
    assert!(w.is_empty());
}

#[test]
fn manifest_error_surfaces_even_when_readme_is_also_missing() {
    let mut f = valid_facts();
    f.manifest = Err("missing field `name`".to_string());
    f.readme_present = false;
    assert_eq!(check_package(f).unwrap_err(), ValidateError::ManifestParse("missing field `name`".to_string()));
}

#[test]
fn missing_readme_is_distinct_error() {
    let mut f = valid_facts();
    f.readme_present = false;
    match check_package(f).unwrap_err() {
        ValidateError::MissingRequiredFile { name } => assert_eq!(name, "README.md"),
        other => panic!("got {other:?}"),
    }
}

#[test]
fn missing_license_is_distinct_error() {
    let mut f = valid_facts();
    f.license_present = false;
    match check_package(f).unwrap_err() {
        ValidateError::MissingRequiredFile { name } => assert_eq!(name, "LICENSE"),
        other => panic!("got {other:?}"),
    }
}

#[test]
fn gitignored_entrypoint_is_distinct_error() {
    let mut f = valid_facts();
    f.files = Ok(vec!["LICENSE".to_string(), "README.md".to_string(), "harbor.toml".to_string()]);
    match check_package(f).unwrap_err() {
        ValidateError::EntrypointExcluded { path } => assert_eq!(path, "src/main.py"),
        other => panic!("got {other:?}"),
    }
}

#[test]
fn missing_entrypoint_is_distinct_error() {
    let mut f = valid_facts();
    f.entrypoint_is_file = false;
    assert!(matches!(check_package(f).unwrap_err(), ValidateError::EntrypointMissing { .. }));
}

#[test]
fn empty_command_value_is_error() {
    let mut f = valid_facts();
    f.manifest = Ok(manifest(vec![("build", "make"), ("test", "   ")]));
    match check_package(f).unwrap_err() {
        ValidateError::EmptyCommand { name } => assert_eq!(name, "test"),
        other => panic!("got {other:?}"),
    }
}

#[test]
fn malformed_existing_lockfile_is_distinct_error() {
    let mut f = valid_facts();
    f.existing_lock = Some(Err("expected `=`".to_string()));
    assert!(matches!(check_package(f).unwrap_err(), ValidateError::LockfileParse(_)));
}

#[test]
fn collection_failure_is_a_package_error() {
    let mut f = valid_facts();
    let e = PackageError::Walk { root: "/r".to_string(), message: "bad .gitignore".to_string() };
    f.files = Err(e.clone());
    assert_eq!(check_package(f).unwrap_err(), ValidateError::Package(e));
}

#[test]
fn entrypoint_paths_are_normalized() {
    assert_eq!(normalize_rel_path("./src/main.py"), "src/main.py");
    assert_eq!(normalize_rel_path("src\\main.py"), "src/main.py");
    assert_eq!(normalize_rel_path("././x"), "./x");
    let mut f = valid_facts();
    let mut m = manifest(vec![]);
    m.entrypoint = "./src\\main.py".to_string();
    f.manifest = Ok(m);
    assert!(check_package(f).is_ok());
}

#[test]
fn fresh_lockfile_replaces_a_stale_one_and_the_set_is_sorted() {
    let files = vec![
        ("src/main.py".to_string(), "/r/src/main.py".to_string()),
        ("harbor.lock".to_string(), "/stale".to_string()),
        ("README.md".to_string(), "/r/README.md".to_string()),
    ];
    let out = finalize_file_set(files, "/r/harbor.lock");
    assert_eq!(
        out,
        vec![
            ("README.md".to_string(), "/r/README.md".to_string()),
            ("harbor.lock".to_string(), "/r/harbor.lock".to_string()),
            ("src/main.py".to_string(), "/r/src/main.py".to_string()),
        ]
    );
    assert_eq!(archive_file_name("my-agent", "1.0.0"), "my-agent-1.0.0.harbor");
}

#[test]
fn validate_errors_describe_themselves() {
    assert_eq!(
        ValidateError::EmptyCommand { name: "test".to_string() }.message(),
        "[commands] entry \"test\" has an empty value; commands must be non-empty strings"
    );
    assert_eq!(
        ValidateError::Package(PackageError::Io { path: "/a".to_string(), message: "denied".to_string() }).message(),
        "I/O error at /a: denied"
    );
}
