use harbor_core::run::{installed_line, prealloc_cap, short_sha};
use harbor_core::run::{environment_paths, PackageOrigin};
use harbor_core::cache::HarborHome;
use harbor_core::manifest::{Dependencies, Language, Manifest, PackageType};
use harbor_core::run::extract::{is_path_safe, ExtractError};
use harbor_core::run::pipeline::{run_start, run_step, RunAction, RunEvent, RunSource, RunState};
use harbor_core::run::{
    complete_preparation, current_os, local_destination, os_allowed, parse_run_target, registry_destination,
    run_local_archive, run_registry_archive, validate_extracted, verify_archive, ArchiveFacts, ExtractedFacts,
    RunError, RunTarget,
};

fn manifest(name: &str, version: &str, os: &[&str]) -> Manifest {
    Manifest {
        name: name.to_string(),
        version: version.to_string(),
        description: "A test package.".to_string(),
        package_type: PackageType::Agent,
        language: Language::Python,
        runtime: ">=3.11,<4".to_string(),
        entrypoint: "src/main.py".to_string(),
        license: "MIT".to_string(),
        permissions: vec![],
        features: vec![],
        os: os.iter().map(|s| s.to_string()).collect(),
        commands: vec![],
        dependencies: Dependencies { manifest: "pyproject.toml".to_string(), lockfile: None },
    }
}

fn facts(paths: &[&str], lock: Result<Option<&str>, &str>, actual: &str, m: Manifest) -> ArchiveFacts {
    ArchiveFacts {
        paths: paths.iter().map(|s| s.to_string()).collect(),
        lock: lock.map(|o| o.map(|s| s.to_string())).map_err(|e| e.to_string()),
        actual_checksum: actual.to_string(),
        manifest: Ok(m),
        validation: Ok(()),
    }
}

const ALL: &[&str] = &["harbor.lock", "harbor.toml", "src/main.py"];

/// Drives the preparation of local archive `a.harbor` under `/h` with a
/// simulated file system: `populated` says whether the destination already
/// holds a package. Returns the actions taken and the final action.
fn drive_local(f: ArchiveFacts, populated: bool, on_disk: Manifest) -> (Vec<RunAction>, RunAction) {
    let home = HarborHome::at("/h");
    let mut state = run_start(RunSource::Local { archive: "a.harbor".to_string() });
    let mut event = RunEvent::Begin;
    let mut f = Some(f);
    let mut on_disk = Some(on_disk);
    let mut taken = Vec::new();
    loop {
        let (next, action) = run_step(&home, state, event);
        state = next;
        event = match &action {
            RunAction::ReadArchive { .. } => RunEvent::ArchiveRead(Ok(f.take().unwrap())),
            RunAction::ProbeNonEmpty { .. } => RunEvent::Probed(Ok(populated)),
            RunAction::Extract { .. } => RunEvent::Extracted(Ok(false)),
            RunAction::ReadDirectory { .. } => RunEvent::DirectoryRead {
                facts: ExtractedFacts { read: Ok(()), manifest: Ok(on_disk.take().unwrap()), validation: Ok(vec![]) },
                current: "linux".to_string(),
            },
            _ => return (taken, action),
        };
        taken.push(action);
    }
}

#[test]
fn parse_local_archive_by_extension() {
    let result = parse_run_target("./my-agent.harbor", false).unwrap();
    assert_eq!(result, RunTarget::LocalArchive("./my-agent.harbor".to_string()));
}

#[test]
fn parse_local_archive_by_existing_file() {
    let result = parse_run_target("/tmp/some/my-archive", true).unwrap();
    assert_eq!(result, RunTarget::LocalArchive("/tmp/some/my-archive".to_string()));
}

#[test]
fn parse_registry_ref_simple() {
    let result = parse_run_target("owner/my-agent", false).unwrap();
    assert_eq!(
        result,
        RunTarget::RegistryRef { owner: "owner".to_string(), name: "my-agent".to_string() }
    );
}

#[test]
fn parse_registry_ref_with_digits_and_hyphens() {
    let result = parse_run_target("user123/my-pkg-v2", false).unwrap();
    assert_eq!(
        result,
        RunTarget::RegistryRef { owner: "user123".to_string(), name: "my-pkg-v2".to_string() }
    );
}

#[test]
fn parse_github_url_https() {
    let result = parse_run_target("https://github.com/octocat/hello-world", false).unwrap();
    assert_eq!(result, RunTarget::GitHubUrl("https://github.com/octocat/hello-world".to_string()));
}

#[test]
fn parse_github_url_http() {
    let result = parse_run_target("http://github.com/octocat/repo", false).unwrap();
    assert_eq!(result, RunTarget::GitHubUrl("http://github.com/octocat/repo".to_string()));
}

#[test]
fn parse_github_url_with_path_suffix() {
    let result = parse_run_target("https://github.com/octocat/hello-world/tree/main", false).unwrap();
    assert_eq!(
        result,
        RunTarget::GitHubUrl("https://github.com/octocat/hello-world/tree/main".to_string())
    );
}

#[test]
fn parse_invalid_target_no_slash_is_rejected() {
    let err = parse_run_target("justaname", false).unwrap_err();
    assert!(matches!(err, RunError::InvalidTarget { .. }));
}

#[test]
fn parse_invalid_target_empty_parts() {
    let err = parse_run_target("/name", false).unwrap_err();
    assert!(matches!(err, RunError::InvalidTarget { .. }));
}

#[test]
fn parse_invalid_target_triple_slash() {
    let err = parse_run_target("a/b/c", false).unwrap_err();
    assert!(matches!(err, RunError::InvalidTarget { .. }));
}

#[test]
fn parse_rejects_version_pin_syntax() {
    let err = parse_run_target("owner/pkg@1.0.0", false).unwrap_err();
    assert!(matches!(err, RunError::InvalidTarget { .. }));
}

#[test]
fn parse_rejects_traversal_in_name() {
    assert!(matches!(parse_run_target("owner/..", false).unwrap_err(), RunError::InvalidTarget { .. }));
    assert!(matches!(parse_run_target("../name", false).unwrap_err(), RunError::InvalidTarget { .. }));
}

#[test]
fn path_traversal_entries_are_rejected_via_the_pure_helper() {
    assert!(!is_path_safe("../x"));
    assert!(!is_path_safe("/abs/x"));
    assert!(!is_path_safe("a/../../b"));
    assert!(is_path_safe("a/b/c"));
}

#[test]
fn os_allowed_pure_function_behavior() {
    assert!(os_allowed(&[], "macos"), "no os declared means unrestricted");
    assert!(os_allowed(&["macos".to_string()], "macos"));
    assert!(os_allowed(&["linux".to_string(), "macos".to_string()], "macos"));
    assert!(!os_allowed(&["linux".to_string()], "macos"));
    assert!(!os_allowed(&["windows".to_string()], "linux"));
}

#[test]
fn current_os_names_the_supported_systems() {
    assert_eq!(current_os("linux"), "linux");
    assert_eq!(current_os("macos"), "macos");
    assert_eq!(current_os("freebsd"), "unknown");
}

#[test]
fn happy_path_prepares_and_extracts_the_package() {
    let f = facts(ALL, Ok(Some("sha256:x")), "sha256:x", manifest("sample-agent", "1.0.0", &[]));
    let (taken, last) = drive_local(f, false, manifest("sample-agent", "1.0.0", &[]));
    assert_eq!(
        taken,
        vec![
            RunAction::ReadArchive { path: "a.harbor".to_string() },
            RunAction::ProbeNonEmpty { dir: "/h/packages/local/sample-agent/1.0.0".to_string() },
            RunAction::Extract { dest: "/h/packages/local/sample-agent/1.0.0".to_string() },
            RunAction::ReadDirectory { dir: "/h/packages/local/sample-agent/1.0.0".to_string() },
        ]
    );
    let prepared = match last {
        RunAction::Done(Ok(p)) => p,
        other => panic!("got: {other:?}"),
    };
    assert_eq!(prepared.name, "sample-agent");
    assert_eq!(prepared.version, "1.0.0");
    assert!(!prepared.from_cache);
    assert!(prepared.warnings.is_empty());
    assert_eq!(prepared.package_dir, "/h/packages/local/sample-agent/1.0.0");
}

#[test]
fn skip_extraction_when_destination_already_cached() {
    let f = facts(ALL, Ok(Some("sha256:x")), "sha256:x", manifest("sample-agent", "1.0.0", &[]));
    let (taken, last) = drive_local(f, true, manifest("sample-agent", "1.0.0", &[]));
    assert!(!taken.iter().any(|a| matches!(a, RunAction::Extract { .. } | RunAction::Download { .. })));
    match last {
        RunAction::Done(Ok(p)) => {
            assert!(p.from_cache);
            assert_eq!(p.package_dir, "/h/packages/local/sample-agent/1.0.0");
        }
        other => panic!("got: {other:?}"),
    }
}

#[test]
fn archive_with_traversal_entry_is_rejected_and_nothing_is_extracted() {
    let f = facts(
        &["harbor.lock", "harbor.toml", "src/main.py", "../evil.txt"],
        Ok(Some("sha256:x")),
        "sha256:x",
        manifest("sample-agent", "1.0.0", &[]),
    );
    let (taken, last) = drive_local(f, false, manifest("sample-agent", "1.0.0", &[]));
    assert!(!taken.iter().any(|a| matches!(a, RunAction::Extract { .. })));
    assert!(matches!(last, RunAction::Done(Err(RunError::Extract(_)))), "got: {last:?}");
    assert_eq!(
        last,
        RunAction::Done(Err(RunError::Extract(ExtractError::UnsafePath { path: "../evil.txt".to_string() })))
    );
}

#[test]
fn registry_run_checks_the_cache_before_downloading() {
    let home = HarborHome::at("/h");
    let state = run_start(RunSource::Registry {
        owner: "o".to_string(),
        name: "n".to_string(),
        version: "1.0.0".to_string(),
    });
    let (state, action) = run_step(&home, state, RunEvent::Begin);
    assert_eq!(action, RunAction::ProbeFile { path: "/h/packages/registry/o/n/1.0.0/harbor.toml".to_string() });
    let (cached, action) = run_step(&home, state, RunEvent::Probed(Ok(true)));
    assert_eq!(action, RunAction::ReadDirectory { dir: "/h/packages/registry/o/n/1.0.0".to_string() });
    assert_eq!(cached, RunState::Reading { dir: "/h/packages/registry/o/n/1.0.0".to_string(), from_cache: true });

    let state = run_start(RunSource::Registry {
        owner: "o".to_string(),
        name: "n".to_string(),
        version: "1.0.0".to_string(),
    });
    let (state, _) = run_step(&home, state, RunEvent::Begin);
    let (state, action) = run_step(&home, state, RunEvent::Probed(Ok(false)));
    assert_eq!(
        action,
        RunAction::Download { owner: "o".to_string(), name: "n".to_string(), version: "1.0.0".to_string() }
    );
    let (_, action) = run_step(&home, state, RunEvent::Downloaded(Err("timeout".to_string())));
    assert_eq!(action, RunAction::Abort("failed to download o/n v1.0.0: timeout".to_string()));
}

#[test]
fn checksum_mismatch_aborts_before_extraction() {
    let home = HarborHome::at("/h");
    let f = facts(ALL, Ok(Some("sha256:expected")), "sha256:actual", manifest("sample-agent", "1.0.0", &[]));
    match run_local_archive("a.harbor", f, &home).unwrap_err() {
        RunError::ChecksumMismatch { expected, actual } => {
            assert_eq!(expected, "sha256:expected");
            assert_eq!(actual, "sha256:actual");
        }
        other => panic!("got: {other:?}"),
    }
}

#[test]
fn missing_lockfile_is_a_clear_error() {
    let f = facts(&["harbor.toml"], Ok(Some("c")), "c", manifest("a", "1.0.0", &[]));
    let err = verify_archive("pkg.harbor", f).unwrap_err();
    assert_eq!(err, RunError::MissingLockfile { path: "pkg.harbor".to_string() });
}

#[test]
fn missing_package_checksum_is_a_clear_error() {
    let f = facts(ALL, Ok(None), "c", manifest("a", "1.0.0", &[]));
    assert_eq!(verify_archive("pkg.harbor", f).unwrap_err(), RunError::MissingPackageChecksum);
}

#[test]
fn malformed_lockfile_is_a_clear_error() {
    let f = facts(ALL, Err("bad toml"), "c", manifest("a", "1.0.0", &[]));
    assert_eq!(verify_archive("pkg.harbor", f).unwrap_err(), RunError::LockfileParse("bad toml".to_string()));
}

#[test]
fn missing_manifest_is_a_clear_error() {
    let f = facts(&["harbor.lock"], Ok(Some("c")), "c", manifest("a", "1.0.0", &[]));
    assert_eq!(
        verify_archive("pkg.harbor", f).unwrap_err(),
        RunError::MissingManifest { path: "pkg.harbor".to_string() }
    );
}

#[test]
fn manifest_name_path_traversal_is_rejected_before_any_extraction() {
    let f = facts(ALL, Ok(Some("c")), "c", manifest("../../evil", "1.0.0", &[]));
    let (taken, last) = drive_local(f, false, manifest("../../evil", "1.0.0", &[]));
    assert!(matches!(last, RunAction::Done(Err(RunError::ManifestValidation(_)))), "got: {last:?}");
    assert!(!taken.iter().any(|a| matches!(a, RunAction::Extract { .. } | RunAction::ProbeNonEmpty { .. })));
}

#[test]
fn manifest_version_path_traversal_is_rejected_before_any_extraction() {
    let f = facts(ALL, Ok(Some("c")), "c", manifest("evil-version-agent", "../../evil", &[]));
    let (taken, last) = drive_local(f, false, manifest("evil-version-agent", "../../evil", &[]));
    assert!(matches!(last, RunAction::Done(Err(RunError::ManifestValidation(_)))), "got: {last:?}");
    assert!(!taken.iter().any(|a| matches!(a, RunAction::Extract { .. } | RunAction::ProbeNonEmpty { .. })));
}

#[test]
fn caller_validation_failure_is_reported_as_is() {
    let home = HarborHome::at("/h");
    let mut f = facts(ALL, Ok(Some("c")), "c", manifest("sample-agent", "1.0.0", &[]));
    f.validation = Err("missing description".to_string());
    assert_eq!(
        run_local_archive("a.harbor", f, &home).unwrap_err(),
        RunError::ManifestValidation("missing description".to_string())
    );
}

#[test]
fn absolute_component_destination_is_refused() {
    let home = HarborHome::at("/h");
    match local_destination(&home, "/etc", "1.0.0").unwrap_err() {
        RunError::UnsafeDestination { dest, packages_root } => {
            assert_eq!(dest, "/etc/1.0.0");
            assert_eq!(packages_root, "/h/packages");
        }
        other => panic!("got: {other:?}"),
    }
    assert_eq!(local_destination(&home, "a", "1.0.0").unwrap(), "/h/packages/local/a/1.0.0");
}

#[test]
fn registry_archive_uses_the_registry_namespace() {
    let home = HarborHome::at("/h");
    let f = facts(ALL, Ok(Some("c")), "c", manifest("other-name", "2.0.0", &[]));
    let (_, dest) = run_registry_archive("a.harbor", "owner", "pkg", f, &home).unwrap();
    assert_eq!(dest, "/h/packages/registry/owner/pkg/2.0.0");
    assert_eq!(
        registry_destination(&home, "owner", "pkg", "2.0.0").unwrap(),
        "/h/packages/registry/owner/pkg/2.0.0"
    );
}

#[test]
fn run_fails_when_current_os_is_not_in_the_declared_list() {
    let ex = ExtractedFacts { read: Ok(()), manifest: Ok(manifest("a", "1.0.0", &["windows"])), validation: Ok(vec![]) };
    match validate_extracted("/p", ex, "linux").unwrap_err() {
        RunError::UnsupportedOs { current, declared } => {
            assert_eq!(current, "linux");
            assert_eq!(declared, vec!["windows".to_string()]);
        }
        other => panic!("got: {other:?}"),
    }
}

#[test]
fn run_succeeds_when_current_os_is_in_the_declared_list() {
    let ex = ExtractedFacts { read: Ok(()), manifest: Ok(manifest("os-ok-agent", "1.0.0", &["linux", "macos"])), validation: Ok(vec![]) };
    let (m, _) = validate_extracted("/p", ex, "macos").unwrap();
    assert_eq!(m.name, "os-ok-agent");
}

#[test]
fn validate_extracted_rejects_missing_harbor_toml() {
    let ex = ExtractedFacts { read: Err("not found".to_string()), manifest: Err("unused".to_string()), validation: Ok(vec![]) };
    assert_eq!(
        validate_extracted("/p", ex, "linux").unwrap_err(),
        RunError::Io { path: "/p/harbor.toml".to_string(), message: "not found".to_string() }
    );
}

#[test]
fn validate_extracted_surfaces_manifest_validation_errors() {
    let ex = ExtractedFacts { read: Ok(()), manifest: Ok(manifest("a", "1.0.0", &[])), validation: Err("bad".to_string()) };
    assert_eq!(validate_extracted("/p", ex, "linux").unwrap_err(), RunError::ManifestValidation("bad".to_string()));
}

#[test]
fn environment_paths_follow_the_origin() {
    let home = HarborHome::at("/h");
    assert_eq!(
        environment_paths(&home, &PackageOrigin::Local { name: "a".to_string() }, "1.0.0"),
        ("/h/envs/local/a/1.0.0".to_string(), "/h/permissions/local/a/1.0.0.toml".to_string())
    );
    assert_eq!(
        environment_paths(&home, &PackageOrigin::Registry { owner: "o".to_string(), name: "n".to_string() }, "2.0.0"),
        ("/h/envs/registry/o/n/2.0.0".to_string(), "/h/permissions/registry/o/n/2.0.0.toml".to_string())
    );
    let gh = PackageOrigin::Github { owner: "o".to_string(), repo: "r".to_string(), sha: "abc".to_string() };
    assert_eq!(
        environment_paths(&home, &gh, "ignored"),
        ("/h/envs/github/o/r/abc".to_string(), "/h/permissions/github/o/r/abc.toml".to_string())
    );
}

#[test]
fn installed_line_and_short_sha() {
    let m = manifest("a", "1.0.0", &[]);
    assert_eq!(
        installed_line(&m, "a", "1.0.0", "/p", "/e", "/b"),
        "HARBOR_INSTALLED|a|1.0.0|agent|python|/p|/e|/b"
    );
    assert_eq!(short_sha("0123456789abcdef"), "0123456");
    assert_eq!(short_sha("abc"), "abc");
}

#[test]
fn run_errors_describe_themselves() {
    assert_eq!(
        RunError::UnsupportedOs { current: "linux".to_string(), declared: vec!["macos".to_string(), "windows".to_string()] }
            .message(),
        "this package only supports [\"macos\", \"windows\"], but the current operating system is \"linux\"; cannot run here"
    );
    assert_eq!(
        RunError::InvalidTarget { target: "x".to_string() }.message(),
        "unrecognized run target \"x\": expected a registry reference (owner/name), a GitHub URL, or a local .harbor path"
    );
    assert!(RunError::ChecksumMismatch { expected: "e".to_string(), actual: "a".to_string() }
        .message()
        .starts_with("checksum mismatch: recomputed package-checksum (a) does not match"));
    assert_eq!(
        RunError::DependencyInstall(harbor_core::run::runtime::RuntimeError::Process("boom".to_string())).message(),
        "failed to install dependencies: Process execution failed: boom"
    );
}

#[test]
fn entry_preallocation_is_capped() {
    assert_eq!(prealloc_cap(10), 10);
    assert_eq!(prealloc_cap(u64::MAX), 16 * 1024 * 1024);
}
