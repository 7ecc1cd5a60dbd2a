use harbor_core::run::runtime::{node_runtime_step, NodeAction, NodeEvent};
use harbor_core::cache::HarborHome;
use harbor_core::manifest::{Dependencies, Language, Manifest, PackageType};
use harbor_core::run::runtime::{
    check_node_constraint, check_node_integrity, env_sentinel_path, find_shasum, get_runtime_manager,
    node_archive_name, node_bin_dir, node_dist_url, node_platform, node_stage_dir, npm_install_command,
    select_node_version, NodeRuntimeManager, PythonRuntimeManager, RuntimeError, RuntimeManager, RuntimeManagerKind,
};
use harbor_core::run::{environment_outcome, prepare_environment, EnvAction, EnvEvent, PreparedEnvironment, RunError};

/// Runs the preparation steps against `manager` until they are done.
fn drive<M: RuntimeManager>(
    manager: &M,
    package_dir: &str,
    m: &Manifest,
    home: &HarborHome,
    env_dir: &str,
    env_ready: bool,
) -> Result<PreparedEnvironment, RunError> {
    let mut event = EnvEvent::Begin;
    loop {
        match prepare_environment(package_dir, m, env_dir, env_ready, event) {
            EnvAction::EnsureRuntime { constraint } => {
                event = EnvEvent::RuntimeReported(manager.ensure_runtime(home, &constraint));
            }
            EnvAction::Install { package_dir, env_dir, bin_dir } => {
                let outcome = manager.install_dependencies(home, &package_dir, &env_dir, m, &bin_dir);
                event = EnvEvent::InstallReported { bin_dir, outcome };
            }
            EnvAction::Done(r) => return r,
        }
    }
}

struct MockRustRuntimeManager;

impl RuntimeManager for MockRustRuntimeManager {
    fn ensure_runtime(&self, _home: &HarborHome, _constraint: &str) -> Result<String, RuntimeError> {
        Ok("/mock/rust/bin".to_string())
    }

    fn install_dependencies(
        &self,
        _home: &HarborHome,
        _package_dir: &str,
        _env_dir: &str,
        _manifest: &Manifest,
        _bin_dir: &str,
    ) -> Result<(), RuntimeError> {
        Ok(())
    }
}

struct Failing;
impl RuntimeManager for Failing {
    fn ensure_runtime(&self, _h: &HarborHome, _c: &str) -> Result<String, RuntimeError> {
        Ok("/bin".to_string())
    }
    fn install_dependencies(
        &self,
        _h: &HarborHome,
        _p: &str,
        _e: &str,
        _m: &Manifest,
        _b: &str,
    ) -> Result<(), RuntimeError> {
        Err(RuntimeError::Process("boom".to_string()))
    }
}

fn manifest(lockfile: Option<&str>, deps: &str) -> Manifest {
    Manifest {
        name: "pkg".to_string(),
        version: "1.0.0".to_string(),
        description: "d".to_string(),
        package_type: PackageType::Agent,
        language: Language::Python,
        runtime: ">=3.11".to_string(),
        entrypoint: "main.py".to_string(),
        license: "MIT".to_string(),
        permissions: vec![],
        features: vec![],
        os: vec![],
        commands: vec![],
        dependencies: Dependencies { manifest: deps.to_string(), lockfile: lockfile.map(|s| s.to_string()) },
    }
}

#[test]
fn test_extensible_dispatch_with_mock_manager() {
    let home = HarborHome::at("/tmp/mock-home");
    let manager: Box<dyn RuntimeManager> = Box::new(MockRustRuntimeManager);
    let bin_path = manager.ensure_runtime(&home, ">=1.75.0").unwrap();
    assert_eq!(bin_path, "/mock/rust/bin");
}

#[test]
fn test_node_constraint_validation() {
    let mgr = NodeRuntimeManager;
    assert!(mgr.validate_constraint_syntax(">=18").is_ok());
    assert!(mgr.validate_constraint_syntax("^20.11").is_ok());

    assert!(mgr.validate_constraint_syntax("16 || 18").is_err());
    assert!(mgr.validate_constraint_syntax("16.0.0 - 18.0.0").is_err());
    assert!(mgr.validate_constraint_syntax(">=16 <20").is_err());
    assert!(mgr.validate_constraint_syntax("18.x").is_err());
}

#[test]
fn test_node_version_matching() {
    let mgr = NodeRuntimeManager;
    let list = vec!["v16.0.0".to_string(), "v18.5.0".to_string(), "v20.11.1".to_string()];
    let matched = mgr.match_version(">=18", &list);
    assert_eq!(matched, Some("v20.11.1".to_string()));

    let matched_precise = mgr.match_version("^18.20.0", &list);
    assert_eq!(matched_precise, None);
}

#[test]
fn dispatch_by_language() {
    assert_eq!(get_runtime_manager(Language::Python), RuntimeManagerKind::Python);
    assert_eq!(get_runtime_manager(Language::Node), RuntimeManagerKind::Node);
}

#[test]
fn prepare_environment_skips_install_when_the_sentinel_exists() {
    let home = HarborHome::at("/h");
    let m = manifest(None, "pyproject.toml");
    let ok = drive(&Failing, "/p", &m, &home, "/env", true).unwrap();
    assert_eq!(ok.env_dir, "/env");
    assert_eq!(ok.bin_dir, "/bin");
    let err = drive(&Failing, "/p", &m, &home, "/env", false).unwrap_err();
    assert_eq!(err, RunError::DependencyInstall(RuntimeError::Process("boom".to_string())));
}

#[test]
fn python_install_plan_uses_uv() {
    let m = manifest(Some("uv.lock"), "pyproject.toml");
    let cmds = PythonRuntimeManager::install_commands("/pkg", "/env", &m, "/rt/bin", true);
    assert_eq!(cmds[0].program, "/rt/bin/uv");
    assert_eq!(cmds[0].args, vec!["venv", "/env", "--python", ">=3.11"]);
    assert_eq!(cmds[1].args, vec!["sync", "--frozen"]);
    assert_eq!(cmds[1].cwd, Some("/pkg".to_string()));
    assert_eq!(cmds[1].env, vec![("UV_PROJECT_ENVIRONMENT".to_string(), "/env".to_string())]);

    let m2 = manifest(None, "requirements.txt");
    let cmds2 = PythonRuntimeManager::install_commands("/pkg", "/env", &m2, "/rt/bin", false);
    assert_eq!(cmds2[1].args, vec!["pip", "install", "--python", "/env/bin/python", "-r", "/pkg/requirements.txt"]);
    assert_eq!(env_sentinel_path("/env"), "/env/harbor-env.ok");
}

#[test]
fn node_artifact_names_and_urls() {
    assert_eq!(node_platform("linux", "x86_64").unwrap(), ("linux".to_string(), "x64".to_string()));
    assert_eq!(node_platform("macos", "aarch64").unwrap(), ("darwin".to_string(), "arm64".to_string()));
    assert_eq!(
        node_platform("windows", "x86_64").unwrap_err(),
        RuntimeError::Validation("Unsupported OS for Node.js auto-installation".to_string())
    );
    assert_eq!(
        node_platform("linux", "riscv64").unwrap_err(),
        RuntimeError::Validation("Unsupported architecture for Node.js auto-installation".to_string())
    );
    let name = node_archive_name("v20.11.1", "linux", "x64");
    assert_eq!(name, "node-v20.11.1-linux-x64.tar.gz");
    assert_eq!(node_dist_url("v20.11.1", &name), "https://nodejs.org/dist/v20.11.1/node-v20.11.1-linux-x64.tar.gz");
    assert_eq!(node_bin_dir(&HarborHome::at("/h"), "v20.11.1"), "/h/runtimes/node/v20.11.1/bin");
    assert_eq!(node_stage_dir(&HarborHome::at("/h"), "pkg", 42), "/h/tmp/node-stage-pkg-42");
}

#[test]
fn shasums_lookup_and_integrity() {
    let sums = "aaa  node-v1-linux-x64.tar.xz\nbbb  node-v1-linux-x64.tar.gz\r\nccc  other\n";
    assert_eq!(find_shasum(sums, "node-v1-linux-x64.tar.gz"), Some("bbb".to_string()));
    assert_eq!(find_shasum(sums, "missing"), None);
    assert!(check_node_integrity(sums, "node-v1-linux-x64.tar.gz", "bbb").is_ok());
    assert_eq!(
        check_node_integrity(sums, "node-v1-linux-x64.tar.gz", "zzz").unwrap_err(),
        RuntimeError::IntegrityMismatch
    );
}

#[test]
fn node_constraint_and_release_selection() {
    assert!(check_node_constraint(">=18").is_ok());
    assert!(matches!(check_node_constraint("18.x"), Err(RuntimeError::UnsupportedConstraintSyntax { .. })));
    assert!(matches!(check_node_constraint(">=abc"), Err(RuntimeError::InvalidConstraint { .. })));
    assert_eq!(select_node_version(">=18", None).unwrap(), "v22.2.0");
    assert_eq!(select_node_version("^18", None).unwrap(), "v18.20.0");
    assert_eq!(
        select_node_version(">=30", Some(vec!["v20.0.0".to_string()])).unwrap_err(),
        RuntimeError::NoSatisfyingVersion { constraint: ">=30".to_string() }
    );
}

#[test]
fn npm_command_prepends_bin_dir_to_path() {
    let c = npm_install_command("/stage", "/nb", true, Some("/usr/bin:/bin".to_string())).unwrap();
    assert_eq!(c.program, "/nb/npm");
    assert_eq!(c.args, vec!["ci"]);
    assert_eq!(c.cwd, Some("/stage".to_string()));
    assert_eq!(c.env, vec![("PATH".to_string(), "/nb:/usr/bin:/bin".to_string())]);
    let c2 = npm_install_command("/stage", "/nb", false, None).unwrap();
    assert_eq!(c2.args, vec!["install"]);
    assert_eq!(c2.env, vec![("PATH".to_string(), "/nb".to_string())]);
    assert_eq!(
        npm_install_command("/stage", "/a:b", false, Some("/bin".to_string())).unwrap_err(),
        RuntimeError::Process("Failed to build PATH: path segment contains separator `:`".to_string())
    );
}

#[test]
fn environment_outcome_per_report() {
    assert_eq!(
        environment_outcome("/env".to_string(), Ok("/bin".to_string()), None).unwrap(),
        PreparedEnvironment { env_dir: "/env".to_string(), bin_dir: "/bin".to_string() }
    );
    assert_eq!(
        environment_outcome("/env".to_string(), Err(RuntimeError::IntegrityMismatch), None).unwrap_err(),
        RunError::RuntimeProvision(RuntimeError::IntegrityMismatch)
    );
    assert_eq!(
        environment_outcome("/env".to_string(), Ok("/bin".to_string()), Some(Err(RuntimeError::Io("x".to_string()))))
            .unwrap_err(),
        RunError::DependencyInstall(RuntimeError::Io("x".to_string()))
    );
}

#[test]
fn environment_steps_ask_for_the_manifest_runtime_then_install() {
    let m = manifest(None, "pyproject.toml");
    assert_eq!(
        prepare_environment("/p", &m, "/env", false, EnvEvent::Begin),
        EnvAction::EnsureRuntime { constraint: m.runtime.clone() }
    );
    assert_eq!(
        prepare_environment("/p", &m, "/env", false, EnvEvent::RuntimeReported(Ok("/rt/bin".to_string()))),
        EnvAction::Install { package_dir: "/p".to_string(), env_dir: "/env".to_string(), bin_dir: "/rt/bin".to_string() }
    );
    assert_eq!(
        prepare_environment("/p", &m, "/env", false, EnvEvent::RuntimeReported(Err(RuntimeError::IntegrityMismatch))),
        EnvAction::Done(Err(RunError::RuntimeProvision(RuntimeError::IntegrityMismatch)))
    );
    assert_eq!(
        prepare_environment(
            "/p",
            &m,
            "/env",
            false,
            EnvEvent::InstallReported { bin_dir: "/rt/bin".to_string(), outcome: Ok(()) }
        ),
        EnvAction::Done(Ok(PreparedEnvironment { env_dir: "/env".to_string(), bin_dir: "/rt/bin".to_string() }))
    );
}

#[test]
fn node_runtime_is_looked_for_in_order() {
    let home = HarborHome::at("/h");
    assert_eq!(node_runtime_step(&home, ">=18", NodeEvent::Begin), NodeAction::FindSystem);
    assert!(matches!(node_runtime_step(&home, ">=16 <20", NodeEvent::Begin), NodeAction::Done(Err(_))));
    assert_eq!(
        node_runtime_step(&home, ">=18", NodeEvent::SystemFound(Some("/usr/bin".to_string()))),
        NodeAction::Done(Ok("/usr/bin".to_string()))
    );
    assert_eq!(node_runtime_step(&home, ">=18", NodeEvent::SystemFound(None)), NodeAction::FindCached);
    assert_eq!(node_runtime_step(&home, ">=18", NodeEvent::CacheFound(None)), NodeAction::FetchReleases);
    assert_eq!(
        node_runtime_step(&home, ">=18", NodeEvent::Releases(None)),
        NodeAction::CheckBinary { version: "v22.2.0".to_string(), bin_dir: "/h/runtimes/node/v22.2.0/bin".to_string() }
    );
    assert_eq!(
        node_runtime_step(&home, ">=30", NodeEvent::Releases(None)),
        NodeAction::Done(Err(RuntimeError::NoSatisfyingVersion { constraint: ">=30".to_string() }))
    );
    assert_eq!(
        node_runtime_step(&home, ">=18", NodeEvent::BinaryPresent { version: "v22.2.0".to_string(), present: false }),
        NodeAction::Download { version: "v22.2.0".to_string() }
    );
    assert_eq!(
        node_runtime_step(&home, ">=18", NodeEvent::BinaryPresent { version: "v22.2.0".to_string(), present: true }),
        NodeAction::Done(Ok("/h/runtimes/node/v22.2.0/bin".to_string()))
    );
}
