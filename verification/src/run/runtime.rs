//! Language runtime managers: constraint syntax, version matching and the
//! install plans for Python (uv) and Node (npm) environments.

use vstd::prelude::*;

use crate::cache::{join_path, path_join, HarborHome};
use crate::manifest::{Language, Manifest};
use crate::text::{
    after_line, after_line_chars, any_whitespace, chars_eq, first_line, first_line_chars,
    decimal, decimal_of, extend_chars, lemma_after_line_shorter, split_word, word0, word1, chars_eq_str, chars_of, contains_char, contains_str, extend_str, has_char,
    has_substr, is_ws, owned, slice_chars, str_eq, string_of, trim, trim_chars,
};

verus! {

/// Errors while provisioning a runtime or installing dependencies.
#[derive(Debug, Clone, PartialEq, Eq)]
pub enum RuntimeError {
    Io(String),
    Network(String),
    InvalidConstraint { constraint: String, err: String },
    UnsupportedConstraintSyntax { constraint: String, reason: String },
    NoSatisfyingVersion { constraint: String },
    IntegrityMismatch,
    Process(String),
    Validation(String),
}

/// Why a Node constraint's syntax is unsupported, if it is.
pub open spec fn constraint_syntax_problem(constraint: Seq<char>) -> Option<Seq<char>> {
    let c = trim(constraint);
    if has_substr(c, "||"@) {
        Some("logical OR operator (||) is not supported"@)
    } else if has_substr(c, " - "@) {
        Some("hyphen ranges are not supported"@)
    } else if exists|i: int| 0 <= i < c.len() && is_ws(#[trigger] c[i]) {
        // `c` is trimmed, so an inner whitespace splits it into several words.
        Some(
            "space-separated multi-ranges or spaces between operator and version are not supported"@,
        )
    } else if has_substr(c, ".x"@) || has_substr(c, ".X"@) || has_char(c, '*') || c == "x"@ || c
        == "X"@ {
        Some("wildcard range syntax (.x, .X or *) is not supported"@)
    } else {
        None
    }
}

/// The constraint uses only supported npm range syntax.
pub open spec fn constraint_syntax_ok(constraint: Seq<char>) -> bool {
    constraint_syntax_problem(constraint) is None
}

/// Rejects npm range syntax the Node manager does not support: `||`,
/// hyphen ranges, space-separated ranges and wildcards.
pub fn check_constraint_syntax(constraint: &str) -> (res: Result<(), RuntimeError>)
    ensures
        res is Ok <==> constraint_syntax_ok(constraint@),
        res matches Err(e) ==> e matches RuntimeError::UnsupportedConstraintSyntax { constraint: c, reason }
            && c@ == constraint@ && constraint_syntax_problem(constraint@) == Some(reason@),
{
    let raw = chars_of(constraint);
    let c = trim_chars(raw.as_slice());
    let reason = if contains_str(c.as_slice(), "||") {
        "logical OR operator (||) is not supported"
    } else if contains_str(c.as_slice(), " - ") {
        "hyphen ranges are not supported"
    } else if any_whitespace(c.as_slice()) {
        "space-separated multi-ranges or spaces between operator and version are not supported"
    } else if contains_str(c.as_slice(), ".x") || contains_str(c.as_slice(), ".X") || contains_char(
        c.as_slice(),
        '*',
    ) || chars_eq_str(c.as_slice(), "x") || chars_eq_str(c.as_slice(), "X") {
        "wildcard range syntax (.x, .X or *) is not supported"
    } else {
        return Ok(());
    };
    Err(RuntimeError::UnsupportedConstraintSyntax { constraint: owned(constraint), reason: owned(reason) })
}


/// A language runtime manager: provisions a runtime matching a constraint
/// and installs a package's dependencies into an environment. Implemented
/// by callers (the Python and Node managers run processes and touch the
/// file system, so their implementations live with the caller).
pub trait RuntimeManager {
    /// Ensures a matching runtime exists and returns its bin directory.
    fn ensure_runtime(&self, home: &HarborHome, constraint: &str) -> Result<String, RuntimeError>;

    /// Creates the environment and installs the package's dependencies.
    fn install_dependencies(
        &self,
        home: &HarborHome,
        package_dir: &str,
        env_dir: &str,
        manifest: &Manifest,
        bin_dir: &str,
    ) -> Result<(), RuntimeError>;
}

/// The runtime managers this library knows.
#[derive(Debug, Clone, Copy, PartialEq, Eq)]
pub enum RuntimeManagerKind {
    Python,
    Node,
}

/// The runtime manager for a declared language.
pub fn get_runtime_manager(language: Language) -> (res: RuntimeManagerKind)
    ensures
        language == Language::Python ==> res == RuntimeManagerKind::Python,
        language == Language::Node ==> res == RuntimeManagerKind::Node,
{
    match language {
        Language::Python => RuntimeManagerKind::Python,
        Language::Node => RuntimeManagerKind::Node,
    }
}

/// The file whose presence marks a completed environment.
pub open spec fn sentinel_name() -> Seq<char> {
    "harbor-env.ok"@
}

/// `<env_dir>/harbor-env.ok`.
pub fn env_sentinel_path(env_dir: &str) -> (res: String)
    ensures
        res@ == path_join(env_dir@, sentinel_name()),
{
    let e = chars_of(env_dir);
    string_of(join_path(e.as_slice(), "harbor-env.ok").as_slice())
}

/// A process to run: program, arguments, working directory, extra
/// environment variables, and a progress line to print first.
#[derive(Debug, Clone, PartialEq, Eq)]
pub struct CommandSpec {
    pub program: String,
    pub args: Vec<String>,
    pub cwd: Option<String>,
    pub env: Vec<(String, String)>,
    pub message: String,
}

/// Python runtime manager (uv-based).
#[derive(Debug, Clone, Copy, PartialEq, Eq)]
pub struct PythonRuntimeManager;

/// Texts of a vector of strings.
pub open spec fn texts(v: Seq<String>) -> Seq<Seq<char>> {
    v.map_values(|s: String| s@)
}

fn vec_of(items: &[&str]) -> (res: Vec<String>)
    ensures
        res@.len() == items@.len(),
        forall|i: int| 0 <= i < items@.len() ==> #[trigger] res@[i]@ == items@[i]@,
{
    let mut v: Vec<String> = Vec::new();
    for i in 0..items.len()
        invariant
            v@.len() == i,
            forall|j: int| 0 <= j < i ==> #[trigger] v@[j]@ == items@[j]@,
    {
        v.push(owned(items[i]));
    }
    v
}

impl PythonRuntimeManager {
    /// `<runtimes>/bin/uv`, the manager-installed `uv`.
    pub fn local_uv_path(home: &HarborHome) -> (res: String)
        ensures
            res@ == path_join(path_join(path_join(home@, "runtimes"@), "bin"@), "uv"@),
    {
        let r = chars_of(home.runtimes().as_str());
        let b = join_path(r.as_slice(), "bin");
        string_of(join_path(b.as_slice(), "uv").as_slice())
    }

    /// Which `uv` to use: the manager-installed one when it runs, else the
    /// one found on `PATH`, if any.
    pub fn find_uv(home: &HarborHome, local_uv_runs: bool, uv_on_path: Option<String>) -> (res: Option<String>)
        ensures
            local_uv_runs ==> (res matches Some(p) && p@ == path_join(
                path_join(path_join(home@, "runtimes"@), "bin"@),
                "uv"@,
            )),
            !local_uv_runs ==> res == uv_on_path,
    {
        if local_uv_runs {
            Some(Self::local_uv_path(home))
        } else {
            uv_on_path
        }
    }

    /// The commands that build a Python environment at `env_dir`: first
    /// `uv venv <env_dir> --python <runtime>`; then, when the manifest
    /// declares a lockfile that exists (`lockfile_present`), `uv sync
    /// --frozen` run in the package with `UV_PROJECT_ENVIRONMENT` set; else
    /// `uv pip install` of the package itself (for `pyproject.toml`) or of
    /// `-r <manifest>`.
    pub fn install_commands(
        package_dir: &str,
        env_dir: &str,
        manifest: &Manifest,
        bin_dir: &str,
        lockfile_present: bool,
    ) -> (res: Vec<CommandSpec>)
        ensures
            res@.len() == 2,
            res@[0].program@ == path_join(bin_dir@, "uv"@),
            texts(res@[0].args@) == seq!["venv"@, env_dir@, "--python"@, manifest.runtime@],
            res@[0].cwd is None,
            res@[0].env@.len() == 0,
            res@[1].program@ == path_join(bin_dir@, "uv"@),
            manifest.dependencies.lockfile is Some && lockfile_present ==> {
                &&& texts(res@[1].args@) == seq!["sync"@, "--frozen"@]
                &&& res@[1].cwd matches Some(c) && c@ == package_dir@
                &&& res@[1].env@.len() == 1
                &&& res@[1].env@[0].0@ == "UV_PROJECT_ENVIRONMENT"@
                &&& res@[1].env@[0].1@ == env_dir@
            },
            !(manifest.dependencies.lockfile is Some && lockfile_present) ==> {
                &&& res@[1].cwd is None
                &&& res@[1].env@.len() == 0
                &&& if manifest.dependencies.manifest@ == "pyproject.toml"@ {
                    texts(res@[1].args@) == seq![
                        "pip"@,
                        "install"@,
                        "--python"@,
                        path_join(path_join(env_dir@, "bin"@), "python"@),
                        package_dir@,
                    ]
                } else {
                    texts(res@[1].args@) == seq![
                        "pip"@,
                        "install"@,
                        "--python"@,
                        path_join(path_join(env_dir@, "bin"@), "python"@),
                        "-r"@,
                        path_join(package_dir@, manifest.dependencies.manifest@),
                    ]
                }
            },
    {
        let bd = chars_of(bin_dir);
        let uv = string_of(join_path(bd.as_slice(), "uv").as_slice());
        let mut cmds: Vec<CommandSpec> = Vec::new();
        let mut m1 = chars_of("Creating Python virtual environment in ");
        extend_str(&mut m1, env_dir);
        extend_str(&mut m1, "...");
        let venv_args = vec_of(&[ "venv", env_dir, "--python", manifest.runtime.as_str()]);
        assert(texts(venv_args@) =~= seq!["venv"@, env_dir@, "--python"@, manifest.runtime@]);
        cmds.push(CommandSpec {
            program: uv.clone(),
            args: venv_args,
            cwd: None,
            env: Vec::new(),
            message: string_of(m1.as_slice()),
        });
        let ed = chars_of(env_dir);
        let eb = join_path(ed.as_slice(), "bin");
        let python = string_of(join_path(eb.as_slice(), "python").as_slice());
        let use_lock = match &manifest.dependencies.lockfile {
            Some(_) => lockfile_present,
            None => false,
        };
        if use_lock {
            let mut m2 = chars_of("Syncing dependencies from lockfile: ");
            match &manifest.dependencies.lockfile {
                Some(l) => extend_str(&mut m2, l.as_str()),
                None => {},
            }
            extend_str(&mut m2, "...");
            let args = vec_of(&["sync", "--frozen"]);
            assert(texts(args@) =~= seq!["sync"@, "--frozen"@]);
            let mut env: Vec<(String, String)> = Vec::new();
            env.push((owned("UV_PROJECT_ENVIRONMENT"), owned(env_dir)));
            cmds.push(CommandSpec {
                program: uv,
                args,
                cwd: Some(owned(package_dir)),
                env,
                message: string_of(m2.as_slice()),
            });
        } else if str_eq(manifest.dependencies.manifest.as_str(), "pyproject.toml") {
            let args = vec_of(&["pip", "install", "--python", python.as_str(), package_dir]);
            assert(texts(args@) =~= seq![
                "pip"@,
                "install"@,
                "--python"@,
                path_join(path_join(env_dir@, "bin"@), "python"@),
                package_dir@,
            ]);
            cmds.push(CommandSpec {
                program: uv,
                args,
                cwd: None,
                env: Vec::new(),
                message: owned("Installing dependencies from pyproject.toml..."),
            });
        } else {
            let pd = chars_of(package_dir);
            let req = string_of(
                join_path(pd.as_slice(), manifest.dependencies.manifest.as_str()).as_slice(),
            );
            let args = vec_of(&["pip", "install", "--python", python.as_str(), "-r", req.as_str()]);
            assert(texts(args@) =~= seq![
                "pip"@,
                "install"@,
                "--python"@,
                path_join(path_join(env_dir@, "bin"@), "python"@),
                "-r"@,
                path_join(package_dir@, manifest.dependencies.manifest@),
            ]);
            let mut m3 = chars_of("Installing dependencies from ");
            extend_str(&mut m3, manifest.dependencies.manifest.as_str());
            extend_str(&mut m3, "...");
            cmds.push(CommandSpec {
                program: uv,
                args,
                cwd: None,
                env: Vec::new(),
                message: string_of(m3.as_slice()),
            });
        }
        cmds
    }
}


/// Whether `version` (a SemVer version) satisfies `req` (a SemVer version
/// requirement), both parsed with the `semver` crate; false when either
/// does not parse.
pub uninterp spec fn spec_semver_matches(req: Seq<char>, version: Seq<char>) -> bool;

/// `semver::VersionReq::parse(req)` and `semver::Version::parse(version)`,
/// then `VersionReq::matches`; `false` when either text does not parse.
/// The answer is named, not spelled out.
#[verifier::external_body]
fn semver_matches(req: &str, version: &str) -> (res: bool)
    ensures
        res == spec_semver_matches(req@, version@),
{
    match (semver::VersionReq::parse(req), semver::Version::parse(version)) {
        (Ok(r), Ok(v)) => r.matches(&v),
        _ => false,
    }
}

/// Whether version `a` orders strictly before version `b` under
/// `semver::Version`'s `Ord`, both parsed with the `semver` crate; false
/// when either does not parse.
pub uninterp spec fn spec_semver_less(a: Seq<char>, b: Seq<char>) -> bool;

/// `semver::Version::parse` of both texts and `<` on the results (`false`
/// when either does not parse). The answer is named, not spelled out.
#[verifier::external_body]
fn semver_less(a: &str, b: &str) -> (res: bool)
    ensures
        res == spec_semver_less(a@, b@),
{
    match (semver::Version::parse(a), semver::Version::parse(b)) {
        (Ok(x), Ok(y)) => x < y,
        _ => false,
    }
}

/// What `semver::Version`'s `Display` prints for the version parsed from
/// `version` (empty when it does not parse).
pub uninterp spec fn spec_semver_display(version: Seq<char>) -> Seq<char>;

/// `semver::Version::parse(version)` rendered back with `Display` (empty
/// when the text does not parse).
#[verifier::external_body]
fn semver_display(version: &str) -> (res: String)
    ensures
        res@ == spec_semver_display(version@),
{
    match semver::Version::parse(version) {
        Ok(v) => v.to_string(),
        Err(_) => String::new(),
    }
}

/// The error text `semver::Version::parse` reports for `version`, or
/// nothing when it parses as a SemVer 2.0.0 version.
pub uninterp spec fn spec_semver_version_error(version: Seq<char>) -> Option<Seq<char>>;

/// `semver::Version::parse(version)`, keeping only the error's text.
#[verifier::external_body]
pub(crate) fn semver_version_error(version: &str) -> (res: Option<String>)
    ensures
        match res {
            Some(e) => spec_semver_version_error(version@) == Some(e@),
            None => spec_semver_version_error(version@) is None,
        },
{
    match semver::Version::parse(version) {
        Ok(_) => None,
        Err(e) => Some(e.to_string()),
    }
}

/// The error text `semver::VersionReq::parse` reports for `req`, or
/// nothing when it parses.
pub uninterp spec fn spec_semver_req_error(req: Seq<char>) -> Option<Seq<char>>;

/// `semver::VersionReq::parse(req)`, keeping only the error's text.
#[verifier::external_body]
fn semver_req_error(req: &str) -> (res: Option<String>)
    ensures
        match res {
            Some(e) => spec_semver_req_error(req@) == Some(e@),
            None => spec_semver_req_error(req@) is None,
        },
{
    match semver::VersionReq::parse(req) {
        Ok(_) => None,
        Err(e) => Some(e.to_string()),
    }
}

/// Number of leading `v` characters.
pub open spec fn lead_v(s: Seq<char>) -> nat
    decreases s.len(),
{
    if s.len() > 0 && s[0] == 'v' {
        1 + lead_v(s.drop_first())
    } else {
        0
    }
}

/// `s.trim_start_matches('v')`.
pub open spec fn strip_v(s: Seq<char>) -> Seq<char> {
    s.subrange(lead_v(s) as int, s.len() as int)
}

proof fn lemma_lead_v(s: Seq<char>, k: int)
    requires
        0 <= k <= s.len(),
        forall|j: int| 0 <= j < k ==> s[j] == 'v',
        k == s.len() || s[k] != 'v',
    ensures
        lead_v(s) == k,
    decreases k,
{
    if k > 0 {
        lemma_lead_v(s.drop_first(), k - 1);
    }
}

fn strip_v_exec(s: &str) -> (res: String)
    ensures
        res@ == strip_v(s@),
{
    let v = chars_of(s);
    let mut k: usize = 0;
    while k < v.len() && v[k] == 'v'
        invariant
            k <= v@.len(),
            forall|j: int| 0 <= j < k ==> v@[j] == 'v',
        decreases v.len() - k,
    {
        k = k + 1;
    }
    proof {
        lemma_lead_v(v@, k as int);
    }
    string_of(slice_chars(v.as_slice(), k, v.len()).as_slice())
}

/// Version `i` of `versions` (with leading `v`s removed) satisfies `req`.
pub open spec fn version_matched(req: Seq<char>, versions: Seq<String>, i: int) -> bool {
    spec_semver_matches(req, strip_v(versions[i]@))
}

/// Version `i` satisfies `req` and no satisfying version orders above it.
pub open spec fn version_maximal(req: Seq<char>, versions: Seq<String>, i: int) -> bool {
    &&& 0 <= i < versions.len()
    &&& version_matched(req, versions, i)
    &&& forall|j: int|
        0 <= j < versions.len() && version_matched(req, versions, j) ==> !spec_semver_less(
            strip_v(versions[i]@),
            strip_v(#[trigger] versions[j]@),
        )
}

/// The newest version in `versions` (texts like `v20.11.1`) satisfying the
/// requirement `req`, rendered as `v<version>`; none when nothing matches.
/// Texts that do not parse are ignored.
pub fn match_version(req: &str, versions: &[String]) -> (res: Option<String>)
    ensures
        res matches Some(s) ==> exists|i: int|
            version_maximal(req@, versions@, i) && s@ == "v"@ + spec_semver_display(
                strip_v(#[trigger] versions@[i]@),
            ),
        res is None ==> forall|i: int| !version_maximal(req@, versions@, i),
{
    let mut cleaned: Vec<String> = Vec::new();
    let mut ok: Vec<bool> = Vec::new();
    for i in 0..versions.len()
        invariant
            cleaned@.len() == i,
            ok@.len() == i,
            forall|j: int| 0 <= j < i ==> #[trigger] cleaned@[j]@ == strip_v(versions@[j]@),
            forall|j: int| 0 <= j < i ==> #[trigger] ok@[j] == version_matched(req@, versions@, j),
    {
        let c = strip_v_exec(versions[i].as_str());
        let m = semver_matches(req, c.as_str());
        cleaned.push(c);
        ok.push(m);
    }
    let n = versions.len();
    for i in 0..n
        invariant
            n == versions@.len(),
            cleaned@.len() == n,
            ok@.len() == n,
            forall|j: int| 0 <= j < n ==> #[trigger] cleaned@[j]@ == strip_v(versions@[j]@),
            forall|j: int| 0 <= j < n ==> #[trigger] ok@[j] == version_matched(req@, versions@, j),
            forall|k: int| 0 <= k < i ==> !version_maximal(req@, versions@, k),
    {
        if ok[i] {
            let mut top = true;
            let mut j: usize = 0;
            while j < n
                invariant
                    n == versions@.len(),
                    cleaned@.len() == n,
                    ok@.len() == n,
                    i < n,
                    j <= n,
                    forall|t: int| 0 <= t < n ==> #[trigger] cleaned@[t]@ == strip_v(versions@[t]@),
                    forall|t: int| 0 <= t < n ==> #[trigger] ok@[t] == version_matched(req@, versions@, t),
                    top == forall|t: int|
                        0 <= t < j && version_matched(req@, versions@, t) ==> !spec_semver_less(
                            strip_v(versions@[i as int]@),
                            strip_v(#[trigger] versions@[t]@),
                        ),
                decreases n - j,
            {
                if ok[j] && semver_less(cleaned[i].as_str(), cleaned[j].as_str()) {
                    top = false;
                }
                j = j + 1;
            }
            if top {
                assert(version_maximal(req@, versions@, i as int));
                let d = semver_display(cleaned[i].as_str());
                let mut out = chars_of("v");
                extend_str(&mut out, d.as_str());
                proof {
                    reveal_strlit("v");
                }
                return Some(string_of(out.as_slice()));
            }
        }
    }
    None
}

/// Node.js runtime manager (npm-based).
#[derive(Debug, Clone, Copy, PartialEq, Eq)]
pub struct NodeRuntimeManager;

impl NodeRuntimeManager {
    /// Rejects npm range syntax this manager does not support: `||`,
    /// hyphen ranges, space-separated ranges and wildcards.
    pub fn validate_constraint_syntax(&self, constraint: &str) -> (res: Result<(), RuntimeError>)
        ensures
            res is Ok <==> constraint_syntax_ok(constraint@),
            res matches Err(e) ==> e matches RuntimeError::UnsupportedConstraintSyntax { constraint: c, reason }
                && c@ == constraint@ && constraint_syntax_problem(constraint@) == Some(reason@),
    {
        check_constraint_syntax(constraint)
    }

    /// The newest of `versions` satisfying `req`; see [`match_version`].
    pub fn match_version(&self, req: &str, versions: &[String]) -> (res: Option<String>)
        ensures
            res matches Some(s) ==> exists|i: int|
                version_maximal(req@, versions@, i) && s@ == "v"@ + spec_semver_display(
                    strip_v(#[trigger] versions@[i]@),
                ),
            res is None ==> forall|i: int| !version_maximal(req@, versions@, i),
    {
        match_version(req, versions)
    }
}

/// The operating-system and architecture names of Node.js release
/// artifacts for a host whose `target_os` is `os` and `target_arch` is
/// `arch`: `darwin`/`linux` and `x64`/`arm64`; other hosts are refused.
pub fn node_platform(os: &str, arch: &str) -> (res: Result<(String, String), RuntimeError>)
    ensures
        (os@ != "macos"@ && os@ != "linux"@) ==> (res matches Err(RuntimeError::Validation(m))
            && m@ == "Unsupported OS for Node.js auto-installation"@),
        (os@ == "macos"@ || os@ == "linux"@) && arch@ != "x86_64"@ && arch@ != "aarch64"@ ==> (res matches Err(
            RuntimeError::Validation(m),
        ) && m@ == "Unsupported architecture for Node.js auto-installation"@),
        res matches Ok((o, a)) ==> (o@ == (if os@ == "macos"@ {
            "darwin"@
        } else {
            "linux"@
        })) && (a@ == (if arch@ == "x86_64"@ {
            "x64"@
        } else {
            "arm64"@
        })),
        (os@ == "macos"@ || os@ == "linux"@) && (arch@ == "x86_64"@ || arch@ == "aarch64"@) ==> res is Ok,
{
    let o = if str_eq(os, "macos") {
        "darwin"
    } else if str_eq(os, "linux") {
        "linux"
    } else {
        return Err(RuntimeError::Validation(owned("Unsupported OS for Node.js auto-installation")));
    };
    let a = if str_eq(arch, "x86_64") {
        "x64"
    } else if str_eq(arch, "aarch64") {
        "arm64"
    } else {
        return Err(RuntimeError::Validation(owned("Unsupported architecture for Node.js auto-installation")));
    };
    Ok((owned(o), owned(a)))
}

/// `node-<version>-<os>-<arch>.tar.gz`.
pub fn node_archive_name(version: &str, os: &str, arch: &str) -> (res: String)
    ensures
        res@ == "node-"@ + version@ + "-"@ + os@ + "-"@ + arch@ + ".tar.gz"@,
{
    let mut v = chars_of("node-");
    extend_str(&mut v, version);
    extend_str(&mut v, "-");
    extend_str(&mut v, os);
    extend_str(&mut v, "-");
    extend_str(&mut v, arch);
    extend_str(&mut v, ".tar.gz");
    string_of(v.as_slice())
}

/// `https://nodejs.org/dist/<version>/<file>`.
pub fn node_dist_url(version: &str, file: &str) -> (res: String)
    ensures
        res@ == "https://nodejs.org/dist/"@ + version@ + "/"@ + file@,
{
    let mut v = chars_of("https://nodejs.org/dist/");
    extend_str(&mut v, version);
    extend_str(&mut v, "/");
    extend_str(&mut v, file);
    string_of(v.as_slice())
}

/// `<runtimes>/node/<version>/bin`, where an installed Node keeps `node`.
pub fn node_bin_dir(home: &HarborHome, version: &str) -> (res: String)
    ensures
        res@ == path_join(path_join(path_join(path_join(home@, "runtimes"@), "node"@), version@), "bin"@),
{
    let r = chars_of(home.runtimes().as_str());
    let n = join_path(r.as_slice(), "node");
    let v = join_path(n.as_slice(), version);
    string_of(join_path(v.as_slice(), "bin").as_slice())
}

/// The checksum `SHASUMS256.txt` text `s` records for file `name`: the
/// first word of the first line whose second word is `name`.
pub open spec fn shasum_entry(s: Seq<char>, name: Seq<char>) -> Option<Seq<char>>
    decreases s.len(),
{
    if s.len() == 0 {
        None
    } else {
        let line = first_line(s);
        if name.len() > 0 && word1(line) == name {
            Some(word0(line))
        } else {
            proof {
                lemma_after_line_shorter(s);
            }
            shasum_entry(after_line(s), name)
        }
    }
}

/// Looks up the checksum of `name` in a `SHASUMS256.txt` text: the first
/// word of the first line whose second word is `name`.
pub fn find_shasum(content: &str, name: &str) -> (res: Option<String>)
    ensures
        match res {
            Some(h) => shasum_entry(content@, name@) == Some(h@),
            None => shasum_entry(content@, name@) is None,
        },
{
    let nv = chars_of(name);
    let mut rest = chars_of(content);
    while rest.len() > 0
        invariant
            shasum_entry(rest@, name@) == shasum_entry(content@, name@),
            nv@ == name@,
        decreases rest.len(),
    {
        let line = first_line_chars(rest.as_slice());
        let (w0, tail) = split_word(line.as_slice());
        let (w1, _) = split_word(tail.as_slice());
        if nv.len() > 0 && chars_eq(w1.as_slice(), nv.as_slice()) {
            return Some(string_of(w0.as_slice()));
        }
        proof {
            lemma_after_line_shorter(rest@);
        }
        rest = after_line_chars(rest.as_slice());
    }
    None
}

/// Checks a downloaded Node.js archive: `SHASUMS256.txt` (`shasums`) must
/// list `archive_name`, with the checksum `actual` (the archive's SHA-256
/// in lower-case hex).
pub fn check_node_integrity(shasums: &str, archive_name: &str, actual: &str) -> (res: Result<(), RuntimeError>)
    ensures
        res is Ok <==> shasum_entry(shasums@, archive_name@) == Some(actual@),
        res matches Err(e) ==> e == RuntimeError::IntegrityMismatch,
{
    match find_shasum(shasums, archive_name) {
        None => Err(RuntimeError::IntegrityMismatch),
        Some(expected) => if str_eq(expected.as_str(), actual) {
            Ok(())
        } else {
            Err(RuntimeError::IntegrityMismatch)
        },
    }
}

/// Checks a Node constraint before resolving it: supported syntax (see
/// [`check_constraint_syntax`]), then a valid SemVer requirement.
pub fn check_node_constraint(constraint: &str) -> (res: Result<(), RuntimeError>)
    ensures
        res is Ok <==> constraint_syntax_ok(constraint@) && spec_semver_req_error(constraint@) is None,
        !constraint_syntax_ok(constraint@) ==> (res matches Err(RuntimeError::UnsupportedConstraintSyntax {
            constraint: c,
            reason,
        }) && c@ == constraint@ && constraint_syntax_problem(constraint@) == Some(reason@)),
        constraint_syntax_ok(constraint@) && spec_semver_req_error(constraint@) is Some ==> (res matches Err(
            RuntimeError::InvalidConstraint { constraint: c, err },
        ) && c@ == constraint@ && spec_semver_req_error(constraint@) == Some(err@)),
{
    check_constraint_syntax(constraint)?;
    match semver_req_error(constraint) {
        Some(e) => Err(RuntimeError::InvalidConstraint { constraint: owned(constraint), err: e }),
        None => Ok(()),
    }
}

/// The release list used when the Node.js index cannot be fetched.
pub open spec fn fallback_node_versions() -> Seq<Seq<char>> {
    seq!["v22.2.0"@, "v20.11.1"@, "v18.20.0"@]
}

/// The candidate releases: the fetched index, else the fallback list.
pub open spec fn node_candidates(fetched: Option<Vec<String>>) -> Seq<Seq<char>> {
    match fetched {
        Some(v) => texts(v@),
        None => fallback_node_versions(),
    }
}

/// Release text `vs[i]` satisfies `req` and no satisfying release orders
/// above it.
pub open spec fn newest_at(req: Seq<char>, vs: Seq<Seq<char>>, i: int) -> bool {
    &&& 0 <= i < vs.len()
    &&& spec_semver_matches(req, strip_v(vs[i]))
    &&& forall|j: int|
        0 <= j < vs.len() && spec_semver_matches(req, strip_v(vs[j])) ==> !spec_semver_less(
            strip_v(vs[i]),
            strip_v(#[trigger] vs[j]),
        )
}

/// The Node.js release to install for `constraint`: the newest of the
/// fetched release index (`fetched`, its version texts), or of the
/// fallback list when fetching failed; `NoSatisfyingVersion` when none
/// satisfies the constraint.
pub fn select_node_version(constraint: &str, fetched: Option<Vec<String>>) -> (res: Result<String, RuntimeError>)
    ensures
        res matches Ok(s) ==> exists|i: int|
            newest_at(constraint@, node_candidates(fetched), i) && s@ == "v"@ + spec_semver_display(
                strip_v(#[trigger] node_candidates(fetched)[i]),
            ),
        res matches Err(e) ==> e matches RuntimeError::NoSatisfyingVersion { constraint: c } && c@ == constraint@,
        res is Err ==> forall|i: int| !newest_at(constraint@, node_candidates(fetched), i),
{
    let ghost cands = node_candidates(fetched);
    let versions = match fetched {
        Some(v) => v,
        None => vec_of(&["v22.2.0", "v20.11.1", "v18.20.0"]),
    };
    proof {
        reveal_strlit("v22.2.0");
        reveal_strlit("v20.11.1");
        reveal_strlit("v18.20.0");
        assert(texts(versions@) =~= cands);
    }
    let r = match_version(constraint, versions.as_slice());
    proof {
        assert forall|i: int| #[trigger] newest_at(constraint@, cands, i) == version_maximal(
            constraint@,
            versions@,
            i,
        ) by {
            assert(forall|j: int| 0 <= j < versions@.len() ==> cands[j] == #[trigger] versions@[j]@);
        }
    }
    match r {
        Some(v) => {
            proof {
                let i = choose|i: int|
                    version_maximal(constraint@, versions@, i) && v@ == "v"@ + spec_semver_display(
                        strip_v(#[trigger] versions@[i]@),
                    );
                assert(cands[i] == versions@[i]@);
                assert(newest_at(constraint@, cands, i));
            }
            Ok(v)
        },
        None => Err(RuntimeError::NoSatisfyingVersion { constraint: owned(constraint) }),
    }
}

/// The `npm` invocation that installs a Node package's dependencies in
/// its staging directory: `npm ci` when a `package-lock.json` is present,
/// else `npm install`, run in `stage_dir` from `bin_dir`, with `bin_dir`
/// put first on `PATH` (`old_path` is the inherited `PATH`, if any; the
/// list separator is `:`). A `bin_dir` containing `:` cannot be put on
/// `PATH` and is refused.
pub fn npm_install_command(
    stage_dir: &str,
    bin_dir: &str,
    lock_present: bool,
    old_path: Option<String>,
) -> (res: Result<CommandSpec, RuntimeError>)
    ensures
        old_path is Some && has_char(bin_dir@, ':') ==> (res matches Err(RuntimeError::Process(m))
            && m@ == "Failed to build PATH: path segment contains separator `:`"@),
        !(old_path is Some && has_char(bin_dir@, ':')) ==> (res matches Ok(c) && {
            &&& c.program@ == path_join(bin_dir@, "npm"@)
            &&& texts(c.args@) == (if lock_present {
                seq!["ci"@]
            } else {
                seq!["install"@]
            })
            &&& c.cwd matches Some(d) && d@ == stage_dir@
            &&& c.env@.len() == 1
            &&& c.env@[0].0@ == "PATH"@
            &&& c.env@[0].1@ == match old_path {
                Some(p) => bin_dir@ + ":"@ + p@,
                None => bin_dir@,
            }
        }),
{
    let bd = chars_of(bin_dir);
    let path_value = match old_path {
        Some(p) => {
            if contains_char(bd.as_slice(), ':') {
                return Err(RuntimeError::Process(owned("Failed to build PATH: path segment contains separator `:`")));
            }
            let mut v = chars_of(bin_dir);
            extend_str(&mut v, ":");
            extend_str(&mut v, p.as_str());
            string_of(v.as_slice())
        },
        None => owned(bin_dir),
    };
    let args = if lock_present {
        vec_of(&["ci"])
    } else {
        vec_of(&["install"])
    };
    proof {
        if lock_present {
            assert(texts(args@) =~= seq!["ci"@]);
        } else {
            assert(texts(args@) =~= seq!["install"@]);
        }
    }
    let mut env: Vec<(String, String)> = Vec::new();
    env.push((owned("PATH"), path_value));
    Ok(
        CommandSpec {
            program: string_of(join_path(bd.as_slice(), "npm").as_slice()),
            args,
            cwd: Some(owned(stage_dir)),
            env,
            message: owned("Installing Node.js dependencies in staging environment..."),
        },
    )
}

/// `<tmp>/node-stage-<name>-<stamp>`: a fresh staging directory for a
/// Node environment (`stamp` is the current time in milliseconds).
pub fn node_stage_dir(home: &HarborHome, name: &str, stamp: u64) -> (res: String)
    ensures
        res@ == path_join(path_join(home@, "tmp"@), "node-stage-"@ + name@ + "-"@ + decimal(stamp as nat)),
{
    let mut f = chars_of("node-stage-");
    extend_str(&mut f, name);
    extend_str(&mut f, "-");
    let d = decimal_of(stamp);
    extend_chars(&mut f, d.as_slice());
    let t = chars_of(home.tmp().as_str());
    let fs = string_of(f.as_slice());
    string_of(join_path(t.as_slice(), fs.as_str()).as_slice())
}

/// What a runtime error says.
pub open spec fn runtime_error_text(e: RuntimeError) -> Seq<char> {
    match e {
        RuntimeError::Io(m) => "I/O error during runtime operation: "@ + m@,
        RuntimeError::Network(m) => "Network error fetching runtime artifact: "@ + m@,
        RuntimeError::InvalidConstraint { constraint, err } => "Failed to parse Node.js version constraint '"@
            + constraint@ + "': "@ + err@,
        RuntimeError::UnsupportedConstraintSyntax { constraint, reason } => "Unsupported npm range syntax in '"@
            + constraint@ + "': "@ + reason@,
        RuntimeError::NoSatisfyingVersion { constraint } => "No available Node.js version satisfies constraint '"@
            + constraint@ + "'"@,
        RuntimeError::IntegrityMismatch => "Integrity check failed: downloaded Node.js archive checksum does not match official SHASUMS256.txt"@,
        RuntimeError::Process(m) => "Process execution failed: "@ + m@,
        RuntimeError::Validation(m) => "Validation failed: "@ + m@,
    }
}

impl RuntimeError {
    /// Human-readable description of the error.
    pub fn message(&self) -> (res: String)
        ensures
            res@ == runtime_error_text(*self),
    {
        let mut v: Vec<char> = Vec::new();
        match self {
            RuntimeError::Io(m) => {
                extend_str(&mut v, "I/O error during runtime operation: ");
                extend_str(&mut v, m.as_str());
            },
            RuntimeError::Network(m) => {
                extend_str(&mut v, "Network error fetching runtime artifact: ");
                extend_str(&mut v, m.as_str());
            },
            RuntimeError::InvalidConstraint { constraint, err } => {
                extend_str(&mut v, "Failed to parse Node.js version constraint '");
                extend_str(&mut v, constraint.as_str());
                extend_str(&mut v, "': ");
                extend_str(&mut v, err.as_str());
            },
            RuntimeError::UnsupportedConstraintSyntax { constraint, reason } => {
                extend_str(&mut v, "Unsupported npm range syntax in '");
                extend_str(&mut v, constraint.as_str());
                extend_str(&mut v, "': ");
                extend_str(&mut v, reason.as_str());
            },
            RuntimeError::NoSatisfyingVersion { constraint } => {
                extend_str(&mut v, "No available Node.js version satisfies constraint '");
                extend_str(&mut v, constraint.as_str());
                extend_str(&mut v, "'");
            },
            RuntimeError::IntegrityMismatch => {
                extend_str(
                    &mut v,
                    "Integrity check failed: downloaded Node.js archive checksum does not match official SHASUMS256.txt",
                );
            },
            RuntimeError::Process(m) => {
                extend_str(&mut v, "Process execution failed: ");
                extend_str(&mut v, m.as_str());
            },
            RuntimeError::Validation(m) => {
                extend_str(&mut v, "Validation failed: ");
                extend_str(&mut v, m.as_str());
            },
        }
        string_of(v.as_slice())
    }
}

/// What the caller found while looking for a Node.js runtime.
#[derive(Debug, PartialEq, Eq)]
pub enum NodeEvent {
    /// The search starts.
    Begin,
    /// A `node` on `PATH` satisfying the constraint: its bin directory.
    SystemFound(Option<String>),
    /// An already installed `runtimes/node/<version>` satisfying it.
    CacheFound(Option<String>),
    /// The published release list (`None` when it could not be fetched).
    Releases(Option<Vec<String>>),
    /// Whether the `node` binary of `version` is already installed.
    BinaryPresent { version: String, present: bool },
    /// Downloading and installing a version ended: its bin directory, or
    /// the error.
    Downloaded(Result<String, RuntimeError>),
}

/// What the caller is to do next while looking for a Node.js runtime.
#[derive(Debug, PartialEq, Eq)]
pub enum NodeAction {
    /// Look for a satisfying `node` on `PATH`.
    FindSystem,
    /// Look among the installed versions under `runtimes/node`.
    FindCached,
    /// Fetch the published release list.
    FetchReleases,
    /// Report whether `<bin_dir>/node` of `version` is a file.
    CheckBinary { version: String, bin_dir: String },
    /// Download, verify and install `version`.
    Download { version: String },
    /// The search is over: the runtime's bin directory, or the error.
    Done(Result<String, RuntimeError>),
}

/// `version` is the newest candidate of the release list `fetched` (or
/// the fallback list) that satisfies `constraint`, with its `v` prefix.
pub open spec fn node_selected(constraint: Seq<char>, fetched: Option<Vec<String>>, version: Seq<char>) -> bool {
    exists|i: int|
        newest_at(constraint, node_candidates(fetched), i) && version == "v"@ + spec_semver_display(
            strip_v(#[trigger] node_candidates(fetched)[i]),
        )
}

/// `<home>/runtimes/node/<version>/bin`.
pub open spec fn node_bin_path(home: Seq<char>, version: Seq<char>) -> Seq<char> {
    path_join(path_join(path_join(path_join(home, "runtimes"@), "node"@), version), "bin"@)
}

/// One step of providing a Node.js runtime for `constraint`, in order of
/// preference: the constraint is checked first; then a satisfying system
/// `node`, then an installed one; otherwise the newest satisfying release
/// (from the published list, or the built-in fallback list) is used,
/// downloaded only when its binary is not already installed.
pub fn node_runtime_step(home: &HarborHome, constraint: &str, event: NodeEvent) -> (res: NodeAction)
    ensures
        event == NodeEvent::Begin ==> if constraint_syntax_ok(constraint@) && spec_semver_req_error(constraint@) is None {
            res == NodeAction::FindSystem
        } else {
            res matches NodeAction::Done(Err(e)) && (e is UnsupportedConstraintSyntax || e is InvalidConstraint)
        },
        event matches NodeEvent::SystemFound(Some(b)) ==> res == NodeAction::Done(Ok(b)),
        event == NodeEvent::SystemFound(None) ==> res == NodeAction::FindCached,
        event matches NodeEvent::CacheFound(Some(b)) ==> res == NodeAction::Done(Ok(b)),
        event == NodeEvent::CacheFound(None) ==> res == NodeAction::FetchReleases,
        event matches NodeEvent::Releases(fetched) ==> match res {
            NodeAction::CheckBinary { version, bin_dir } => node_selected(constraint@, fetched, version@) && bin_dir@
                == node_bin_path(home@, version@),
            NodeAction::Done(Err(e)) => (e matches RuntimeError::NoSatisfyingVersion { constraint: c } && c@
                == constraint@) && forall|i: int| !newest_at(constraint@, node_candidates(fetched), i),
            _ => false,
        },
        event matches NodeEvent::BinaryPresent { version, present } ==> if present {
            res matches NodeAction::Done(Ok(b)) && b@ == node_bin_path(home@, version@)
        } else {
            res == NodeAction::Download { version }
        },
        event matches NodeEvent::Downloaded(r) ==> res == NodeAction::Done(r),
{
    match event {
        NodeEvent::Begin => match check_node_constraint(constraint) {
            Err(e) => NodeAction::Done(Err(e)),
            Ok(()) => NodeAction::FindSystem,
        },
        NodeEvent::SystemFound(Some(b)) => NodeAction::Done(Ok(b)),
        NodeEvent::SystemFound(None) => NodeAction::FindCached,
        NodeEvent::CacheFound(Some(b)) => NodeAction::Done(Ok(b)),
        NodeEvent::CacheFound(None) => NodeAction::FetchReleases,
        NodeEvent::Releases(fetched) => {
            match select_node_version(constraint, fetched) {
                Err(e) => NodeAction::Done(Err(e)),
                Ok(version) => {
                    let bin_dir = node_bin_dir(home, version.as_str());
                    NodeAction::CheckBinary { version, bin_dir }
                },
            }
        },
        NodeEvent::BinaryPresent { version, present } => {
            if present {
                NodeAction::Done(Ok(node_bin_dir(home, version.as_str())))
            } else {
                NodeAction::Download { version }
            }
        },
        NodeEvent::Downloaded(r) => NodeAction::Done(r),
    }
}

/// Only `||`, ` - `, inner whitespace, `.x`/`.X`, `*` and a bare `x`/`X`
/// make a constraint's syntax unsupported: a constraint whose trimmed text
/// has none of them (one using `~`, `^`, `>=`, `<` or `=`, say) passes.
pub proof fn lemma_constraint_syntax_only_refuses_listed_forms(constraint: Seq<char>)
    requires
        ({
            let c = trim(constraint);
            &&& !has_substr(c, "||"@)
            &&& !has_substr(c, " - "@)
            &&& forall|i: int| 0 <= i < c.len() ==> !is_ws(#[trigger] c[i])
            &&& !has_substr(c, ".x"@)
            &&& !has_substr(c, ".X"@)
            &&& !has_char(c, '*')
            &&& c != "x"@
            &&& c != "X"@
        }),
    ensures
        constraint_syntax_ok(constraint),
{
}

/// Each of the refused forms is refused wherever it stands in the trimmed
/// constraint.
pub proof fn lemma_constraint_syntax_refuses_listed_forms(constraint: Seq<char>)
    ensures
        ({
            let c = trim(constraint);
            has_substr(c, "||"@) || has_substr(c, " - "@) || has_substr(c, ".x"@) || has_substr(c, ".X"@)
                || has_char(c, '*') || c == "x"@ || c == "X"@
        }) ==> !constraint_syntax_ok(constraint),
{
}

} // verus!
