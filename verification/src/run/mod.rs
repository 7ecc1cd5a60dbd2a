//! The `harbor run` preparation pipeline: target parsing, archive integrity
//! decisions, cache addressing and OS compatibility. Reading the archive,
//! parsing TOML and touching the file system are the caller's business.

use vstd::prelude::*;

pub mod extract;
pub mod pipeline;
pub mod runtime;

use crate::cache::{
    join_path, lemma_local_package_dir_under_packages, lemma_registry_package_dir_under_packages, nested3, nested4,
    path_join, path_starts_with, path_under, relative, HarborHome,
};
use crate::manifest::{language_text, package_type_text, Manifest};
use crate::run::extract::{extract_error_text, ExtractError};
use crate::run::runtime::{runtime_error_text, semver_version_error, spec_semver_version_error, RuntimeError};
use crate::init::{is_valid_package_name, valid_package_name};
use crate::text::{
    chars_eq_str, chars_of, contains_char, ends_with_str, find_char, first_index_of, has_char,
    extend_str, has_prefix, has_suffix, owned, slice_chars, starts_with_str, str_eq, string_of,
    debug_list, debug_list_text, debug_text, spec_debug_text,
};

verus! {

/// The three target forms `harbor run` accepts.
#[derive(Debug, Clone, PartialEq, Eq)]
pub enum RunTarget {
    /// A local `.harbor` archive path.
    LocalArchive(String),
    /// A registry reference `owner/name`.
    RegistryRef { owner: String, name: String },
    /// A GitHub URL.
    GitHubUrl(String),
}

/// Errors while preparing a package archive for launch.
#[derive(Debug, Clone, PartialEq, Eq)]
pub enum RunError {
    /// Reading the archive (or a manifest on disk) failed.
    Io { path: String, message: String },
    /// The archive has no `harbor.lock`.
    MissingLockfile { path: String },
    /// The archive's `harbor.lock` does not parse.
    LockfileParse(String),
    /// The archive's `harbor.lock` records no package checksum.
    MissingPackageChecksum,
    /// The recomputed package checksum differs from the recorded one.
    ChecksumMismatch { expected: String, actual: String },
    /// The archive has no `harbor.toml`.
    MissingManifest { path: String },
    /// `harbor.toml` does not parse.
    ManifestParse(String),
    /// `harbor.toml` parses but fails validation.
    ManifestValidation(String),
    /// The package declares operating systems that exclude this one.
    UnsupportedOs { current: String, declared: Vec<String> },
    /// Safe extraction failed.
    Extract(ExtractError),
    /// The computed destination is not below the packages directory.
    UnsafeDestination { dest: String, packages_root: String },
    /// Provisioning the language runtime failed.
    RuntimeProvision(RuntimeError),
    /// Installing dependencies failed.
    DependencyInstall(RuntimeError),
    /// The run target is none of the accepted forms.
    InvalidTarget { target: String },
}

/// A safe registry `owner`/`name` segment: non-empty, not `.`/`..`, and
/// free of `/`, `\`, `.` and `@` (there is no `@version` pin syntax).
pub open spec fn safe_ref_component(s: Seq<char>) -> bool {
    &&& s.len() > 0
    &&& s != "."@
    &&& s != ".."@
    &&& !has_char(s, '/')
    &&& !has_char(s, '\\')
    &&& !has_char(s, '.')
    &&& !has_char(s, '@')
}

fn is_safe_ref_component(s: &[char]) -> (res: bool)
    ensures
        res == safe_ref_component(s@),
{
    s.len() != 0 && !chars_eq_str(s, ".") && !chars_eq_str(s, "..") && !contains_char(s, '/')
        && !contains_char(s, '\\') && !contains_char(s, '.') && !contains_char(s, '@')
}

/// The target is a GitHub URL.
pub open spec fn github_target(t: Seq<char>) -> bool {
    has_prefix(t, "https://github.com/"@) || has_prefix(t, "http://github.com/"@)
}

/// The registry reference a target denotes, if it is one: the text around
/// its first `/`, both parts safe segments.
pub open spec fn registry_ref(t: Seq<char>) -> Option<(Seq<char>, Seq<char>)> {
    match first_index_of(t, '/') {
        Some(i) => {
            let owner = t.take(i);
            let name = t.subrange(i + 1, t.len() as int);
            if safe_ref_component(owner) && safe_ref_component(name) {
                Some((owner, name))
            } else {
                None
            }
        },
        None => None,
    }
}

/// Classifies a `harbor run` target: a GitHub URL (`https://github.com/` or
/// `http://github.com/` prefix), else a local archive (a `.harbor` suffix,
/// or `is_existing_file`, which says whether the target names an existing
/// file), else an `owner/name` registry reference, else an error.
pub fn parse_run_target(target: &str, is_existing_file: bool) -> (res: Result<RunTarget, RunError>)
    ensures
        github_target(target@) ==> (res matches Ok(RunTarget::GitHubUrl(u)) && u@ == target@),
        !github_target(target@) && (has_suffix(target@, ".harbor"@) || is_existing_file) ==> (res matches Ok(
            RunTarget::LocalArchive(p),
        ) && p@ == target@),
        !github_target(target@) && !(has_suffix(target@, ".harbor"@) || is_existing_file) ==> match registry_ref(
            target@,
        ) {
            Some((o, n)) => res matches Ok(RunTarget::RegistryRef { owner, name }) && owner@ == o
                && name@ == n,
            None => res matches Err(RunError::InvalidTarget { target: t }) && t@ == target@,
        },
{
    let v = chars_of(target);
    if starts_with_str(v.as_slice(), "https://github.com/") || starts_with_str(
        v.as_slice(),
        "http://github.com/",
    ) {
        return Ok(RunTarget::GitHubUrl(owned(target)));
    }
    if ends_with_str(v.as_slice(), ".harbor") || is_existing_file {
        return Ok(RunTarget::LocalArchive(owned(target)));
    }
    let found = find_char(v.as_slice(), '/');
    if let Some(slash) = found {
        assert(slash < v.len());
        let owner = slice_chars(v.as_slice(), 0, slash);
        let name = slice_chars(v.as_slice(), slash + 1, v.len());
        if is_safe_ref_component(owner.as_slice()) && is_safe_ref_component(name.as_slice()) {
            return Ok(
                RunTarget::RegistryRef {
                    owner: string_of(owner.as_slice()),
                    name: string_of(name.as_slice()),
                },
            );
        }
    }
    Err(RunError::InvalidTarget { target: owned(target) })
}

/// `current` is allowed when nothing is declared or it is declared.
pub open spec fn os_permitted(declared: Seq<String>, current: Seq<char>) -> bool {
    declared.len() == 0 || exists|i: int| 0 <= i < declared.len() && #[trigger] declared[i]@ == current
}

/// Whether operating system `current` may run a package that declares
/// `declared` in its `os` field (an empty list means no restriction).
pub fn os_allowed(declared: &[String], current: &str) -> (res: bool)
    ensures
        res == os_permitted(declared@, current@),
{
    if declared.len() == 0 {
        return true;
    }
    let mut i: usize = 0;
    while i < declared.len()
        invariant
            i <= declared@.len(),
            forall|j: int| 0 <= j < i ==> #[trigger] declared@[j]@ != current@,
        decreases declared.len() - i,
    {
        if str_eq(declared[i].as_str(), current) {
            return true;
        }
        i = i + 1;
    }
    false
}

/// The manifest's identifier for an operating system named as
/// `std::env::consts::OS` names it: `macos`, `linux`, `windows`, else
/// `unknown`.
pub fn current_os(target_os: &str) -> (res: String)
    ensures
        res@ == (if target_os@ == "macos"@ {
            "macos"@
        } else if target_os@ == "linux"@ {
            "linux"@
        } else if target_os@ == "windows"@ {
            "windows"@
        } else {
            "unknown"@
        }),
{
    if str_eq(target_os, "macos") {
        owned("macos")
    } else if str_eq(target_os, "linux") {
        owned("linux")
    } else if str_eq(target_os, "windows") {
        owned("windows")
    } else {
        owned("unknown")
    }
}

/// The outcome of preparing an archive: checksum-verified, extracted (or
/// found cached) and re-validated.
#[derive(Debug, Clone, PartialEq, Eq)]
pub struct Prepared {
    pub name: String,
    pub version: String,
    pub package_dir: String,
    /// Whether an existing extracted copy was reused.
    pub from_cache: bool,
    /// Non-fatal manifest warnings from re-validation.
    pub warnings: Vec<String>,
}

/// Index of the first entry whose path is `name`.
pub fn find_entry(paths: &[String], name: &str) -> (res: Option<usize>)
    ensures
        match res {
            Some(i) => i < paths@.len() && paths@[i as int]@ == name@ && forall|j: int|
                0 <= j < i ==> #[trigger] paths@[j]@ != name@,
            None => forall|j: int| 0 <= j < paths@.len() ==> #[trigger] paths@[j]@ != name@,
        },
{
    let mut i: usize = 0;
    while i < paths.len()
        invariant
            i <= paths@.len(),
            forall|j: int| 0 <= j < i ==> #[trigger] paths@[j]@ != name@,
        decreases paths.len() - i,
    {
        if str_eq(paths[i].as_str(), name) {
            return Some(i);
        }
        i = i + 1;
    }
    None
}

/// What the caller learned from an archive's entries before extraction.
/// Each parse result comes from the entry the library pointed at.
#[derive(Debug, PartialEq, Eq)]
pub struct ArchiveFacts {
    /// Path of every regular-file entry, in archive order.
    pub paths: Vec<String>,
    /// The parsed `harbor.lock` entry: its `package-checksum` (if any), or
    /// the parse error. Ignored when there is no `harbor.lock` entry.
    pub lock: Result<Option<String>, String>,
    /// The package checksum recomputed over all entries.
    pub actual_checksum: String,
    /// The parsed `harbor.toml` entry, or the parse error. Ignored when
    /// there is no `harbor.toml` entry.
    pub manifest: Result<Manifest, String>,
    /// The validation verdict of that manifest.
    pub validation: Result<(), String>,
}

/// No entry of `paths` is `name`.
pub open spec fn lacks_entry(paths: Seq<String>, name: Seq<char>) -> bool {
    forall|j: int| 0 <= j < paths.len() ==> #[trigger] paths[j]@ != name
}

/// The pre-extraction verdict on an archive, in pipeline order: the lock
/// must exist, parse and record a checksum equal to the recomputed one;
/// then the manifest must exist, parse and validate, its `name` must follow
/// the package naming rule and its `version` must be a SemVer version (so
/// neither can hold a path separator). On success, the manifest that
/// addresses the cache.
pub open spec fn archive_verdict(archive: Seq<char>, f: ArchiveFacts, res: Result<Manifest, RunError>) -> bool {
    if lacks_entry(f.paths@, "harbor.lock"@) {
        res matches Err(RunError::MissingLockfile { path }) && path@ == archive
    } else {
        match f.lock {
            Err(e) => res == Err::<Manifest, RunError>(RunError::LockfileParse(e)),
            Ok(None) => res == Err::<Manifest, RunError>(RunError::MissingPackageChecksum),
            Ok(Some(expected)) => if expected@ != f.actual_checksum@ {
                res == Err::<Manifest, RunError>(
                    RunError::ChecksumMismatch { expected, actual: f.actual_checksum },
                )
            } else if lacks_entry(f.paths@, "harbor.toml"@) {
                res matches Err(RunError::MissingManifest { path }) && path@ == archive
            } else {
                match f.manifest {
                    Err(e) => res == Err::<Manifest, RunError>(RunError::ManifestParse(e)),
                    Ok(m) => match f.validation {
                        Err(e) => res == Err::<Manifest, RunError>(RunError::ManifestValidation(e)),
                        Ok(()) => if !valid_package_name(m.name@) {
                            res matches Err(RunError::ManifestValidation(msg)) && msg@ == name_rule_message(m.name@)
                        } else {
                            match spec_semver_version_error(m.version@) {
                                Some(err) => res matches Err(RunError::ManifestValidation(msg)) && msg@
                                    == version_rule_message(m.version@, err),
                                None => res == Ok::<Manifest, RunError>(m),
                            }
                        },
                    },
                }
            },
        }
    }
}

/// Decides whether an archive may be extracted, checking in order: a
/// `harbor.lock` entry exists, parses, records a package checksum, and that
/// checksum equals the recomputed one; then a `harbor.toml` entry exists,
/// parses and validates, with a well-formed `name` and a SemVer `version`.
/// Nothing is extracted unless this returns `Ok`.
pub fn verify_archive(archive: &str, facts: ArchiveFacts) -> (res: Result<Manifest, RunError>)
    ensures
        archive_verdict(archive@, facts, res),
{
    let ghost f = facts;
    if find_entry(facts.paths.as_slice(), "harbor.lock").is_none() {
        return Err(RunError::MissingLockfile { path: owned(archive) });
    }
    let ArchiveFacts { paths, lock, actual_checksum, manifest, validation } = facts;
    let expected = match lock {
        Err(e) => return Err(RunError::LockfileParse(e)),
        Ok(None) => return Err(RunError::MissingPackageChecksum),
        Ok(Some(c)) => c,
    };
    if !str_eq(expected.as_str(), actual_checksum.as_str()) {
        return Err(RunError::ChecksumMismatch { expected, actual: actual_checksum });
    }
    if find_entry(paths.as_slice(), "harbor.toml").is_none() {
        return Err(RunError::MissingManifest { path: owned(archive) });
    }
    let m = match manifest {
        Err(e) => return Err(RunError::ManifestParse(e)),
        Ok(m) => m,
    };
    if let Err(e) = validation {
        return Err(RunError::ManifestValidation(e));
    }
    if !is_valid_package_name(m.name.as_str()) {
        let mut msg = chars_of("invalid package name ");
        extend_str(&mut msg, debug_text(m.name.as_str()).as_str());
        extend_str(&mut msg, " (lowercase letters/digits/_/-, 3-64 chars)");
        return Err(RunError::ManifestValidation(string_of(msg.as_slice())));
    }
    if let Some(err) = semver_version_error(m.version.as_str()) {
        let mut msg = chars_of("invalid version ");
        extend_str(&mut msg, debug_text(m.version.as_str()).as_str());
        extend_str(&mut msg, ": ");
        extend_str(&mut msg, err.as_str());
        return Err(RunError::ManifestValidation(string_of(msg.as_slice())));
    }
    Ok(m)
}

/// Why a manifest `name` that breaks the package naming rule is refused.
pub open spec fn name_rule_message(name: Seq<char>) -> Seq<char> {
    "invalid package name "@ + spec_debug_text(name) + " (lowercase letters/digits/_/-, 3-64 chars)"@
}

/// Why a manifest `version` that is not a SemVer version is refused.
pub open spec fn version_rule_message(version: Seq<char>, err: Seq<char>) -> Seq<char> {
    "invalid version "@ + spec_debug_text(version) + ": "@ + err
}



/// `<package_dir>/harbor.toml`: the manifest that is re-validated after
/// extraction.
pub fn extracted_manifest_path(package_dir: &str) -> (res: String)
    ensures
        res@ == path_join(package_dir@, "harbor.toml"@),
{
    let d = chars_of(package_dir);
    string_of(join_path(d.as_slice(), "harbor.toml").as_slice())
}

/// Where a local archive's package is extracted:
/// `packages/local/<name>/<version>`, refused with `UnsafeDestination`
/// unless it lies below `packages/`.
pub fn local_destination(home: &HarborHome, name: &str, version: &str) -> (res: Result<String, RunError>)
    ensures
        match res {
            Ok(d) => d@ == nested3(home@, "packages"@, "local"@, name@, version@) && path_under(
                d@,
                path_join(home@, "packages"@),
            ),
            Err(e) => e matches RunError::UnsafeDestination { dest, packages_root } && dest@ == nested3(
                home@,
                "packages"@,
                "local"@,
                name@,
                version@,
            ) && packages_root@ == path_join(home@, "packages"@) && !path_under(dest@, packages_root@),
        },
        relative(name@) && relative(version@) ==> res is Ok,
{
    let dest = home.local_package_dir(name, version);
    proof {
        if relative(name@) && relative(version@) {
            lemma_local_package_dir_under_packages(*home, name@, version@);
        }
    }
    confine(dest, home)
}

/// Where a registry archive's package is extracted:
/// `packages/registry/<owner>/<name>/<version>`, refused with
/// `UnsafeDestination` unless it lies below `packages/`.
pub fn registry_destination(home: &HarborHome, owner: &str, name: &str, version: &str) -> (res: Result<String, RunError>)
    ensures
        match res {
            Ok(d) => d@ == nested4(home@, "packages"@, "registry"@, owner@, name@, version@) && path_under(
                d@,
                path_join(home@, "packages"@),
            ),
            Err(e) => e matches RunError::UnsafeDestination { dest, packages_root } && dest@ == nested4(
                home@,
                "packages"@,
                "registry"@,
                owner@,
                name@,
                version@,
            ) && packages_root@ == path_join(home@, "packages"@) && !path_under(dest@, packages_root@),
        },
        relative(owner@) && relative(name@) && relative(version@) ==> res is Ok,
{
    let dest = home.registry_package_dir(owner, name, version);
    proof {
        if relative(owner@) && relative(name@) && relative(version@) {
            lemma_registry_package_dir_under_packages(*home, owner@, name@, version@);
        }
    }
    confine(dest, home)
}

fn confine(dest: String, home: &HarborHome) -> (res: Result<String, RunError>)
    ensures
        match res {
            Ok(d) => d@ == dest@ && path_under(d@, path_join(home@, "packages"@)),
            Err(e) => e matches RunError::UnsafeDestination { dest: d, packages_root } && d@ == dest@
                && packages_root@ == path_join(home@, "packages"@) && !path_under(d@, packages_root@),
        },
{
    let packages_root = home.packages();
    let dv = chars_of(dest.as_str());
    let pv = chars_of(packages_root.as_str());
    if !path_starts_with(dv.as_slice(), pv.as_slice()) {
        return Err(RunError::UnsafeDestination { dest, packages_root });
    }
    Ok(dest)
}

/// The decisions of preparing a local `.harbor` archive, before anything
/// is extracted: [`verify_archive`] (integrity first, then the manifest),
/// then [`local_destination`] from the manifest's `name` and `version`.
/// Returns the manifest and the extraction destination; the caller then
/// extracts there unless it is already populated, and finishes with
/// [`complete_preparation`].
pub fn run_local_archive(archive: &str, facts: ArchiveFacts, home: &HarborHome) -> (res: Result<(Manifest, String), RunError>)
    ensures
        match res {
            Ok((m, d)) => archive_verdict(archive@, facts, Ok(m)) && d@ == nested3(
                home@,
                "packages"@,
                "local"@,
                m.name@,
                m.version@,
            ) && path_under(d@, path_join(home@, "packages"@)),
            Err(e) => archive_verdict(archive@, facts, Err(e)) || exists|m: Manifest|
                #[trigger] archive_verdict(archive@, facts, Ok(m)) && (!relative(m.name@) || !relative(
                    m.version@,
                )) && (e matches RunError::UnsafeDestination { dest, packages_root } && dest@ == nested3(
                    home@,
                    "packages"@,
                    "local"@,
                    m.name@,
                    m.version@,
                ) && packages_root@ == path_join(home@, "packages"@) && !path_under(dest@, packages_root@)),
        },
{
    let m = verify_archive(archive, facts)?;
    let d = local_destination(home, m.name.as_str(), m.version.as_str())?;
    Ok((m, d))
}



/// The decisions of preparing a registry-downloaded archive, before
/// anything is extracted: [`verify_archive`], then
/// [`registry_destination`] from the registry `owner`/`name` (the
/// authoritative namespace) and the manifest's `version`. The caller
/// continues as after [`run_local_archive`].
pub fn run_registry_archive(
    archive: &str,
    owner: &str,
    name: &str,
    facts: ArchiveFacts,
    home: &HarborHome,
) -> (res: Result<(Manifest, String), RunError>)
    ensures
        match res {
            Ok((m, d)) => archive_verdict(archive@, facts, Ok(m)) && d@ == nested4(
                home@,
                "packages"@,
                "registry"@,
                owner@,
                name@,
                m.version@,
            ) && path_under(d@, path_join(home@, "packages"@)),
            Err(e) => archive_verdict(archive@, facts, Err(e)) || exists|m: Manifest|
                #[trigger] archive_verdict(archive@, facts, Ok(m)) && (!relative(owner@) || !relative(name@)
                    || !relative(m.version@)) && (e matches RunError::UnsafeDestination {
                    dest,
                    packages_root,
                } && dest@ == nested4(home@, "packages"@, "registry"@, owner@, name@, m.version@) && packages_root@
                    == path_join(home@, "packages"@) && !path_under(dest@, packages_root@)),
        },
{
    let m = verify_archive(archive, facts)?;
    let d = registry_destination(home, owner, name, m.version.as_str())?;
    Ok((m, d))
}

/// What the caller learned from an extracted package directory.
#[derive(Debug, PartialEq, Eq)]
pub struct ExtractedFacts {
    /// Reading `<package_dir>/harbor.toml`: `Ok`, or the I/O error text.
    pub read: Result<(), String>,
    /// The parsed manifest, or the parse error (ignored when unreadable).
    pub manifest: Result<Manifest, String>,
    /// Validation of that manifest: its warnings, or the error.
    pub validation: Result<Vec<String>, String>,
}

/// The verdict on an extracted package directory, in pipeline order.
pub open spec fn extracted_verdict(
    package_dir: Seq<char>,
    f: ExtractedFacts,
    current: Seq<char>,
    res: Result<(Manifest, Vec<String>), RunError>,
) -> bool {
    match f.read {
        Err(msg) => res matches Err(RunError::Io { path, message }) && path@ == path_join(
            package_dir,
            "harbor.toml"@,
        ) && message == msg,
        Ok(()) => match f.manifest {
            Err(e) => res == Err::<(Manifest, Vec<String>), RunError>(RunError::ManifestParse(e)),
            Ok(m) => match f.validation {
                Err(e) => res == Err::<(Manifest, Vec<String>), RunError>(RunError::ManifestValidation(e)),
                Ok(w) => if os_permitted(m.os@, current) {
                    res == Ok::<(Manifest, Vec<String>), RunError>((m, w))
                } else {
                    res matches Err(RunError::UnsupportedOs { current: c, declared }) && c@ == current
                        && declared@ == m.os@
                },
            },
        },
    }
}

/// Re-validates an extracted package: its `harbor.toml` must be readable,
/// parse and validate, and the operating system `current` must be among
/// the declared ones (if any). Returns the manifest and its warnings.
pub fn validate_extracted(package_dir: &str, facts: ExtractedFacts, current: &str) -> (res: Result<
    (Manifest, Vec<String>),
    RunError,
>)
    ensures
        extracted_verdict(package_dir@, facts, current@, res),
{
    let ExtractedFacts { read, manifest, validation } = facts;
    if let Err(message) = read {
        return Err(RunError::Io { path: extracted_manifest_path(package_dir), message });
    }
    let m = match manifest {
        Err(e) => return Err(RunError::ManifestParse(e)),
        Ok(m) => m,
    };
    let warnings = match validation {
        Err(e) => return Err(RunError::ManifestValidation(e)),
        Ok(w) => w,
    };
    if !os_allowed(m.os.as_slice(), current) {
        let declared = m.os.clone();
        assert(declared@ == m.os@);
        return Err(RunError::UnsupportedOs { current: owned(current), declared });
    }
    Ok((m, warnings))
}

/// A prepared environment: its directory and the runtime's bin directory.
#[derive(Debug, Clone, PartialEq, Eq)]
pub struct PreparedEnvironment {
    pub env_dir: String,
    pub bin_dir: String,
}

/// The outcome of preparing an environment at `env_dir`, given what the
/// runtime manager reported.
pub open spec fn environment_result(
    env_dir: String,
    runtime: Result<String, RuntimeError>,
    install: Option<Result<(), RuntimeError>>,
) -> Result<PreparedEnvironment, RunError> {
    match runtime {
        Err(e) => Err(RunError::RuntimeProvision(e)),
        Ok(bin_dir) => match install {
            Some(Err(e)) => Err(RunError::DependencyInstall(e)),
            _ => Ok(PreparedEnvironment { env_dir, bin_dir }),
        },
    }
}

/// The outcome of preparing an environment at `env_dir` from what the
/// runtime manager reported: its runtime (the bin directory, or the
/// error), and its dependency install, when one was run.
pub fn environment_outcome(
    env_dir: String,
    runtime: Result<String, RuntimeError>,
    install: Option<Result<(), RuntimeError>>,
) -> (res: Result<PreparedEnvironment, RunError>)
    ensures
        res == environment_result(env_dir, runtime, install),
{
    match runtime {
        Err(e) => Err(RunError::RuntimeProvision(e)),
        Ok(bin_dir) => match install {
            Some(Err(e)) => Err(RunError::DependencyInstall(e)),
            _ => Ok(PreparedEnvironment { env_dir, bin_dir }),
        },
    }
}

/// What the runtime manager reported back while an environment is prepared.
#[derive(Debug, PartialEq, Eq)]
pub enum EnvEvent {
    /// Preparation starts.
    Begin,
    /// The runtime was provisioned (its bin directory) or failed.
    RuntimeReported(Result<String, RuntimeError>),
    /// The dependency install into the environment, run with `bin_dir`,
    /// finished with `outcome`.
    InstallReported { bin_dir: String, outcome: Result<(), RuntimeError> },
}

/// What the caller is to do next while preparing an environment.
#[derive(Debug, PartialEq, Eq)]
pub enum EnvAction {
    /// Ask the language's runtime manager for a runtime matching `constraint`.
    EnsureRuntime { constraint: String },
    /// Have the runtime manager install the dependencies of the package
    /// at `package_dir` into `env_dir`, with the runtime at `bin_dir`.
    Install { package_dir: String, env_dir: String, bin_dir: String },
    /// Preparation is over, with this outcome.
    Done(Result<PreparedEnvironment, RunError>),
}

/// One step of preparing the isolated environment `env_dir` of the
/// package at `package_dir`: first a runtime matching `manifest.runtime`
/// is asked for; once it is there, the dependencies are installed unless
/// `env_ready` (the environment's `harbor-env.ok` sentinel exists); the
/// outcome is [`environment_outcome`] of what the manager reported.
pub fn prepare_environment(
    package_dir: &str,
    manifest: &Manifest,
    env_dir: &str,
    env_ready: bool,
    event: EnvEvent,
) -> (res: EnvAction)
    ensures
        event == EnvEvent::Begin ==> (res matches EnvAction::EnsureRuntime { constraint } && constraint@
            == manifest.runtime@),
        event matches EnvEvent::RuntimeReported(Err(e)) ==> res == EnvAction::Done(
            Err(RunError::RuntimeProvision(e)),
        ),
        event matches EnvEvent::RuntimeReported(Ok(b)) ==> if env_ready {
            res matches EnvAction::Done(Ok(p)) && p.env_dir@ == env_dir@ && p.bin_dir == b
        } else {
            res matches EnvAction::Install { package_dir: pd, env_dir: ed, bin_dir: bd } && pd@ == package_dir@
                && ed@ == env_dir@ && bd == b
        },
        event matches EnvEvent::InstallReported { bin_dir, outcome } ==> match outcome {
            Ok(()) => res matches EnvAction::Done(Ok(p)) && p.env_dir@ == env_dir@ && p.bin_dir == bin_dir,
            Err(e) => res == EnvAction::Done(Err(RunError::DependencyInstall(e))),
        },
{
    match event {
        EnvEvent::Begin => EnvAction::EnsureRuntime { constraint: owned(manifest.runtime.as_str()) },
        EnvEvent::RuntimeReported(Err(e)) => EnvAction::Done(environment_outcome(owned(env_dir), Err(e), None)),
        EnvEvent::RuntimeReported(Ok(b)) => {
            if env_ready {
                EnvAction::Done(environment_outcome(owned(env_dir), Ok(b), None))
            } else {
                EnvAction::Install { package_dir: owned(package_dir), env_dir: owned(env_dir), bin_dir: b }
            }
        },
        EnvEvent::InstallReported { bin_dir, outcome } => EnvAction::Done(
            environment_outcome(owned(env_dir), Ok(bin_dir), Some(outcome)),
        ),
    }
}

/// Finishes preparing an extracted (or already cached) package at
/// `package_dir`: [`validate_extracted`] with the operating system
/// `current`, then the [`Prepared`] record.
pub fn complete_preparation(package_dir: &str, from_cache: bool, facts: ExtractedFacts, current: &str) -> (res: Result<Prepared, RunError>)
    ensures
        match res {
            Ok(p) => p.package_dir@ == package_dir@ && p.from_cache == from_cache && exists|m: Manifest, w: Vec<String>|
                #[trigger] extracted_verdict(package_dir@, facts, current@, Ok((m, w))) && p.name == m.name
                    && p.version == m.version && p.warnings == w,
            Err(e) => extracted_verdict(package_dir@, facts, current@, Err(e)),
        },
{
    let (m, warnings) = validate_extracted(package_dir, facts, current)?;
    Ok(Prepared { name: m.name, version: m.version, package_dir: owned(package_dir), from_cache, warnings })
}

/// A registry reference that `parse_run_target` accepts can never address
/// a directory outside `packages/`: both of its components are plain
/// relative names.
pub proof fn lemma_registry_ref_confined(home: HarborHome, target: Seq<char>, version: Seq<char>)
    requires
        registry_ref(target) is Some,
        relative(version),
    ensures
        ({
            let (owner, name) = registry_ref(target)->0;
            path_under(
                nested4(home@, "packages"@, "registry"@, owner, name, version),
                path_join(home@, "packages"@),
            )
        }),
{
    let (owner, name) = registry_ref(target)->0;
    assert(owner.len() > 0 && owner[0] != '/') by {
        assert(!has_char(owner, '/'));
    }
    assert(name.len() > 0 && name[0] != '/') by {
        assert(!has_char(name, '/'));
    }
    lemma_registry_package_dir_under_packages(home, owner, name, version);
}

/// An archive whose recorded package checksum differs from the recomputed
/// one is refused with `ChecksumMismatch`, whatever its manifest says.
pub proof fn lemma_checksum_mismatch_aborts(
    archive: Seq<char>,
    facts: ArchiveFacts,
    res: Result<Manifest, RunError>,
)
    requires
        !lacks_entry(facts.paths@, "harbor.lock"@),
        facts.lock matches Ok(Some(e)) && e@ != facts.actual_checksum@,
        archive_verdict(archive, facts, res),
    ensures
        res == Err::<Manifest, RunError>(
            RunError::ChecksumMismatch { expected: facts.lock->Ok_0->Some_0, actual: facts.actual_checksum },
        ),
{
}

/// An archive is only ever accepted when it carries a `harbor.lock` whose
/// recorded checksum equals the recomputed one and a `harbor.toml` that
/// parsed and validated into the returned manifest.
pub proof fn lemma_accepted_archive_is_intact(archive: Seq<char>, facts: ArchiveFacts, m: Manifest)
    requires
        archive_verdict(archive, facts, Ok(m)),
    ensures
        !lacks_entry(facts.paths@, "harbor.lock"@),
        facts.lock matches Ok(Some(e)) && e@ == facts.actual_checksum@,
        !lacks_entry(facts.paths@, "harbor.toml"@),
        facts.manifest == Ok::<Manifest, String>(m),
        facts.validation is Ok,
{
}

/// Where a prepared package came from, which decides the namespace of its
/// environment and grant state.
#[derive(Debug, Clone, PartialEq, Eq)]
pub enum PackageOrigin {
    /// A local archive of package `name`.
    Local { name: String },
    /// The registry package `owner/name`.
    Registry { owner: String, name: String },
    /// The GitHub repository `owner/repo` at commit `sha`.
    Github { owner: String, repo: String, sha: String },
}

/// The environment directory and the grants file of a package of `origin`
/// at `version` (a GitHub package is addressed by its commit instead).
pub fn environment_paths(home: &HarborHome, origin: &PackageOrigin, version: &str) -> (res: (String, String))
    ensures
        match origin {
            PackageOrigin::Local { name } => res.0@ == nested3(home@, "envs"@, "local"@, name@, version@)
                && res.1@ == nested3(home@, "permissions"@, "local"@, name@, version@ + ".toml"@),
            PackageOrigin::Registry { owner, name } => res.0@ == nested4(
                home@,
                "envs"@,
                "registry"@,
                owner@,
                name@,
                version@,
            ) && res.1@ == nested4(home@, "permissions"@, "registry"@, owner@, name@, version@ + ".toml"@),
            PackageOrigin::Github { owner, repo, sha } => res.0@ == nested4(
                home@,
                "envs"@,
                "github"@,
                owner@,
                repo@,
                sha@,
            ) && res.1@ == nested4(home@, "permissions"@, "github"@, owner@, repo@, sha@ + ".toml"@),
        },
{
    match origin {
        PackageOrigin::Local { name } => (
            home.local_env_dir(name.as_str(), version),
            home.local_grants_path(name.as_str(), version),
        ),
        PackageOrigin::Registry { owner, name } => (
            home.registry_env_dir(owner.as_str(), name.as_str(), version),
            home.registry_grants_path(owner.as_str(), name.as_str(), version),
        ),
        PackageOrigin::Github { owner, repo, sha } => (
            home.github_env_dir(owner.as_str(), repo.as_str(), sha.as_str()),
            home.github_grants_path(owner.as_str(), repo.as_str(), sha.as_str()),
        ),
    }
}

/// The line `harbor run --install-only`/`--prepare` prints for the SDK:
/// `HARBOR_INSTALLED|name|version|type|language|package_dir|env_dir|bin_dir`.
pub fn installed_line(
    manifest: &Manifest,
    name: &str,
    version: &str,
    package_dir: &str,
    env_dir: &str,
    bin_dir: &str,
) -> (res: String)
    ensures
        res@ == "HARBOR_INSTALLED|"@ + name@ + "|"@ + version@ + "|"@ + package_type_text(manifest.package_type)
            + "|"@ + language_text(manifest.language) + "|"@ + package_dir@ + "|"@ + env_dir@ + "|"@
            + bin_dir@,
{
    let mut v = chars_of("HARBOR_INSTALLED|");
    extend_str(&mut v, name);
    extend_str(&mut v, "|");
    extend_str(&mut v, version);
    extend_str(&mut v, "|");
    extend_str(&mut v, manifest.package_type.label().as_str());
    extend_str(&mut v, "|");
    extend_str(&mut v, manifest.language.label().as_str());
    extend_str(&mut v, "|");
    extend_str(&mut v, package_dir);
    extend_str(&mut v, "|");
    extend_str(&mut v, env_dir);
    extend_str(&mut v, "|");
    extend_str(&mut v, bin_dir);
    string_of(v.as_slice())
}

/// The first seven characters of a commit SHA (all of a shorter one), as
/// shown in progress messages.
pub fn short_sha(sha: &str) -> (res: String)
    ensures
        res@ == sha@.take(if sha@.len() < 7 { sha@.len() as int } else { 7 }),
{
    let v = chars_of(sha);
    let n = if v.len() < 7 { v.len() } else { 7 };
    string_of(slice_chars(v.as_slice(), 0, n).as_slice())
}

/// What a run error says.
pub open spec fn run_error_text(e: RunError) -> Seq<char> {
    match e {
        RunError::Io { path, message } => "I/O error at "@ + path@ + ": "@ + message@,
        RunError::MissingLockfile { path } => "archive "@ + path@
            + " does not contain a harbor.lock — this is not a valid Harbor package"@,
        RunError::LockfileParse(m) => "harbor.lock inside the archive is malformed: "@ + m@,
        RunError::MissingPackageChecksum => "harbor.lock inside the archive has no package-checksum recorded; cannot verify package integrity"@,
        RunError::ChecksumMismatch { expected, actual } => "checksum mismatch: recomputed package-checksum ("@
            + actual@ + ") does not match the package-checksum recorded in harbor.lock ("@ + expected@
            + ") — the archive may be corrupt or tampered with; aborting before extraction"@,
        RunError::MissingManifest { path } => "archive "@ + path@
            + " does not contain a harbor.toml — this is not a valid Harbor package"@,
        RunError::ManifestParse(m) => m@,
        RunError::ManifestValidation(m) => m@,
        RunError::UnsupportedOs { current, declared } => "this package only supports "@ + debug_list(
            declared@.map_values(|s: String| s@),
        ) + ", but the current operating system is "@ + spec_debug_text(current@) + "; cannot run here"@,
        RunError::Extract(x) => extract_error_text(x),
        RunError::UnsafeDestination { dest, packages_root } => "internal error: computed package destination "@
            + dest@ + " is not confined to "@ + packages_root@
            + "; refusing to extract outside the Harbor packages directory"@,
        RunError::RuntimeProvision(r) => "failed to provision language runtime: "@ + runtime_error_text(r),
        RunError::DependencyInstall(r) => "failed to install dependencies: "@ + runtime_error_text(r),
        RunError::InvalidTarget { target } => "unrecognized run target "@ + spec_debug_text(target@)
            + ": expected a registry reference (owner/name), a GitHub URL, or a local .harbor path"@,
    }
}

impl RunError {
    /// Human-readable description of the error.
    pub fn message(&self) -> (res: String)
        ensures
            res@ == run_error_text(*self),
    {
        let mut v = chars_of("");
        proof {
            reveal_strlit("");
        }
        match self {
            RunError::Io { path, message } => {
                extend_str(&mut v, "I/O error at ");
                extend_str(&mut v, path.as_str());
                extend_str(&mut v, ": ");
                extend_str(&mut v, message.as_str());
            },
            RunError::MissingLockfile { path } => {
                extend_str(&mut v, "archive ");
                extend_str(&mut v, path.as_str());
                extend_str(&mut v, " does not contain a harbor.lock — this is not a valid Harbor package");
            },
            RunError::LockfileParse(m) => {
                extend_str(&mut v, "harbor.lock inside the archive is malformed: ");
                extend_str(&mut v, m.as_str());
            },
            RunError::MissingPackageChecksum => {
                extend_str(
                    &mut v,
                    "harbor.lock inside the archive has no package-checksum recorded; cannot verify package integrity",
                );
            },
            RunError::ChecksumMismatch { expected, actual } => {
                extend_str(&mut v, "checksum mismatch: recomputed package-checksum (");
                extend_str(&mut v, actual.as_str());
                extend_str(&mut v, ") does not match the package-checksum recorded in harbor.lock (");
                extend_str(&mut v, expected.as_str());
                extend_str(&mut v, ") — the archive may be corrupt or tampered with; aborting before extraction");
            },
            RunError::MissingManifest { path } => {
                extend_str(&mut v, "archive ");
                extend_str(&mut v, path.as_str());
                extend_str(&mut v, " does not contain a harbor.toml — this is not a valid Harbor package");
            },
            RunError::ManifestParse(m) => extend_str(&mut v, m.as_str()),
            RunError::ManifestValidation(m) => extend_str(&mut v, m.as_str()),
            RunError::UnsupportedOs { current, declared } => {
                extend_str(&mut v, "this package only supports ");
                extend_str(&mut v, debug_list_text(declared.as_slice()).as_str());
                extend_str(&mut v, ", but the current operating system is ");
                extend_str(&mut v, debug_text(current.as_str()).as_str());
                extend_str(&mut v, "; cannot run here");
            },
            RunError::Extract(x) => extend_str(&mut v, x.message().as_str()),
            RunError::UnsafeDestination { dest, packages_root } => {
                extend_str(&mut v, "internal error: computed package destination ");
                extend_str(&mut v, dest.as_str());
                extend_str(&mut v, " is not confined to ");
                extend_str(&mut v, packages_root.as_str());
                extend_str(&mut v, "; refusing to extract outside the Harbor packages directory");
            },
            RunError::RuntimeProvision(r) => {
                extend_str(&mut v, "failed to provision language runtime: ");
                extend_str(&mut v, r.message().as_str());
            },
            RunError::DependencyInstall(r) => {
                extend_str(&mut v, "failed to install dependencies: ");
                extend_str(&mut v, r.message().as_str());
            },
            RunError::InvalidTarget { target } => {
                extend_str(&mut v, "unrecognized run target ");
                extend_str(&mut v, debug_text(target.as_str()).as_str());
                extend_str(
                    &mut v,
                    ": expected a registry reference (owner/name), a GitHub URL, or a local .harbor path",
                );
            },
        }
        string_of(v.as_slice())
    }
}

/// Up-front allocation bound for one archive entry: at most 16 MiB, however
/// large the entry's header claims it is (the buffer still grows past the
/// bound when the data really is larger).
pub fn prealloc_cap(size: u64) -> (res: usize)
    ensures
        res == (if size < 16777216 { size as usize } else { 16777216usize }),
{
    if size < 16777216 {
        size as usize
    } else {
        16777216
    }
}

} // verus!
