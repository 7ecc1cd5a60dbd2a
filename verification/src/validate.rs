//! The decisions of the `harbor push` validation pipeline: an ordered,
//! fail-fast sequence of static checks, then the exact file set and name
//! of the archive. Reading files, walking the tree, generating the lock
//! file and writing the archive are the caller's business; no step here
//! runs package code or touches the network.

use vstd::prelude::*;

use crate::manifest::Manifest;
use crate::run::find_entry;
use crate::package::{package_error_text, pair_views, sort_by_archive_path, sorted_by_path, PackageError};
use crate::text::{debug_text, spec_debug_text, chars_of, extend_str, has_prefix, is_blank, owned, starts_with_str, str_eq, string_of, trim};

verus! {

/// Errors of the validation pipeline, one per failing step.
#[derive(Debug, Clone, PartialEq, Eq)]
pub enum ValidateError {
    /// `harbor.toml` does not parse.
    ManifestParse(String),
    /// `harbor.toml` parses but fails validation.
    ManifestValidation(String),
    /// An existing `harbor.lock` does not parse.
    LockfileParse(String),
    /// A required file is missing at the package root.
    MissingRequiredFile { name: String },
    /// The declared entrypoint does not exist.
    EntrypointMissing { path: String },
    /// The declared entrypoint exists but is not in the package file set.
    EntrypointExcluded { path: String },
    /// A `[commands]` value is empty or all whitespace.
    EmptyCommand { name: String },
    /// Collecting the file set or building the archive failed.
    Package(PackageError),
    /// Generating `harbor.lock` failed.
    LockfileGenerate(String),
    /// Reading or writing a file failed.
    Io { path: String, message: String },
}

/// `p` without one leading `./`.
pub open spec fn strip_dot_slash(p: Seq<char>) -> Seq<char> {
    if has_prefix(p, "./"@) {
        p.skip(2)
    } else {
        p
    }
}

/// `p` with every `\` turned into `/`.
pub open spec fn forward_slashes(p: Seq<char>) -> Seq<char> {
    p.map_values(|c: char| if c == '\\' { '/' } else { c })
}

/// A manifest path made comparable with archive paths.
pub open spec fn normalized(p: Seq<char>) -> Seq<char> {
    forward_slashes(strip_dot_slash(p))
}

/// Strips one leading `./` and turns backslashes into forward slashes, so
/// a manifest's `entrypoint` compares with archive-relative paths.
pub fn normalize_rel_path(p: &str) -> (res: String)
    ensures
        res@ == normalized(p@),
{
    let v = chars_of(p);
    let start: usize = if starts_with_str(v.as_slice(), "./") {
        2
    } else {
        0
    };
    proof {
        reveal_strlit("./");
    }
    let ghost s = strip_dot_slash(p@);
    assert(s =~= v@.skip(start as int));
    let mut out: Vec<char> = Vec::new();
    let mut i: usize = start;
    while i < v.len()
        invariant
            start <= i <= v@.len(),
            s == v@.skip(start as int),
            out@ == forward_slashes(s.take(i - start)),
        decreases v.len() - i,
    {
        let c = v[i];
        out.push(if c == '\\' { '/' } else { c });
        proof {
            assert(s.take(i + 1 - start) =~= s.take(i - start).push(c));
            assert(forward_slashes(s.take(i + 1 - start)) =~= forward_slashes(s.take(i - start)).push(
                if c == '\\' { '/' } else { c },
            ));
        }
        i = i + 1;
    }
    assert(s.take(v@.len() - start) =~= s);
    string_of(out.as_slice())
}

/// What the caller found out about the package before the checks.
#[derive(Debug, PartialEq, Eq)]
pub struct PackageFacts {
    /// `harbor.toml` parsed, or the parse error (an unreadable file is an
    /// `Io` error the caller reports itself).
    pub manifest: Result<Manifest, String>,
    /// Validation of that manifest: its warnings, or the error.
    pub validation: Result<Vec<String>, String>,
    /// An existing `harbor.lock`: `None` when there is none, else whether
    /// it parses.
    pub existing_lock: Option<Result<(), String>>,
    /// Whether `README.md` is a file at the package root.
    pub readme_present: bool,
    /// Whether `LICENSE` is a file at the package root.
    pub license_present: bool,
    /// The collected file set's archive paths, or the collection error.
    pub files: Result<Vec<String>, PackageError>,
    /// Whether the declared entrypoint is a file under the package root.
    pub entrypoint_is_file: bool,
}

/// The first `[commands]` entry whose value is blank, if any.
pub open spec fn first_blank_command(cmds: Seq<(String, String)>) -> Option<int> {
    if exists|i: int| 0 <= i < cmds.len() && trim(#[trigger] cmds[i].1@).len() == 0 {
        Some(
            choose|i: int|
                0 <= i < cmds.len() && trim(#[trigger] cmds[i].1@).len() == 0 && forall|j: int|
                    0 <= j < i ==> trim(#[trigger] cmds[j].1@).len() > 0,
        )
    } else {
        None
    }
}

/// The pipeline's verdict on `f`, step by step: manifest parse, manifest
/// validation, existing lock file, required files, file collection,
/// entrypoint present, entrypoint packaged, non-blank commands.
pub open spec fn package_verdict(f: PackageFacts, res: Result<(Manifest, Vec<String>), ValidateError>) -> bool {
    match f.manifest {
        Err(e) => res == Err::<(Manifest, Vec<String>), ValidateError>(ValidateError::ManifestParse(e)),
        Ok(m) => match f.validation {
            Err(e) => res == Err::<(Manifest, Vec<String>), ValidateError>(ValidateError::ManifestValidation(e)),
            Ok(w) => match f.existing_lock {
                Some(Err(e)) => res == Err::<(Manifest, Vec<String>), ValidateError>(ValidateError::LockfileParse(e)),
                _ => if !f.readme_present {
                    res matches Err(ValidateError::MissingRequiredFile { name }) && name@ == "README.md"@
                } else if !f.license_present {
                    res matches Err(ValidateError::MissingRequiredFile { name }) && name@ == "LICENSE"@
                } else {
                    match f.files {
                        Err(e) => res == Err::<(Manifest, Vec<String>), ValidateError>(ValidateError::Package(e)),
                        Ok(files) => if !f.entrypoint_is_file {
                            res matches Err(ValidateError::EntrypointMissing { path }) && path@ == m.entrypoint@
                        } else if forall|i: int|
                            0 <= i < files.len() ==> #[trigger] files@[i]@ != normalized(m.entrypoint@) {
                            res matches Err(ValidateError::EntrypointExcluded { path }) && path@ == m.entrypoint@
                        } else {
                            match first_blank_command(m.commands@) {
                                Some(i) => res matches Err(ValidateError::EmptyCommand { name }) && name@
                                    == m.commands@[i].0@,
                                None => res == Ok::<(Manifest, Vec<String>), ValidateError>((m, w)),
                            }
                        },
                    }
                },
            },
        },
    }
}

/// Index of the first `[commands]` entry whose value is blank.
fn first_blank(cmds: &[(String, String)]) -> (res: Option<usize>)
    ensures
        match res {
            Some(k) => k < cmds@.len() && first_blank_command(cmds@) == Some(k as int),
            None => first_blank_command(cmds@) is None,
        },
{
    let mut k: usize = 0;
    while k < cmds.len()
        invariant
            k <= cmds@.len(),
            forall|j: int| 0 <= j < k ==> trim(#[trigger] cmds@[j].1@).len() > 0,
        decreases cmds.len() - k,
    {
        let value = chars_of(cmds[k].1.as_str());
        if is_blank(value.as_slice()) {
            proof {
                let c = cmds@;
                assert(trim(c[k as int].1@).len() == 0);
                assert(0 <= k < c.len() && trim(c[k as int].1@).len() == 0 && forall|j: int|
                    0 <= j < k ==> trim(#[trigger] c[j].1@).len() > 0);
                let w = choose|i: int|
                    0 <= i < c.len() && trim(#[trigger] c[i].1@).len() == 0 && forall|j: int|
                        0 <= j < i ==> trim(#[trigger] c[j].1@).len() > 0;
                assert(w == k as int) by {
                    if w < k {
                    } else if w > k {
                        assert(trim(c[k as int].1@).len() > 0);
                    }
                }
            }
            return Some(k);
        }
        k = k + 1;
    }
    None
}

/// Runs the static checks of `harbor push` in order, stopping at the first
/// failure; on success returns the manifest and its warnings.
pub fn check_package(facts: PackageFacts) -> (res: Result<(Manifest, Vec<String>), ValidateError>)
    ensures
        package_verdict(facts, res),
{
    let ghost f = facts;
    let PackageFacts {
        manifest,
        validation,
        existing_lock,
        readme_present,
        license_present,
        files,
        entrypoint_is_file,
    } = facts;
    let m = match manifest {
        Err(e) => return Err(ValidateError::ManifestParse(e)),
        Ok(m) => m,
    };
    let w = match validation {
        Err(e) => return Err(ValidateError::ManifestValidation(e)),
        Ok(w) => w,
    };
    if let Some(Err(e)) = existing_lock {
        return Err(ValidateError::LockfileParse(e));
    }
    if !readme_present {
        return Err(ValidateError::MissingRequiredFile { name: owned("README.md") });
    }
    if !license_present {
        return Err(ValidateError::MissingRequiredFile { name: owned("LICENSE") });
    }
    let files = match files {
        Err(e) => return Err(ValidateError::Package(e)),
        Ok(v) => v,
    };
    if !entrypoint_is_file {
        return Err(ValidateError::EntrypointMissing { path: owned(m.entrypoint.as_str()) });
    }
    let rel = normalize_rel_path(m.entrypoint.as_str());
    if find_entry(files.as_slice(), rel.as_str()).is_none() {
        return Err(ValidateError::EntrypointExcluded { path: owned(m.entrypoint.as_str()) });
    }
    if let Some(k) = first_blank(m.commands.as_slice()) {
        return Err(ValidateError::EmptyCommand { name: owned(m.commands[k].0.as_str()) });
    }
    Ok((m, w))
}

/// The archive's file set once `harbor.lock` has been (re)written at
/// `lock_path`: any stale `harbor.lock` entry is dropped, the fresh one
/// added, and the whole sorted by archive path in byte order.
pub fn finalize_file_set(files: Vec<(String, String)>, lock_path: &str) -> (res: Vec<(String, String)>)
    ensures
        sorted_by_path(pair_views(res@)),
        pair_views(res@).to_multiset() == pair_views(files@).filter(
            |p: (Seq<char>, Seq<char>)| p.0 != "harbor.lock"@,
        ).push(("harbor.lock"@, lock_path@)).to_multiset(),
{
    let ghost all = pair_views(files@);
    let mut kept: Vec<(String, String)> = Vec::new();
    let mut i: usize = 0;
    proof {
        reveal(Seq::filter);
        assert(all.take(0) =~= Seq::<(Seq<char>, Seq<char>)>::empty());
        assert(pair_views(kept@) =~= all.take(0).filter(|p: (Seq<char>, Seq<char>)| p.0 != "harbor.lock"@));
    }
    while i < files.len()
        invariant
            i <= files@.len(),
            all == pair_views(files@),
            pair_views(kept@) == all.take(i as int).filter(|p: (Seq<char>, Seq<char>)| p.0 != "harbor.lock"@),
        decreases files.len() - i,
    {
        let ghost before = kept@;
        let is_lock = str_eq(files[i].0.as_str(), "harbor.lock");
        if !is_lock {
            kept.push((owned(files[i].0.as_str()), owned(files[i].1.as_str())));
        }
        proof {
            reveal(Seq::filter);
            let t = all.take(i + 1);
            assert(t.drop_last() =~= all.take(i as int));
            assert(t.last() == all[i as int]);
            assert(all[i as int].0 == files@[i as int].0@);
            if !is_lock {
                assert(pair_views(kept@) =~= pair_views(before).push(all[i as int]));
            } else {
                assert(pair_views(kept@) =~= pair_views(before));
            }
        }
        i = i + 1;
    }
    let ghost filtered = pair_views(kept@);
    kept.push((owned("harbor.lock"), owned(lock_path)));
    proof {
        assert(all.take(files@.len() as int) =~= all);
        assert(pair_views(kept@) =~= filtered.push(("harbor.lock"@, lock_path@)));
    }
    sort_by_archive_path(kept)
}

/// `<name>-<version>.harbor`, the default archive file name.
pub fn archive_file_name(name: &str, version: &str) -> (res: String)
    ensures
        res@ == name@ + "-"@ + version@ + ".harbor"@,
{
    let mut v = chars_of(name);
    extend_str(&mut v, "-");
    extend_str(&mut v, version);
    extend_str(&mut v, ".harbor");
    string_of(v.as_slice())
}

/// What a successful build produced.
#[derive(Debug, Clone, PartialEq, Eq)]
pub struct BuildOutcome {
    /// Path of the freshly built archive.
    pub archive_path: String,
    /// The `package-checksum` recorded in `harbor.lock`.
    pub package_checksum: String,
    /// Non-fatal manifest warnings.
    pub warnings: Vec<String>,
}

/// What a validation error says.
pub open spec fn validate_error_text(e: ValidateError) -> Seq<char> {
    match e {
        ValidateError::ManifestParse(m) => m@,
        ValidateError::ManifestValidation(m) => m@,
        ValidateError::LockfileParse(m) => "existing harbor.lock is malformed: "@ + m@,
        ValidateError::MissingRequiredFile { name } => "required file "@ + spec_debug_text(name@) + " is missing at the package root"@,
        ValidateError::EntrypointMissing { path } => "entrypoint "@ + spec_debug_text(path@) + " does not exist under the package root"@,
        ValidateError::EntrypointExcluded { path } => "entrypoint "@ + spec_debug_text(path@) + " is not in the package file set — it is either excluded by .gitignore or not a regular file (e.g. a symlink) — and cannot be packaged"@,
        ValidateError::EmptyCommand { name } => "[commands] entry "@ + spec_debug_text(name@) + " has an empty value; commands must be non-empty strings"@,
        ValidateError::Package(p) => package_error_text(p),
        ValidateError::LockfileGenerate(m) => "failed to generate harbor.lock: "@ + m@,
        ValidateError::Io { path, message } => "I/O error at "@ + path@ + ": "@ + message@,
    }
}

impl ValidateError {
    /// Human-readable description of the error.
    pub fn message(&self) -> (res: String)
        ensures
            res@ == validate_error_text(*self),
    {
        let mut v = chars_of("");
        proof {
            reveal_strlit("");
        }
        match self {
            ValidateError::ManifestParse(m) => {
                extend_str(&mut v, m.as_str());
            },
            ValidateError::ManifestValidation(m) => {
                extend_str(&mut v, m.as_str());
            },
            ValidateError::LockfileParse(m) => {
                extend_str(&mut v, "existing harbor.lock is malformed: ");
                extend_str(&mut v, m.as_str());
            },
            ValidateError::MissingRequiredFile { name } => {
                extend_str(&mut v, "required file ");
                extend_str(&mut v, debug_text(name.as_str()).as_str());
                extend_str(&mut v, " is missing at the package root");
            },
            ValidateError::EntrypointMissing { path } => {
                extend_str(&mut v, "entrypoint ");
                extend_str(&mut v, debug_text(path.as_str()).as_str());
                extend_str(&mut v, " does not exist under the package root");
            },
            ValidateError::EntrypointExcluded { path } => {
                extend_str(&mut v, "entrypoint ");
                extend_str(&mut v, debug_text(path.as_str()).as_str());
                extend_str(&mut v, " is not in the package file set — it is either excluded by .gitignore or not a regular file (e.g. a symlink) — and cannot be packaged");
            },
            ValidateError::EmptyCommand { name } => {
                extend_str(&mut v, "[commands] entry ");
                extend_str(&mut v, debug_text(name.as_str()).as_str());
                extend_str(&mut v, " has an empty value; commands must be non-empty strings");
            },
            ValidateError::Package(p) => {
                extend_str(&mut v, p.message().as_str());
            },
            ValidateError::LockfileGenerate(m) => {
                extend_str(&mut v, "failed to generate harbor.lock: ");
                extend_str(&mut v, m.as_str());
            },
            ValidateError::Io { path, message } => {
                extend_str(&mut v, "I/O error at ");
                extend_str(&mut v, path.as_str());
                extend_str(&mut v, ": ");
                extend_str(&mut v, message.as_str());
            },
        }
        string_of(v.as_slice())
    }
}

} // verus!
