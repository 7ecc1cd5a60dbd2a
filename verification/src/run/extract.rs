//! Safety rules for extracting archive entries (entry paths must be plain
//! relative paths). Writing the files is the caller's business.

use vstd::prelude::*;

use crate::cache::{join_path, path_join, path_starts_with, path_under};
use crate::text::{chars_of, debug_text, extend_str, has_suffix, owned, spec_debug_text, string_of};

verus! {

/// Errors while safely extracting a package's entries.
#[derive(Debug, Clone, PartialEq, Eq)]
pub enum ExtractError {
    /// An entry path is absolute, contains `..`, or is otherwise not a
    /// plain relative path; rejected before anything is written.
    UnsafePath { path: String },
    /// An entry would land outside the staging directory.
    PathEscapesDestination { path: String },
    /// Staging, writing or renaming failed.
    Io { path: String, message: String },
}

/// The path starts with a `.` component (`.` alone or `./...`).
pub open spec fn leading_cur_dir(p: Seq<char>) -> bool {
    p.len() > 0 && p[0] == '.' && (p.len() == 1 || p[1] == '/')
}

/// Some `/`-separated segment of `p` is exactly `..`.
pub open spec fn has_parent_segment(p: Seq<char>) -> bool {
    exists|i: int|
        #![trigger p[i], p[i + 1]]
        0 <= i && i + 1 < p.len() && p[i] == '.' && p[i + 1] == '.' && (i == 0 || p[i - 1] == '/')
            && (i + 2 == p.len() || p[i + 2] == '/')
}

/// An archive entry path is safe when it is non-empty, relative, and every
/// component `Path::components` yields is a plain name: no root, no
/// leading `.` component (later `.` and empty segments are dropped by
/// `Path`), and no `..`.
pub open spec fn path_safe(p: Seq<char>) -> bool {
    &&& p.len() > 0
    &&& p[0] != '/'
    &&& !leading_cur_dir(p)
    &&& !has_parent_segment(p)
}

fn safe_chars(v: &[char]) -> (res: bool)
    ensures
        res == path_safe(v@),
{
    let n = v.len();
    if n == 0 || v[0] == '/' {
        return false;
    }
    if v[0] == '.' && (n == 1 || v[1] == '/') {
        return false;
    }
    let mut i: usize = 0;
    while i < n - 1
        invariant
            n == v@.len(),
            n >= 1,
            forall|k: int|
                #![trigger v@[k], v@[k + 1]]
                0 <= k < i ==> !(k + 1 < n && v@[k] == '.' && v@[k + 1] == '.' && (k == 0 || v@[k - 1]
                    == '/') && (k + 2 == n || v@[k + 2] == '/')),
        decreases n - i,
    {
        if v[i] == '.' && v[i + 1] == '.' && (i == 0 || v[i - 1] == '/') && (i + 2 == n || v[i + 2]
            == '/') {
            return false;
        }
        i = i + 1;
    }
    assert(!has_parent_segment(v@)) by {
        if has_parent_segment(v@) {
            let k = choose|k: int|
                #![trigger v@[k], v@[k + 1]]
                0 <= k && k + 1 < v@.len() && v@[k] == '.' && v@[k + 1] == '.' && (k == 0 || v@[k
                    - 1] == '/') && (k + 2 == v@.len() || v@[k + 2] == '/');
            assert(k < i);
        }
    }
    true
}

/// Whether an archive-relative entry path is safe to extract.
pub fn is_path_safe(path: &str) -> (res: bool)
    ensures
        res == path_safe(path@),
{
    let v = chars_of(path);
    safe_chars(v.as_slice())
}

/// Checks every entry path before anything is written: `Ok` when all are
/// safe, else the first unsafe one.
pub fn check_entry_paths(paths: &[String]) -> (res: Result<(), ExtractError>)
    ensures
        res is Ok <==> forall|i: int| 0 <= i < paths@.len() ==> path_safe(#[trigger] paths@[i]@),
        res matches Err(e) ==> exists|i: int|
            0 <= i < paths@.len() && !path_safe(paths@[i]@) && (forall|j: int|
                0 <= j < i ==> path_safe(#[trigger] paths@[j]@)) && e == (ExtractError::UnsafePath {
                path: paths@[i],
            }),
{
    let mut i: usize = 0;
    while i < paths.len()
        invariant
            i <= paths@.len(),
            forall|j: int| 0 <= j < i ==> path_safe(#[trigger] paths@[j]@),
        decreases paths.len() - i,
    {
        if !is_path_safe(paths[i].as_str()) {
            return Err(ExtractError::UnsafePath { path: paths[i].clone() });
        }
        i = i + 1;
    }
    Ok(())
}

/// What an extraction error says.
pub open spec fn extract_error_text(e: ExtractError) -> Seq<char> {
    match e {
        ExtractError::UnsafePath { path } => "archive entry "@ + spec_debug_text(path@)
            + " has an unsafe path (absolute, or containing '..') and was rejected"@,
        ExtractError::PathEscapesDestination { path } => "archive entry "@ + spec_debug_text(path@)
            + " would extract outside the destination directory"@,
        ExtractError::Io { path, message } => "I/O error at "@ + path@ + ": "@ + message@,
    }
}

impl ExtractError {
    /// Human-readable description of the error.
    pub fn message(&self) -> (res: String)
        ensures
            res@ == extract_error_text(*self),
    {
        let mut v = chars_of("");
        proof {
            reveal_strlit("");
        }
        match self {
            ExtractError::UnsafePath { path } => {
                extend_str(&mut v, "archive entry ");
                extend_str(&mut v, debug_text(path.as_str()).as_str());
                extend_str(&mut v, " has an unsafe path (absolute, or containing '..') and was rejected");
            },
            ExtractError::PathEscapesDestination { path } => {
                extend_str(&mut v, "archive entry ");
                extend_str(&mut v, debug_text(path.as_str()).as_str());
                extend_str(&mut v, " would extract outside the destination directory");
            },
            ExtractError::Io { path, message } => {
                extend_str(&mut v, "I/O error at ");
                extend_str(&mut v, path.as_str());
                extend_str(&mut v, ": ");
                extend_str(&mut v, message.as_str());
            },
        }
        string_of(v.as_slice())
    }
}

/// `<staging_root>/extract-<suffix>`: a fresh scratch directory for one
/// extraction (`suffix` is unique per call).
pub fn staging_dir(staging_root: &str, suffix: &str) -> (res: String)
    ensures
        res@ == path_join(staging_root@, "extract-"@ + suffix@),
{
    let r = chars_of(staging_root);
    let name = crate::text::concat2("extract-", suffix);
    string_of(join_path(r.as_slice(), name.as_str()).as_slice())
}

/// Defence in depth while writing entry `path`: its parent directory, once
/// created and resolved (`canonical_parent`), must lie below the resolved
/// staging directory (`canonical_staging`).
pub fn check_confined(canonical_parent: &str, canonical_staging: &str, path: &str) -> (res: Result<(), ExtractError>)
    ensures
        res is Ok <==> path_under(canonical_parent@, canonical_staging@),
        res matches Err(e) ==> e matches ExtractError::PathEscapesDestination { path: p } && p@ == path@,
{
    let a = chars_of(canonical_parent);
    let b = chars_of(canonical_staging);
    if path_starts_with(a.as_slice(), b.as_slice()) {
        Ok(())
    } else {
        Err(ExtractError::PathEscapesDestination { path: owned(path) })
    }
}

/// A safe entry path joined to any directory `dir` stays below `dir`:
/// the result is `dir`, a separator, then the entry path itself, which
/// holds no `..` segment that could climb back out.
pub proof fn lemma_safe_entry_stays_under(dir: Seq<char>, p: Seq<char>)
    requires
        path_safe(p),
    ensures
        path_under(path_join(dir, p), dir),
        has_suffix(path_join(dir, p), p),
        path_join(dir, p) != dir,
{
    let j = path_join(dir, p);
    if dir.len() == 0 {
        assert(j == p);
        assert(j.subrange(0, 0) =~= Seq::<char>::empty());
        assert(j.subrange(0, j.len() as int) =~= p);
    } else if dir.last() == '/' {
        assert(j == dir + p);
        assert(j.subrange(0, dir.len() as int) =~= dir);
        assert(j.subrange(dir.len() as int, j.len() as int) =~= p);
    } else {
        assert(j == dir + seq!['/'] + p);
        assert(j.subrange(0, dir.len() as int) =~= dir);
        assert(j[dir.len() as int] == '/');
        assert(j.subrange(dir.len() as int + 1, j.len() as int) =~= p);
    }
}

} // verus!
