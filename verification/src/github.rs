//! GitHub import front end for `harbor add`: URL parsing, commit-SHA
//! parsing, tarball entry handling, language detection and manifest
//! inference. Running `git`/`curl`, reading files and writing the inferred
//! manifest are the caller's business; the decisions are made here.

use vstd::prelude::*;

use crate::cache::{lemma_github_package_dir_under_packages, nested4, path_join, path_under, HarborHome};
use crate::init::{valid_name_chars, valid_package_name};
use crate::manifest::{language_text, Language};
use crate::run::extract::{extract_error_text, is_path_safe, path_safe, ExtractError};
use crate::run::runtime::{check_constraint_syntax, constraint_syntax_ok};
use crate::text::{
    ascii_lower, chars_eq_str, chars_of, contains_char, debug_text, ends_with_str, extend_chars,
    extend_str, find_char, first_index_of, first_line, first_line_chars, first_word,
    first_word_chars, has_char, has_prefix, has_suffix, is_ascii_digit, is_ascii_lower, is_blank,
    lower_ascii, owned, slice_chars, spec_debug_text, starts_with_str, string_of, trim,
    trim_chars, all_ws,
};

verus! {

/// Errors while importing a GitHub repository.
#[derive(Debug, Clone, PartialEq, Eq)]
pub enum GithubError {
    /// The URL is not `https://github.com/<owner>/<repo>` (with an optional
    /// trailing `/` and `.git`), or a component is unsafe.
    InvalidUrl { url: String, reason: String },
    /// `git` or `curl` is not available.
    MissingDependency(String),
    /// `git ls-remote` failed; `message` is the process error.
    ResolveHead { owner: String, repo: String, message: String },
    /// `git ls-remote ... HEAD` did not start with a full commit SHA.
    UnexpectedHeadFormat { owner: String, repo: String, line: String },
    /// Downloading the tarball failed; `message` is the process error.
    Download { owner: String, repo: String, sha: String, message: String },
    /// A tarball entry's path is unsafe once the top-level directory is
    /// stripped.
    UnsafeTarEntry { path: String },
    /// Extraction failed.
    Extract(ExtractError),
    /// A `Cargo.toml` was found: no runtime manager exists for Rust.
    UnsupportedLanguage { language: String },
    /// No known project manifest at the repository root.
    UndetectedLanguage,
    /// The generated or existing `harbor.toml` failed to parse.
    ManifestParse(String),
    /// File collection or archive building failed.
    Package(String),
    /// `harbor.lock` generation failed.
    Lockfile(String),
    /// `.gitignore` would exclude `harbor.toml` from the archive.
    ManifestExcludedByGitignore,
    /// Any other I/O failure.
    Io { path: String, message: String },
}

/// A parsed `https://github.com/<owner>/<repo>` reference.
#[derive(Debug, Clone, PartialEq, Eq)]
pub struct RepoRef {
    pub owner: String,
    pub repo: String,
}

/// A text usable as one cache path component: non-empty, not `..`, not
/// starting with `.`, and free of `/` and `\`.
pub open spec fn safe_repo_component(s: Seq<char>) -> bool {
    &&& s.len() > 0
    &&& s != ".."@
    &&& s[0] != '.'
    &&& !has_char(s, '/')
    &&& !has_char(s, '\\')
}

/// Executable `safe_repo_component`.
pub fn is_safe_repo_component(s: &[char]) -> (res: bool)
    ensures
        res == safe_repo_component(s@),
{
    !(s.len() == 0) && !chars_eq_str(s, "..") && !(s[0] == '.') && !contains_char(s, '/')
        && !contains_char(s, '\\')
}

/// `s` without the suffix `suf` when it has it.
pub open spec fn strip_suffix_opt(s: Seq<char>, suf: Seq<char>) -> Seq<char> {
    if has_suffix(s, suf) {
        s.subrange(0, s.len() - suf.len())
    } else {
        s
    }
}

/// How `parse_github_url` treats `url`: the owner and repository, or the
/// reason for rejecting it.
pub open spec fn github_url_outcome(url: Seq<char>) -> Result<(Seq<char>, Seq<char>), Seq<char>> {
    if has_prefix(url, "http://"@) {
        Err("http is not supported; use https://"@)
    } else if !has_prefix(url, "https://"@) {
        Err("must start with https://"@)
    } else {
        let r1 = url.subrange(8, url.len() as int);
        if !has_prefix(r1, "github.com/"@) {
            Err("host must be github.com"@)
        } else {
            let r2 = r1.subrange(11, r1.len() as int);
            let r3 = strip_suffix_opt(r2, "/"@);
            let r4 = strip_suffix_opt(r3, ".git"@);
            match first_index_of(r4, '/') {
                None => Err("expected exactly https://github.com/<owner>/<repo>"@),
                Some(i) => {
                    let owner = r4.take(i);
                    let repo = r4.subrange(i + 1, r4.len() as int);
                    if has_char(repo, '/') {
                        Err("expected exactly https://github.com/<owner>/<repo>"@)
                    } else if !safe_repo_component(owner) {
                        Err("invalid owner "@ + spec_debug_text(owner))
                    } else if !safe_repo_component(repo) {
                        Err("invalid repo "@ + spec_debug_text(repo))
                    } else {
                        Ok((owner, repo))
                    }
                },
            }
        }
    }
}

/// What may follow `<owner>/<repo>` in an accepted URL: nothing, `/`,
/// `.git`, or `.git/`.
pub open spec fn github_url_tail(t: Seq<char>) -> bool {
    t == Seq::<char>::empty() || t == "/"@ || t == ".git"@ || t == ".git/"@
}

proof fn lemma_strip_suffix_parts(s: Seq<char>, suf: Seq<char>) -> (t: Seq<char>)
    ensures
        s == strip_suffix_opt(s, suf) + t,
        t == suf || t == Seq::<char>::empty(),
{
    if has_suffix(s, suf) {
        let k: int = s.len() - suf.len();
        assert(s =~= s.subrange(0, k) + s.subrange(k, s.len() as int));
        suf
    } else {
        assert(s =~= s + Seq::<char>::empty());
        Seq::<char>::empty()
    }
}

/// An accepted GitHub URL names a safe owner and repository (non-empty,
/// not starting with `.`, free of `/` and `\`), and is exactly
/// `https://github.com/<owner>/<repo>` followed by nothing, `/`, `.git` or
/// `.git/`.
pub proof fn lemma_github_url_parts(url: Seq<char>, owner: Seq<char>, repo: Seq<char>)
    requires
        github_url_outcome(url) == Ok::<(Seq<char>, Seq<char>), Seq<char>>((owner, repo)),
    ensures
        safe_repo_component(owner),
        safe_repo_component(repo),
        exists|t: Seq<char>| #[trigger] github_url_tail(t) && url == "https://github.com/"@ + owner + "/"@ + repo + t,
{
    reveal_strlit("https://");
    reveal_strlit("github.com/");
    reveal_strlit("https://github.com/");
    reveal_strlit("/");
    reveal_strlit(".git");
    reveal_strlit(".git/");
    reveal_strlit("http://");
    let r1 = url.subrange(8, url.len() as int);
    let r2 = r1.subrange(11, r1.len() as int);
    let r3 = strip_suffix_opt(r2, "/"@);
    let r4 = strip_suffix_opt(r3, ".git"@);
    assert(has_prefix(url, "https://"@) && has_prefix(r1, "github.com/"@));
    assert(first_index_of(r4, '/') is Some);
    crate::text::lemma_first_index_of_found(r4, '/');
    let i = first_index_of(r4, '/')->0;
    assert(0 <= i < r4.len() && r4[i] == '/');
    assert(owner == r4.take(i) && repo == r4.subrange(i + 1, r4.len() as int));
    assert(safe_repo_component(owner) && safe_repo_component(repo));
    assert(r4 =~= owner + "/"@ + repo);
    let t2 = lemma_strip_suffix_parts(r2, "/"@);
    let t1 = lemma_strip_suffix_parts(r3, ".git"@);
    let t = t1 + t2;
    assert(github_url_tail(t)) by {
        if t1 == ".git"@ {
            if t2 == "/"@ {
                assert(t =~= ".git/"@);
            } else {
                assert(t =~= ".git"@);
            }
        } else {
            if t2 == "/"@ {
                assert(t =~= "/"@);
            } else {
                assert(t =~= Seq::<char>::empty());
            }
        }
    }
    assert(r2 =~= r4 + t);
    assert(url =~= "https://github.com/"@ + r2) by {
        assert(url =~= url.subrange(0, 8) + r1);
        assert(url.subrange(0, 8) =~= "https://"@);
        assert(r1 =~= r1.subrange(0, 11) + r2);
        assert(r1.subrange(0, 11) =~= "github.com/"@);
    }
    assert(url =~= "https://github.com/"@ + owner + "/"@ + repo + t);
}

fn strip_suffix_chars(v: Vec<char>, suf: &str) -> (res: Vec<char>)
    ensures
        res@ == strip_suffix_opt(v@, suf@),
{
    if ends_with_str(v.as_slice(), suf) {
        let n = chars_of(suf).len();
        slice_chars(v.as_slice(), 0, v.len() - n)
    } else {
        v
    }
}

fn invalid_url(url: &str, reason: String) -> (res: GithubError)
    ensures
        res == (GithubError::InvalidUrl { url: res->url, reason }),
        res->url@ == url@,
{
    GithubError::InvalidUrl { url: owned(url), reason }
}

/// Parses `https://github.com/<owner>/<repo>`, accepting one trailing `/`
/// and then a `.git` suffix. Rejects other schemes, other hosts, extra path
/// segments, and unsafe or empty components.
pub fn parse_github_url(url: &str) -> (res: Result<RepoRef, GithubError>)
    ensures
        match res {
            Ok(r) => github_url_outcome(url@) == Ok::<_, Seq<char>>((r.owner@, r.repo@)),
            Err(GithubError::InvalidUrl { url: u, reason }) => u@ == url@ && github_url_outcome(
                url@,
            ) == Err::<(Seq<char>, Seq<char>), _>(reason@),
            Err(_) => false,
        },
{
    let v = chars_of(url);
    if starts_with_str(v.as_slice(), "http://") {
        return Err(invalid_url(url, owned("http is not supported; use https://")));
    }
    if !starts_with_str(v.as_slice(), "https://") {
        return Err(invalid_url(url, owned("must start with https://")));
    }
    proof {
        reveal_strlit("https://");
        reveal_strlit("github.com/");
    }
    let r1 = slice_chars(v.as_slice(), 8, v.len());
    if !starts_with_str(r1.as_slice(), "github.com/") {
        return Err(invalid_url(url, owned("host must be github.com")));
    }
    let r2 = slice_chars(r1.as_slice(), 11, r1.len());
    let r3 = strip_suffix_chars(r2, "/");
    let r4 = strip_suffix_chars(r3, ".git");
    match find_char(r4.as_slice(), '/') {
        None => Err(invalid_url(url, owned("expected exactly https://github.com/<owner>/<repo>"))),
        Some(i) => {
            let owner = slice_chars(r4.as_slice(), 0, i);
            let repo = slice_chars(r4.as_slice(), i + 1, r4.len());
            assert(owner@ == r4@.take(i as int));
            if contains_char(repo.as_slice(), '/') {
                return Err(
                    invalid_url(url, owned("expected exactly https://github.com/<owner>/<repo>")),
                );
            }
            if !is_safe_repo_component(owner.as_slice()) {
                let o = string_of(owner.as_slice());
                let d = debug_text(o.as_str());
                let mut reason = chars_of("invalid owner ");
                extend_str(&mut reason, d.as_str());
                return Err(invalid_url(url, string_of(reason.as_slice())));
            }
            if !is_safe_repo_component(repo.as_slice()) {
                let o = string_of(repo.as_slice());
                let d = debug_text(o.as_str());
                let mut reason = chars_of("invalid repo ");
                extend_str(&mut reason, d.as_str());
                return Err(invalid_url(url, string_of(reason.as_slice())));
            }
            Ok(RepoRef { owner: string_of(owner.as_slice()), repo: string_of(repo.as_slice()) })
        },
    }
}

/// A lowercase hexadecimal digit.
pub open spec fn lower_hex_char(c: char) -> bool {
    is_ascii_digit(c) || ('a' <= c && c <= 'f')
}

/// A full Git commit SHA-1: exactly 40 lowercase hexadecimal characters.
/// (Those are ASCII, so 40 characters is also 40 bytes.)
pub open spec fn commit_sha(s: Seq<char>) -> bool {
    s.len() == 40 && forall|i: int| 0 <= i < s.len() ==> lower_hex_char(#[trigger] s[i])
}

fn commit_sha_chars(v: &[char]) -> (res: bool)
    ensures
        res == commit_sha(v@),
{
    if v.len() != 40 {
        return false;
    }
    let mut i: usize = 0;
    while i < v.len()
        invariant
            i <= v@.len(),
            forall|j: int| 0 <= j < i ==> lower_hex_char(#[trigger] v@[j]),
        decreases v.len() - i,
    {
        let c = v[i];
        if !(('0' <= c && c <= '9') || ('a' <= c && c <= 'f')) {
            return false;
        }
        i = i + 1;
    }
    true
}

/// Whether `s` is exactly 40 lowercase hexadecimal characters.
pub fn is_valid_commit_sha(s: &str) -> (res: bool)
    ensures
        res == commit_sha(s@),
{
    let v = chars_of(s);
    commit_sha_chars(v.as_slice())
}

/// The SHA in `git ls-remote <url> HEAD` output: the first word of its
/// trimmed first line.
pub open spec fn ls_remote_head_line(stdout: Seq<char>) -> Seq<char> {
    trim(first_line(stdout))
}

/// Reads the commit SHA of `HEAD` out of `git ls-remote <url> HEAD` output.
/// The first line is trimmed and its first word must be a full commit SHA;
/// otherwise the error carries the trimmed line.
pub fn parse_ls_remote_head(owner: &str, repo: &str, stdout: &str) -> (res: Result<String, GithubError>)
    ensures
        commit_sha(first_word(ls_remote_head_line(stdout@))) <==> res is Ok,
        res matches Ok(sha) ==> sha@ == first_word(ls_remote_head_line(stdout@)),
        res matches Err(e) ==> e matches GithubError::UnexpectedHeadFormat { owner: o, repo: r, line }
            && o@ == owner@ && r@ == repo@ && line@ == ls_remote_head_line(stdout@),
{
    let v = chars_of(stdout);
    let first = first_line_chars(v.as_slice());
    let line = trim_chars(first.as_slice());
    let sha = first_word_chars(line.as_slice());
    if !commit_sha_chars(sha.as_slice()) {
        return Err(
            GithubError::UnexpectedHeadFormat {
                owner: owned(owner),
                repo: owned(repo),
                line: string_of(line.as_slice()),
            },
        );
    }
    Ok(string_of(sha.as_slice()))
}

/// `path` without its first component (`<repo>-<sha>/`), or nothing when
/// there is no `/` or nothing after it.
pub open spec fn strip_top(path: Seq<char>) -> Option<Seq<char>> {
    match first_index_of(path, '/') {
        Some(i) => if i + 1 < path.len() {
            Some(path.subrange(i + 1, path.len() as int))
        } else {
            None
        },
        None => None,
    }
}

/// Strips the top-level directory GitHub tarballs wrap every entry in.
pub fn strip_top_level_component(path: &str) -> (res: Option<String>)
    ensures
        match res {
            Some(s) => strip_top(path@) == Some(s@),
            None => strip_top(path@) is None,
        },
{
    let v = chars_of(path);
    match find_char(v.as_slice(), '/') {
        Some(i) => if v.len() - i > 1 {
            Some(string_of(slice_chars(v.as_slice(), i + 1, v.len()).as_slice()))
        } else {
            None
        },
        None => None,
    }
}

/// The kinds of tar entries the importer distinguishes.
#[derive(Debug, Clone, Copy, PartialEq, Eq)]
pub enum TarEntryKind {
    Regular,
    Directory,
    Symlink,
    Other,
}

/// What to do with one GitHub tarball entry.
#[derive(Debug, Clone, PartialEq, Eq)]
pub enum EntryAction {
    /// Read its contents and keep it under this (stripped) path.
    Keep(String),
    /// Skip it silently.
    Skip,
    /// Skip it with a warning (symlinks); carries the stripped path.
    SkipSymlink(String),
}

/// Decides what happens to a GitHub tarball entry: the top-level directory
/// is stripped (the top-level entry itself is skipped); regular files and
/// directories must have safe paths, else the import fails; symlinks are
/// skipped with a warning; other entry types are ignored.
pub fn classify_tarball_entry(kind: TarEntryKind, raw_path: &str) -> (res: Result<EntryAction, GithubError>)
    ensures
        match strip_top(raw_path@) {
            None => res == Ok::<EntryAction, GithubError>(EntryAction::Skip),
            Some(p) => match kind {
                TarEntryKind::Regular => if path_safe(p) {
                    res matches Ok(EntryAction::Keep(q)) && q@ == p
                } else {
                    res matches Err(GithubError::UnsafeTarEntry { path }) && path@ == p
                },
                TarEntryKind::Directory => if path_safe(p) {
                    res == Ok::<EntryAction, GithubError>(EntryAction::Skip)
                } else {
                    res matches Err(GithubError::UnsafeTarEntry { path }) && path@ == p
                },
                TarEntryKind::Symlink => res matches Ok(EntryAction::SkipSymlink(q)) && q@ == p,
                TarEntryKind::Other => res == Ok::<EntryAction, GithubError>(EntryAction::Skip),
            },
        },
{
    let stripped = match strip_top_level_component(raw_path) {
        Some(s) => s,
        None => return Ok(EntryAction::Skip),
    };
    match kind {
        TarEntryKind::Regular => {
            if !is_path_safe(stripped.as_str()) {
                return Err(GithubError::UnsafeTarEntry { path: stripped });
            }
            Ok(EntryAction::Keep(stripped))
        },
        TarEntryKind::Directory => {
            if !is_path_safe(stripped.as_str()) {
                return Err(GithubError::UnsafeTarEntry { path: stripped });
            }
            Ok(EntryAction::Skip)
        },
        TarEntryKind::Symlink => Ok(EntryAction::SkipSymlink(stripped)),
        TarEntryKind::Other => Ok(EntryAction::Skip),
    }
}

/// Which language marker files exist at the repository root.
#[derive(Debug, Clone, Copy, PartialEq, Eq)]
pub struct LanguageMarkers {
    pub pyproject_toml: bool,
    pub package_json: bool,
    pub cargo_toml: bool,
}

/// Detects a checkout's language by marker precedence: `pyproject.toml`
/// (Python), then `package.json` (Node), then `Cargo.toml` (Rust, which
/// has no runtime manager and is refused by name).
pub fn detect_language(markers: &LanguageMarkers) -> (res: Result<Language, GithubError>)
    ensures
        markers.pyproject_toml ==> res == Ok::<Language, GithubError>(Language::Python),
        !markers.pyproject_toml && markers.package_json ==> res == Ok::<Language, GithubError>(
            Language::Node,
        ),
        !markers.pyproject_toml && !markers.package_json && markers.cargo_toml ==> (res matches Err(
            GithubError::UnsupportedLanguage { language },
        ) && language@ == "rust"@),
        !markers.pyproject_toml && !markers.package_json && !markers.cargo_toml ==> res
            == Err::<Language, GithubError>(GithubError::UndetectedLanguage),
{
    if markers.pyproject_toml {
        Ok(Language::Python)
    } else if markers.package_json {
        Ok(Language::Node)
    } else if markers.cargo_toml {
        Err(GithubError::UnsupportedLanguage { language: owned("rust") })
    } else {
        Err(GithubError::UndetectedLanguage)
    }
}

/// The manifest label of a language.
pub fn language_label(language: Language) -> (res: String)
    ensures
        res@ == language_text(language),
{
    language.label()
}

/// The Python runtime constraint: `requires-python` from `[project]` when
/// present and not blank, else `>=3.9`.
pub open spec fn python_runtime(requires_python: Option<Seq<char>>) -> Seq<char> {
    match requires_python {
        Some(r) if !all_ws(r) => r,
        _ => ">=3.9"@,
    }
}

/// Infers a Python project's runtime constraint from its `requires-python`
/// value (`None` when `pyproject.toml` is missing, unparseable or has no
/// such value).
pub fn infer_python_runtime(requires_python: Option<&str>) -> (res: String)
    ensures
        res@ == python_runtime(
            match requires_python {
                Some(r) => Some(r@),
                None => None,
            },
        ),
{
    match requires_python {
        Some(r) => {
            let v = chars_of(r);
            if is_blank(v.as_slice()) {
                owned(">=3.9")
            } else {
                owned(r)
            }
        },
        None => owned(">=3.9"),
    }
}

/// Candidate Python entrypoints, in order of preference.
pub open spec fn python_candidate(i: int) -> Seq<char> {
    if i == 0 {
        "main.py"@
    } else if i == 1 {
        "src/main.py"@
    } else if i == 2 {
        "app.py"@
    } else {
        "src/app.py"@
    }
}

/// The conventional Python entrypoint locations, in order of preference.
pub fn python_entrypoint_candidates() -> (res: Vec<String>)
    ensures
        res@.len() == 4,
        forall|i: int| 0 <= i < 4 ==> #[trigger] res@[i]@ == python_candidate(i),
{
    let mut v = Vec::new();
    v.push(owned("main.py"));
    v.push(owned("src/main.py"));
    v.push(owned("app.py"));
    v.push(owned("src/app.py"));
    v
}

/// The Python entrypoint: the first candidate that exists (`present[i]`
/// says whether candidate `i` is a file), else `PLEASE_EDIT_entrypoint.py`.
pub open spec fn python_entrypoint(present: Seq<bool>) -> Seq<char> {
    if present.len() > 0 && present[0] {
        python_candidate(0)
    } else if present.len() > 1 && present[1] {
        python_candidate(1)
    } else if present.len() > 2 && present[2] {
        python_candidate(2)
    } else if present.len() > 3 && present[3] {
        python_candidate(3)
    } else {
        "PLEASE_EDIT_entrypoint.py"@
    }
}

/// Chooses the Python entrypoint from which candidates exist.
pub fn infer_python_entrypoint(present: &[bool]) -> (res: String)
    ensures
        res@ == python_entrypoint(present@),
{
    if present.len() > 0 && present[0] {
        owned("main.py")
    } else if present.len() > 1 && present[1] {
        owned("src/main.py")
    } else if present.len() > 2 && present[2] {
        owned("app.py")
    } else if present.len() > 3 && present[3] {
        owned("src/app.py")
    } else {
        owned("PLEASE_EDIT_entrypoint.py")
    }
}

/// The Node runtime constraint: `engines.node` when present, not blank and
/// of a supported syntax, else `>=18`.
pub open spec fn node_runtime(engines_node: Option<Seq<char>>) -> Seq<char> {
    match engines_node {
        Some(c) if !all_ws(c) && constraint_syntax_ok(c) => c,
        _ => ">=18"@,
    }
}

/// Infers a Node project's runtime constraint from `engines.node` in
/// `package.json` (`None` when absent or unreadable).
pub fn infer_node_runtime(engines_node: Option<&str>) -> (res: String)
    ensures
        res@ == node_runtime(
            match engines_node {
                Some(c) => Some(c@),
                None => None,
            },
        ),
{
    match engines_node {
        Some(c) => {
            let v = chars_of(c);
            if is_blank(v.as_slice()) {
                return owned(">=18");
            }
            if check_constraint_syntax(c).is_ok() {
                owned(c)
            } else {
                owned(">=18")
            }
        },
        None => owned(">=18"),
    }
}

/// The Node entrypoint: `package.json`'s `main` when that file exists,
/// else `index.js`, else `src/index.js`, else `PLEASE_EDIT_entrypoint.js`.
pub open spec fn node_entrypoint(
    main: Option<Seq<char>>,
    main_exists: bool,
    index_js: bool,
    src_index_js: bool,
) -> Seq<char> {
    match main {
        Some(m) if main_exists => m,
        _ => if index_js {
            "index.js"@
        } else if src_index_js {
            "src/index.js"@
        } else {
            "PLEASE_EDIT_entrypoint.js"@
        },
    }
}

/// Chooses the Node entrypoint.
pub fn infer_node_entrypoint(main: Option<&str>, main_exists: bool, index_js: bool, src_index_js: bool) -> (res: String)
    ensures
        res@ == node_entrypoint(
            match main {
                Some(m) => Some(m@),
                None => None,
            },
            main_exists,
            index_js,
            src_index_js,
        ),
{
    match main {
        Some(m) => {
            if main_exists {
                return owned(m);
            }
        },
        None => {},
    }
    if index_js {
        owned("index.js")
    } else if src_index_js {
        owned("src/index.js")
    } else {
        owned("PLEASE_EDIT_entrypoint.js")
    }
}

/// Slug character: lower-cased, and `-` for anything outside `[a-z0-9_-]`.
pub open spec fn slug_char(c: char) -> char {
    let l = ascii_lower(c);
    if is_ascii_lower(l) || is_ascii_digit(l) || l == '_' || l == '-' {
        l
    } else {
        '-'
    }
}

/// `s` with every run of `-` collapsed to one `-`; `prev_dash` says whether
/// the text already emitted ends with `-`.
pub open spec fn collapse_dashes(s: Seq<char>, prev_dash: bool) -> Seq<char>
    decreases s.len(),
{
    if s.len() == 0 {
        Seq::empty()
    } else if s[0] == '-' {
        if prev_dash {
            collapse_dashes(s.drop_first(), true)
        } else {
            seq!['-'] + collapse_dashes(s.drop_first(), true)
        }
    } else {
        seq![s[0]] + collapse_dashes(s.drop_first(), false)
    }
}

/// Number of leading `-` of `s`.
pub open spec fn lead_dash(s: Seq<char>) -> nat
    decreases s.len(),
{
    if s.len() > 0 && s[0] == '-' {
        1 + lead_dash(s.drop_first())
    } else {
        0
    }
}

/// Number of trailing `-` of `s`.
pub open spec fn trail_dash(s: Seq<char>) -> nat
    decreases s.len(),
{
    if s.len() > 0 && s.last() == '-' {
        1 + trail_dash(s.drop_last())
    } else {
        0
    }
}

/// `s` without leading and trailing `-` (`trim_matches('-')`).
pub open spec fn trim_dashes(s: Seq<char>) -> Seq<char> {
    if lead_dash(s) == s.len() {
        Seq::empty()
    } else {
        s.subrange(lead_dash(s) as int, s.len() - trail_dash(s))
    }
}

/// The slug of a raw name: map each character with `slug_char`, collapse
/// runs of `-`, trim `-` at both ends.
pub open spec fn slug(raw: Seq<char>) -> Seq<char> {
    trim_dashes(collapse_dashes(raw.map_values(|c: char| slug_char(c)), false))
}

fn slug_char_exec(c: char) -> (res: char)
    ensures
        res == slug_char(c),
{
    let l = lower_ascii(c);
    if ('a' <= l && l <= 'z') || ('0' <= l && l <= '9') || l == '_' || l == '-' {
        l
    } else {
        '-'
    }
}

proof fn lemma_collapse_step(s: Seq<char>, k: int, prev: bool)
    requires
        0 <= k < s.len(),
    ensures
        collapse_dashes(s.take(k + 1), prev) == collapse_dashes(s.take(k), prev) + (if s[k] == '-'
            && (if k == 0 {
            prev
        } else {
            s[k - 1] == '-'
        }) {
            Seq::<char>::empty()
        } else {
            seq![s[k]]
        }),
    decreases k,
{
    let t = s.drop_first();
    let p2 = s[0] == '-';
    let head: Seq<char> = if s[0] == '-' && prev {
        Seq::empty()
    } else {
        seq![s[0]]
    };
    let a = s.take(k + 1);
    assert(a[0] == s[0]);
    assert(a.drop_first() =~= t.take(k));
    assert(collapse_dashes(a, prev) == head + collapse_dashes(t.take(k), p2));
    if k == 0 {
        assert(s.take(0) =~= Seq::<char>::empty());
        assert(t.take(0) =~= Seq::<char>::empty());
        assert(collapse_dashes(t.take(0), p2) =~= Seq::<char>::empty());
        assert(collapse_dashes(s.take(0), prev) =~= Seq::<char>::empty());
        assert(head + Seq::<char>::empty() =~= head);
        assert(Seq::<char>::empty() + head =~= head);
    } else {
        let b = s.take(k);
        assert(b[0] == s[0]);
        assert(b.drop_first() =~= t.take(k - 1));
        assert(collapse_dashes(b, prev) == head + collapse_dashes(t.take(k - 1), p2));
        lemma_collapse_step(t, k - 1, p2);
        assert(t[k - 1] == s[k]);
        if k >= 2 {
            assert(t[k - 2] == s[k - 1]);
        }
        let x: Seq<char> = if s[k] == '-' && (if k == 0 {
            prev
        } else {
            s[k - 1] == '-'
        }) {
            Seq::empty()
        } else {
            seq![s[k]]
        };
        assert(collapse_dashes(t.take(k), p2) == collapse_dashes(t.take(k - 1), p2) + x);
        assert(head + (collapse_dashes(t.take(k - 1), p2) + x) =~= (head + collapse_dashes(
            t.take(k - 1),
            p2,
        )) + x);
    }
}

proof fn lemma_lead_dash(s: Seq<char>, k: int)
    requires
        0 <= k <= s.len(),
        forall|j: int| 0 <= j < k ==> s[j] == '-',
        k == s.len() || s[k] != '-',
    ensures
        lead_dash(s) == k,
    decreases k,
{
    if k > 0 {
        lemma_lead_dash(s.drop_first(), k - 1);
    }
}

proof fn lemma_trail_dash(s: Seq<char>, k: int)
    requires
        0 <= k <= s.len(),
        forall|j: int| s.len() - k <= j < s.len() ==> s[j] == '-',
        k == s.len() || s[s.len() - k - 1] != '-',
    ensures
        trail_dash(s) == k,
    decreases k,
{
    if k > 0 {
        lemma_trail_dash(s.drop_last(), k - 1);
    }
}

/// Slugifies a raw string into the package-name charset: lowercase every
/// character, replace anything outside `[a-z0-9_-]` with `-`, collapse runs
/// of `-`, and trim `-` at both ends.
pub fn slugify_name(raw: &str) -> (res: String)
    ensures
        res@ == slug(raw@),
{
    let v = chars_of(raw);
    let ghost mapped = v@.map_values(|c: char| slug_char(c));
    let mut collapsed: Vec<char> = Vec::new();
    let mut prev_dash = false;
    for i in 0..v.len()
        invariant
            mapped == v@.map_values(|c: char| slug_char(c)),
            collapsed@ == collapse_dashes(mapped.take(i as int), false),
            prev_dash == (i > 0 && mapped[i - 1] == '-'),
    {
        let c = slug_char_exec(v[i]);
        proof {
            lemma_collapse_step(mapped, i as int, false);
        }
        if c == '-' {
            if !prev_dash {
                collapsed.push('-');
            }
            prev_dash = true;
        } else {
            collapsed.push(c);
            prev_dash = false;
        }
    }
    assert(mapped.take(v@.len() as int) =~= mapped);
    // trim '-' at both ends
    let n = collapsed.len();
    let mut a: usize = 0;
    while a < n && collapsed[a] == '-'
        invariant
            n == collapsed@.len(),
            a <= n,
            forall|j: int| 0 <= j < a ==> collapsed@[j] == '-',
        decreases n - a,
    {
        a = a + 1;
    }
    proof {
        lemma_lead_dash(collapsed@, a as int);
    }
    if a == n {
        return String::new();
    }
    let mut b: usize = 0;
    while b < n - a && collapsed[n - 1 - b] == '-'
        invariant
            n == collapsed@.len(),
            a < n,
            b <= n - a,
            forall|j: int| n - b <= j < n ==> collapsed@[j] == '-',
        decreases n - b,
    {
        b = b + 1;
    }
    proof {
        if b == n - a {
            assert(collapsed@[a as int] == '-');
            assert(false);
        }
        lemma_trail_dash(collapsed@, b as int);
    }
    string_of(slice_chars(collapsed.as_slice(), a, n - b).as_slice())
}

/// The package name derived from a repository name: its slug when that is
/// a valid package name, else `imported-package`.
pub open spec fn derived_name(repo_name: Seq<char>) -> Seq<char> {
    if valid_package_name(slug(repo_name)) {
        slug(repo_name)
    } else {
        "imported-package"@
    }
}

/// Derives a package `name` from a repository name. The result always
/// satisfies the package naming rule.
pub fn derive_package_name(repo_name: &str) -> (res: String)
    ensures
        res@ == derived_name(repo_name@),
        valid_package_name(res@),
{
    proof {
        reveal_strlit("imported-package");
    }
    let candidate = slugify_name(repo_name);
    let cv = chars_of(candidate.as_str());
    if valid_name_chars(cv.as_slice()) {
        candidate
    } else {
        owned("imported-package")
    }
}

/// The inferred `harbor.toml` text.
pub open spec fn import_manifest_text(
    name: Seq<char>,
    description: Seq<char>,
    language: Language,
    runtime: Seq<char>,
    entrypoint: Seq<char>,
    dep_manifest: Seq<char>,
    dep_lockfile: Option<Seq<char>>,
) -> Seq<char> {
    "spec-version = 1\n"@ + "name = \""@ + name + "\"\n"@ + "version = \"0.0.0\"\n"@
        + "description = \""@ + description + "\"\n"@ + "package-type = \"agent\"\n"@
        + "language = \""@ + language_text(language) + "\"\n"@ + "runtime = \""@ + runtime
        + "\"\n"@ + "entrypoint = \""@ + entrypoint + "\"\n"@ + "license = \"PLEASE_EDIT\"\n"@
        + "permissions = []\n"@ + "features = []\n"@ + "\n"@ + "[author]\n"@
        + "name = \"PLEASE_EDIT\"\n"@ + "email = \"please-edit@example.invalid\"\n"@ + "\n"@
        + "[dependencies]\n"@ + "manifest = \""@ + dep_manifest + "\"\n"@ + match dep_lockfile {
        Some(l) => "lockfile = \""@ + l + "\"\n"@,
        None => Seq::empty(),
    }
}

/// Renders the inferred `harbor.toml`: inferred fields are filled in, the
/// rest carry `PLEASE_EDIT` placeholders.
pub fn render_manifest_toml(
    name: &str,
    description: &str,
    language: Language,
    runtime: &str,
    entrypoint: &str,
    dep_manifest: &str,
    dep_lockfile: Option<&str>,
) -> (res: String)
    ensures
        res@ == import_manifest_text(
            name@,
            description@,
            language,
            runtime@,
            entrypoint@,
            dep_manifest@,
            match dep_lockfile {
                Some(l) => Some(l@),
                None => None,
            },
        ),
{
    let mut s: Vec<char> = Vec::new();
    extend_str(&mut s, "spec-version = 1\n");
    extend_str(&mut s, "name = \"");
    extend_str(&mut s, name);
    extend_str(&mut s, "\"\n");
    extend_str(&mut s, "version = \"0.0.0\"\n");
    extend_str(&mut s, "description = \"");
    extend_str(&mut s, description);
    extend_str(&mut s, "\"\n");
    extend_str(&mut s, "package-type = \"agent\"\n");
    extend_str(&mut s, "language = \"");
    let label = language.label();
    extend_str(&mut s, label.as_str());
    extend_str(&mut s, "\"\n");
    extend_str(&mut s, "runtime = \"");
    extend_str(&mut s, runtime);
    extend_str(&mut s, "\"\n");
    extend_str(&mut s, "entrypoint = \"");
    extend_str(&mut s, entrypoint);
    extend_str(&mut s, "\"\n");
    extend_str(&mut s, "license = \"PLEASE_EDIT\"\n");
    extend_str(&mut s, "permissions = []\n");
    extend_str(&mut s, "features = []\n");
    extend_str(&mut s, "\n");
    extend_str(&mut s, "[author]\n");
    extend_str(&mut s, "name = \"PLEASE_EDIT\"\n");
    extend_str(&mut s, "email = \"please-edit@example.invalid\"\n");
    extend_str(&mut s, "\n");
    extend_str(&mut s, "[dependencies]\n");
    extend_str(&mut s, "manifest = \"");
    extend_str(&mut s, dep_manifest);
    extend_str(&mut s, "\"\n");
    let ghost before = s@;
    match dep_lockfile {
        Some(l) => {
            extend_str(&mut s, "lockfile = \"");
            extend_str(&mut s, l);
            extend_str(&mut s, "\"\n");
        },
        None => {
            assert(s@ == before + Seq::<char>::empty());
        },
    }
    string_of(s.as_slice())
}

/// `Imported from https://github.com/<owner>/<repo> at <sha>`.
pub open spec fn import_description(owner: Seq<char>, repo: Seq<char>, sha: Seq<char>) -> Seq<char> {
    "Imported from https://github.com/"@ + owner + "/"@ + repo + " at "@ + sha
}

/// What the importer found in a checkout, read by the caller from disk.
#[derive(Debug, Clone, PartialEq, Eq)]
pub struct CheckoutFacts {
    /// The text of the checkout's own `harbor.toml`, when it has one.
    pub existing_manifest: Option<String>,
    pub markers: LanguageMarkers,
    /// `[project].requires-python` of `pyproject.toml`, if readable.
    pub requires_python: Option<String>,
    /// Whether each of [`python_entrypoint_candidates`] is a file.
    pub python_entrypoints: Vec<bool>,
    /// Whether `uv.lock` is a file.
    pub uv_lock: bool,
    /// `package.json`'s `main`, if readable.
    pub package_main: Option<String>,
    /// Whether that `main` file exists.
    pub package_main_exists: bool,
    /// `package.json`'s `engines.node`, if readable.
    pub engines_node: Option<String>,
    /// Whether `index.js` is a file.
    pub index_js: bool,
    /// Whether `src/index.js` is a file.
    pub src_index_js: bool,
    /// Whether `package-lock.json` is a file.
    pub package_lock: bool,
}

pub open spec fn opt_view(o: Option<String>) -> Option<Seq<char>> {
    match o {
        Some(s) => Some(s@),
        None => None,
    }
}

/// The manifest the importer infers for a checkout of `owner/repo` at
/// `sha`, or the language-detection error.
pub open spec fn inferred_manifest(owner: Seq<char>, repo: Seq<char>, sha: Seq<char>, f: CheckoutFacts) -> Option<Seq<char>> {
    let name = derived_name(repo);
    let desc = import_description(owner, repo, sha);
    if f.markers.pyproject_toml {
        Some(
            import_manifest_text(
                name,
                desc,
                Language::Python,
                python_runtime(opt_view(f.requires_python)),
                python_entrypoint(f.python_entrypoints@),
                "pyproject.toml"@,
                if f.uv_lock {
                    Some("uv.lock"@)
                } else {
                    None
                },
            ),
        )
    } else if f.markers.package_json {
        Some(
            import_manifest_text(
                name,
                desc,
                Language::Node,
                node_runtime(opt_view(f.engines_node)),
                node_entrypoint(
                    opt_view(f.package_main),
                    f.package_main_exists,
                    f.index_js,
                    f.src_index_js,
                ),
                "package.json"@,
                if f.package_lock {
                    Some("package-lock.json"@)
                } else {
                    None
                },
            ),
        )
    } else {
        None
    }
}

/// The `harbor.toml` text for a checkout of `repo` at `sha`. A checkout
/// that already has one keeps it as it is; otherwise it is inferred from
/// what is on disk: language by marker precedence, runtime and entrypoint
/// by each language's conventions, the native lockfile when present, a
/// name derived from the repository name, and placeholders for the rest.
pub fn infer_manifest_text(repo: &RepoRef, sha: &str, facts: &CheckoutFacts) -> (res: Result<String, GithubError>)
    ensures
        facts.existing_manifest matches Some(c) ==> res matches Ok(s) && s@ == c@,
        facts.existing_manifest is None ==> match inferred_manifest(repo.owner@, repo.repo@, sha@, *facts) {
            Some(t) => res matches Ok(s) && s@ == t,
            None => if facts.markers.cargo_toml {
                res matches Err(GithubError::UnsupportedLanguage { language }) && language@ == "rust"@
            } else {
                res == Err::<String, GithubError>(GithubError::UndetectedLanguage)
            },
        },
        facts.existing_manifest is Some || facts.markers.pyproject_toml || facts.markers.package_json ==> res is Ok,
{
    if let Some(c) = &facts.existing_manifest {
        return Ok(owned(c.as_str()));
    }
    let language = detect_language(&facts.markers)?;
    let name = derive_package_name(repo.repo.as_str());
    let mut d = chars_of("Imported from https://github.com/");
    extend_str(&mut d, repo.owner.as_str());
    extend_str(&mut d, "/");
    extend_str(&mut d, repo.repo.as_str());
    extend_str(&mut d, " at ");
    extend_str(&mut d, sha);
    let description = string_of(d.as_slice());
    match language {
        Language::Python => {
            let rp = match &facts.requires_python {
                Some(r) => Some(r.as_str()),
                None => None,
            };
            let runtime = infer_python_runtime(rp);
            let entry = infer_python_entrypoint(facts.python_entrypoints.as_slice());
            let lock = if facts.uv_lock {
                Some("uv.lock")
            } else {
                None
            };
            Ok(
                render_manifest_toml(
                    name.as_str(),
                    description.as_str(),
                    Language::Python,
                    runtime.as_str(),
                    entry.as_str(),
                    "pyproject.toml",
                    lock,
                ),
            )
        },
        Language::Node => {
            let en = match &facts.engines_node {
                Some(e) => Some(e.as_str()),
                None => None,
            };
            let runtime = infer_node_runtime(en);
            let main = match &facts.package_main {
                Some(m) => Some(m.as_str()),
                None => None,
            };
            let entry = infer_node_entrypoint(
                main,
                facts.package_main_exists,
                facts.index_js,
                facts.src_index_js,
            );
            let lock = if facts.package_lock {
                Some("package-lock.json")
            } else {
                None
            };
            Ok(
                render_manifest_toml(
                    name.as_str(),
                    description.as_str(),
                    Language::Node,
                    runtime.as_str(),
                    entry.as_str(),
                    "package.json",
                    lock,
                ),
            )
        },
    }
}

/// Checks an imported checkout's collected file set before its archive
/// is built: `harbor.toml` must be among the packaged paths (a
/// `.gitignore` rule could exclude it).
pub fn check_import_files(paths: &[String]) -> (res: Result<(), GithubError>)
    ensures
        res is Ok <==> exists|i: int| 0 <= i < paths@.len() && #[trigger] paths@[i]@ == "harbor.toml"@,
        res is Err ==> res == Err::<(), GithubError>(GithubError::ManifestExcludedByGitignore),
{
    match crate::run::find_entry(paths, "harbor.toml") {
        Some(_) => Ok(()),
        None => Err(GithubError::ManifestExcludedByGitignore),
    }
}

/// The outcome of a GitHub import.
#[derive(Debug, Clone, PartialEq, Eq)]
pub struct ImportOutcome {
    pub repo: RepoRef,
    pub sha: String,
    pub package_dir: String,
    /// Whether this commit had been fully imported before, so nothing was
    /// rebuilt.
    pub from_cache: bool,
}

/// A GitHub import is confined to the package cache: for any URL that
/// `parse_github_url` accepts and any full commit SHA, the package
/// directory lies below `<root>/packages`.
pub proof fn lemma_import_confined(home: HarborHome, url: Seq<char>, sha: Seq<char>)
    requires
        github_url_outcome(url) is Ok,
        commit_sha(sha),
    ensures
        ({
            let (owner, repo) = github_url_outcome(url)->Ok_0;
            path_under(nested4(home@, "packages"@, "github"@, owner, repo, sha), path_join(home@, "packages"@))
        }),
{
    let (owner, repo) = github_url_outcome(url)->Ok_0;
    assert(safe_repo_component(owner) && safe_repo_component(repo));
    assert(owner[0] != '/') by {
        assert(!has_char(owner, '/'));
    }
    assert(repo[0] != '/') by {
        assert(!has_char(repo, '/'));
    }
    assert(lower_hex_char(sha[0]));
    lemma_github_package_dir_under_packages(home, owner, repo, sha);
}

impl RepoRef {
    /// `https://github.com/<owner>/<repo>.git`, the remote `git ls-remote`
    /// asks for `HEAD`.
    pub fn git_url(&self) -> (res: String)
        ensures
            res@ == "https://github.com/"@ + self.owner@ + "/"@ + self.repo@ + ".git"@,
    {
        let mut v = chars_of("https://github.com/");
        extend_str(&mut v, self.owner.as_str());
        extend_str(&mut v, "/");
        extend_str(&mut v, self.repo.as_str());
        extend_str(&mut v, ".git");
        string_of(v.as_slice())
    }

    /// `https://codeload.github.com/<owner>/<repo>/tar.gz/<sha>`, the
    /// tarball of the repository at commit `sha`.
    pub fn tarball_url(&self, sha: &str) -> (res: String)
        ensures
            res@ == "https://codeload.github.com/"@ + self.owner@ + "/"@ + self.repo@ + "/tar.gz/"@ + sha@,
    {
        let mut v = chars_of("https://codeload.github.com/");
        extend_str(&mut v, self.owner.as_str());
        extend_str(&mut v, "/");
        extend_str(&mut v, self.repo.as_str());
        extend_str(&mut v, "/tar.gz/");
        extend_str(&mut v, sha);
        string_of(v.as_slice())
    }

    /// `<owner>-<repo>-<sha>.tar.gz`, the downloaded tarball's file name.
    pub fn tarball_file_name(&self, sha: &str) -> (res: String)
        ensures
            res@ == self.owner@ + "-"@ + self.repo@ + "-"@ + sha@ + ".tar.gz"@,
    {
        let mut v = chars_of(self.owner.as_str());
        extend_str(&mut v, "-");
        extend_str(&mut v, self.repo.as_str());
        extend_str(&mut v, "-");
        extend_str(&mut v, sha);
        extend_str(&mut v, ".tar.gz");
        string_of(v.as_slice())
    }
}

/// What a GitHub import error says.
pub open spec fn github_error_text(e: GithubError) -> Seq<char> {
    match e {
        GithubError::InvalidUrl { url, reason } => "invalid GitHub repository URL "@ + spec_debug_text(url@) + ": "@ + reason@,
        GithubError::MissingDependency(tool) => tool@ + " is required for `harbor add` but was not found (or is not executable) in PATH"@,
        GithubError::ResolveHead { owner, repo, message } => "failed to resolve the default branch for "@ + owner@ + "/"@ + repo@ + ": "@ + message@,
        GithubError::UnexpectedHeadFormat { owner, repo, line } => "`git ls-remote` for "@ + owner@ + "/"@ + repo@ + " returned an unexpected HEAD line: "@ + spec_debug_text(line@),
        GithubError::Download { owner, repo, sha, message } => "failed to download "@ + owner@ + "/"@ + repo@ + " at "@ + sha@ + ": "@ + message@,
        GithubError::UnsafeTarEntry { path } => "GitHub archive entry "@ + spec_debug_text(path@) + " has an unsafe path after stripping the top-level directory and was rejected"@,
        GithubError::Extract(x) => extract_error_text(x),
        GithubError::UnsupportedLanguage { language } => "unsupported language ("@ + language@ + "): no runtime manager exists for this language in V1"@,
        GithubError::UndetectedLanguage => "could not detect project language: no recognized project manifest (pyproject.toml, package.json, ...) found at the repository root"@,
        GithubError::ManifestParse(m) => m@,
        GithubError::Package(m) => m@,
        GithubError::Lockfile(m) => m@,
        GithubError::ManifestExcludedByGitignore => "harbor.toml would be excluded from the package archive by .gitignore; cannot build a valid import — remove or adjust the .gitignore rule that excludes it"@,
        GithubError::Io { path, message } => "I/O error at "@ + path@ + ": "@ + message@,
    }
}

impl GithubError {
    /// Human-readable description of the error.
    pub fn message(&self) -> (res: String)
        ensures
            res@ == github_error_text(*self),
    {
        let mut v = chars_of("");
        proof {
            reveal_strlit("");
        }
        match self {
            GithubError::InvalidUrl { url, reason } => {
                extend_str(&mut v, "invalid GitHub repository URL ");
                extend_str(&mut v, debug_text(url.as_str()).as_str());
                extend_str(&mut v, ": ");
                extend_str(&mut v, reason.as_str());
            },
            GithubError::MissingDependency(tool) => {
                extend_str(&mut v, tool.as_str());
                extend_str(&mut v, " is required for `harbor add` but was not found (or is not executable) in PATH");
            },
            GithubError::ResolveHead { owner, repo, message } => {
                extend_str(&mut v, "failed to resolve the default branch for ");
                extend_str(&mut v, owner.as_str());
                extend_str(&mut v, "/");
                extend_str(&mut v, repo.as_str());
                extend_str(&mut v, ": ");
                extend_str(&mut v, message.as_str());
            },
            GithubError::UnexpectedHeadFormat { owner, repo, line } => {
                extend_str(&mut v, "`git ls-remote` for ");
                extend_str(&mut v, owner.as_str());
                extend_str(&mut v, "/");
                extend_str(&mut v, repo.as_str());
                extend_str(&mut v, " returned an unexpected HEAD line: ");
                extend_str(&mut v, debug_text(line.as_str()).as_str());
            },
            GithubError::Download { owner, repo, sha, message } => {
                extend_str(&mut v, "failed to download ");
                extend_str(&mut v, owner.as_str());
                extend_str(&mut v, "/");
                extend_str(&mut v, repo.as_str());
                extend_str(&mut v, " at ");
                extend_str(&mut v, sha.as_str());
                extend_str(&mut v, ": ");
                extend_str(&mut v, message.as_str());
            },
            GithubError::UnsafeTarEntry { path } => {
                extend_str(&mut v, "GitHub archive entry ");
                extend_str(&mut v, debug_text(path.as_str()).as_str());
                extend_str(&mut v, " has an unsafe path after stripping the top-level directory and was rejected");
            },
            GithubError::Extract(x) => {
                extend_str(&mut v, x.message().as_str());
            },
            GithubError::UnsupportedLanguage { language } => {
                extend_str(&mut v, "unsupported language (");
                extend_str(&mut v, language.as_str());
                extend_str(&mut v, "): no runtime manager exists for this language in V1");
            },
            GithubError::UndetectedLanguage => {
                extend_str(&mut v, "could not detect project language: no recognized project manifest (pyproject.toml, package.json, ...) found at the repository root");
            },
            GithubError::ManifestParse(m) => {
                extend_str(&mut v, m.as_str());
            },
            GithubError::Package(m) => {
                extend_str(&mut v, m.as_str());
            },
            GithubError::Lockfile(m) => {
                extend_str(&mut v, m.as_str());
            },
            GithubError::ManifestExcludedByGitignore => {
                extend_str(&mut v, "harbor.toml would be excluded from the package archive by .gitignore; cannot build a valid import — remove or adjust the .gitignore rule that excludes it");
            },
            GithubError::Io { path, message } => {
                extend_str(&mut v, "I/O error at ");
                extend_str(&mut v, path.as_str());
                extend_str(&mut v, ": ");
                extend_str(&mut v, message.as_str());
            },
        }
        string_of(v.as_slice())
    }
}

/// The inferred Python entrypoint is the first candidate that exists, in
/// the fixed order `main.py`, `src/main.py`, `app.py`, `src/app.py`.
pub proof fn lemma_python_entrypoint_is_first_present(present: Seq<bool>, i: int)
    requires
        0 <= i < 4,
        i < present.len(),
        present[i],
        forall|j: int| 0 <= j < i ==> !present[j],
    ensures
        python_entrypoint(present) == seq!["main.py"@, "src/main.py"@, "app.py"@, "src/app.py"@][i],
{
    if i >= 1 {
        assert(!present[0]);
    }
    if i >= 2 {
        assert(!present[1]);
    }
    if i >= 3 {
        assert(!present[2]);
    }
}

/// When `package.json` names a main file that exists, the inferred Node
/// entrypoint is that file, whatever `index.js` or `src/index.js` exist.
pub proof fn lemma_node_main_wins(m: Seq<char>, index_js: bool, src_index_js: bool)
    ensures
        node_entrypoint(Some(m), true, index_js, src_index_js) == m,
{
}

/// Without a usable `main`, `index.js` is preferred over `src/index.js`.
pub proof fn lemma_node_index_order(main: Option<Seq<char>>, main_exists: bool, src_index_js: bool)
    requires
        !(main is Some && main_exists),
    ensures
        node_entrypoint(main, main_exists, true, src_index_js) == "index.js"@,
        node_entrypoint(main, main_exists, false, true) == "src/index.js"@,
{
}

} // verus!
