//! `harbor init`: the `harbor.toml` skeleton and how its package name is
//! chosen. Writing the files is the caller's business.

use vstd::prelude::*;

use crate::cache::path_join;
use crate::text::{
    chars_of, concat2, extend_str, is_ascii_digit, is_ascii_lower, owned, string_of,
};

verus! {

/// Placeholder package name used when the directory's name is unusable.
pub const PLACEHOLDER_NAME: &'static str = "my-package";

/// A character allowed in a package name: lowercase ASCII letter, digit,
/// `_` or `-`.
pub open spec fn name_char(c: char) -> bool {
    is_ascii_lower(c) || is_ascii_digit(c) || c == '_' || c == '-'
}

/// The package naming rule: 3 to 64 characters, each a [`name_char`].
/// (All allowed characters are ASCII, so counting characters and counting
/// bytes agree on every name that can pass.)
pub open spec fn valid_package_name(s: Seq<char>) -> bool {
    3 <= s.len() <= 64 && forall|i: int| 0 <= i < s.len() ==> name_char(#[trigger] s[i])
}

/// Executable `name_char`.
pub fn is_name_char(c: char) -> (res: bool)
    ensures
        res == name_char(c),
{
    ('a' <= c && c <= 'z') || ('0' <= c && c <= '9') || c == '_' || c == '-'
}

/// Whether the characters `v` form a valid package name.
pub fn valid_name_chars(v: &[char]) -> (res: bool)
    ensures
        res == valid_package_name(v@),
{
    if v.len() < 3 || v.len() > 64 {
        return false;
    }
    let mut i: usize = 0;
    while i < v.len()
        invariant
            i <= v@.len(),
            forall|j: int| 0 <= j < i ==> name_char(#[trigger] v@[j]),
        decreases v.len() - i,
    {
        if !is_name_char(v[i]) {
            return false;
        }
        i = i + 1;
    }
    true
}

/// Whether `name` satisfies the package naming rule.
pub fn is_valid_package_name(name: &str) -> (res: bool)
    ensures
        res == valid_package_name(name@),
{
    let v = chars_of(name);
    valid_name_chars(v.as_slice())
}

/// The `name = ...` part of the skeleton.
pub open spec fn init_name_line(name: Seq<char>, placeholder: bool) -> Seq<char> {
    if placeholder {
        "# TODO: choose a package name (lowercase letters/digits/_/-, 3-64 chars)\nname = \""@ + name
            + "\""@
    } else {
        "name = \""@ + name + "\""@
    }
}

/// Everything of the skeleton after the name line.
pub open spec fn init_manifest_tail() -> Seq<char> {
    "\nversion = \"0.1.0\"\n# TODO: describe your package\ndescription = \"TODO: describe your package\"\npackage-type = \"agent\"\nlanguage = \"python\"\nruntime = \">=3.11,<4\"\nentrypoint = \"src/main.py\"\nlicense = \"MIT\"\npermissions = []\nfeatures = []\n\n[author]\n# TODO: fill in your name and contact email\nname = \"TODO: Your Name\"\nemail = \"you@example.com\"\n\n[dependencies]\nmanifest = \"pyproject.toml\"\n"@
}

/// The `harbor.toml` skeleton text.
pub open spec fn init_manifest_text(name: Seq<char>, placeholder: bool) -> Seq<char> {
    "spec-version = 1\n"@ + init_name_line(name, placeholder) + init_manifest_tail()
}

/// Renders the `harbor.toml` skeleton: every required field gets a
/// default, and fields with no sensible default carry a `# TODO` comment.
pub fn render_manifest_toml(name: &str, name_is_placeholder: bool) -> (res: String)
    ensures
        res@ == init_manifest_text(name@, name_is_placeholder),
{
    let mut v: Vec<char> = Vec::new();
    extend_str(&mut v, "spec-version = 1\n");
    if name_is_placeholder {
        extend_str(
            &mut v,
            "# TODO: choose a package name (lowercase letters/digits/_/-, 3-64 chars)\nname = \"",
        );
    } else {
        extend_str(&mut v, "name = \"");
    }
    extend_str(&mut v, name);
    extend_str(&mut v, "\"");
    extend_str(
        &mut v,
        "\nversion = \"0.1.0\"\n# TODO: describe your package\ndescription = \"TODO: describe your package\"\npackage-type = \"agent\"\nlanguage = \"python\"\nruntime = \">=3.11,<4\"\nentrypoint = \"src/main.py\"\nlicense = \"MIT\"\npermissions = []\nfeatures = []\n\n[author]\n# TODO: fill in your name and contact email\nname = \"TODO: Your Name\"\nemail = \"you@example.com\"\n\n[dependencies]\nmanifest = \"pyproject.toml\"\n",
    );
    string_of(v.as_slice())
}

/// The package name for a directory whose final path component is
/// `dir_name` (`None` when it has none or it is not UTF-8): the component
/// itself when it satisfies the naming rule, else the placeholder. The
/// flag says whether the placeholder was used.
pub fn choose_package_name(dir_name: Option<&str>) -> (res: (String, bool))
    ensures
        match dir_name {
            Some(d) if valid_package_name(d@) => res.0@ == d@ && !res.1,
            _ => res.0@ == PLACEHOLDER_NAME@ && res.1,
        },
        valid_package_name(res.0@),
{
    proof {
        reveal_strlit("my-package");
    }
    match dir_name {
        Some(d) => {
            if is_valid_package_name(d) {
                (owned(d), false)
            } else {
                (owned(PLACEHOLDER_NAME), true)
            }
        },
        None => (owned(PLACEHOLDER_NAME), true),
    }
}

/// Errors while generating a package skeleton.
#[derive(Debug, Clone, PartialEq, Eq)]
pub enum InitError {
    /// `harbor.toml` already exists and `force` was not set; nothing is
    /// written.
    AlreadyExists { path: String },
    /// Writing a generated file failed.
    Io { path: String, message: String },
    /// The generated skeleton failed to parse, validate or serialize.
    InvalidSkeleton(String),
}

impl InitError {
    /// Human-readable description of the error.
    pub fn message(&self) -> (res: String)
        ensures
            match self {
                InitError::AlreadyExists { path } => res@ == path@
                    + " already exists; refusing to overwrite (pass --force to overwrite both harbor.toml and harbor.lock)"@,
                InitError::Io { path, message } => res@ == "I/O error writing "@ + path@ + ": "@
                    + message@,
                InitError::InvalidSkeleton(m) => res@
                    == "internal error: generated package skeleton is invalid: "@ + m@,
            },
    {
        match self {
            InitError::AlreadyExists { path } => concat2(
                path.as_str(),
                " already exists; refusing to overwrite (pass --force to overwrite both harbor.toml and harbor.lock)",
            ),
            InitError::Io { path, message } => {
                let mut v = chars_of("I/O error writing ");
                extend_str(&mut v, path.as_str());
                extend_str(&mut v, ": ");
                extend_str(&mut v, message.as_str());
                string_of(v.as_slice())
            },
            InitError::InvalidSkeleton(m) => concat2(
                "internal error: generated package skeleton is invalid: ",
                m.as_str(),
            ),
        }
    }
}

/// Paths and metadata of a generated skeleton.
#[derive(Debug, Clone, PartialEq, Eq)]
pub struct InitOutcome {
    pub manifest_path: String,
    pub lockfile_path: String,
    /// The `name` written into the generated `harbor.toml`.
    pub name: String,
    /// Whether `name` is the placeholder rather than the directory's name.
    pub name_is_placeholder: bool,
}

/// What `init` is about to write: the outcome it will report and the
/// manifest text.
#[derive(Debug, Clone, PartialEq, Eq)]
pub struct InitPlan {
    pub outcome: InitOutcome,
    pub manifest_toml: String,
}

/// Decides what `harbor init` does in directory `dir` (final component
/// `dir_name`), given whether `harbor.toml` already exists there: refuse
/// without `force`, otherwise plan both files with the chosen name.
pub fn plan_init(dir: &str, dir_name: Option<&str>, manifest_exists: bool, force: bool) -> (res: Result<InitPlan, InitError>)
    ensures
        manifest_exists && !force <==> res is Err,
        res matches Err(InitError::AlreadyExists { path }) ==> path@ == path_join(dir@, "harbor.toml"@),
        res is Err ==> res matches Err(InitError::AlreadyExists { .. }),
        res matches Ok(plan) ==> {
            &&& plan.outcome.manifest_path@ == path_join(dir@, "harbor.toml"@)
            &&& plan.outcome.lockfile_path@ == path_join(dir@, "harbor.lock"@)
            &&& valid_package_name(plan.outcome.name@)
            &&& match dir_name {
                Some(d) if valid_package_name(d@) => plan.outcome.name@ == d@
                    && !plan.outcome.name_is_placeholder,
                _ => plan.outcome.name@ == PLACEHOLDER_NAME@ && plan.outcome.name_is_placeholder,
            }
            &&& plan.manifest_toml@ == init_manifest_text(
                plan.outcome.name@,
                plan.outcome.name_is_placeholder,
            )
        },
{
    let d = chars_of(dir);
    let manifest_path = string_of(crate::cache::join_path(d.as_slice(), "harbor.toml").as_slice());
    let lockfile_path = string_of(crate::cache::join_path(d.as_slice(), "harbor.lock").as_slice());
    if manifest_exists && !force {
        return Err(InitError::AlreadyExists { path: manifest_path });
    }
    let (name, placeholder) = choose_package_name(dir_name);
    let manifest_toml = render_manifest_toml(name.as_str(), placeholder);
    Ok(
        InitPlan {
            outcome: InitOutcome { manifest_path, lockfile_path, name, name_is_placeholder: placeholder },
            manifest_toml,
        },
    )
}

/// A package name is valid exactly when it has 3 to 64 characters, each a
/// lower-case ASCII letter, an ASCII digit, `_` or `-`.
pub proof fn lemma_valid_package_name_chars(s: Seq<char>)
    ensures
        valid_package_name(s) <==> (3 <= s.len() <= 64 && forall|i: int|
            0 <= i < s.len() ==> ('a' <= #[trigger] s[i] <= 'z' || '0' <= s[i] <= '9' || s[i] == '_' || s[i]
                == '-')),
{
}

/// Every ASCII digit, every lower-case letter, `_` and `-` may appear in a
/// package name; nothing else may.
pub proof fn lemma_name_chars(c: char)
    ensures
        ('0' <= c <= '9') ==> name_char(c),
        ('a' <= c <= 'z') ==> name_char(c),
        name_char('_') && name_char('-'),
        name_char(c) ==> ('a' <= c <= 'z' || '0' <= c <= '9' || c == '_' || c == '-'),
{
}

} // verus!
