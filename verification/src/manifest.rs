//! The parts of a package manifest (`harbor.toml`) that the pipelines in
//! this library read.
//!
//! Parsing the TOML text into a [`Manifest`] is done by the caller (a serde
//! parse); the library works on the parsed values.

use vstd::prelude::*;

use crate::text::owned;

verus! {

/// Implementation language of a package.
#[derive(Debug, Clone, Copy, PartialEq, Eq)]
pub enum Language {
    Python,
    Node,
}

/// The manifest label of a language.
pub open spec fn language_text(l: Language) -> Seq<char> {
    match l {
        Language::Python => "python"@,
        Language::Node => "node"@,
    }
}

impl Language {
    /// The manifest label (`"python"` or `"node"`).
    pub fn label(&self) -> (res: String)
        ensures
            res@ == language_text(*self),
    {
        match self {
            Language::Python => owned("python"),
            Language::Node => owned("node"),
        }
    }
}

/// What kind of program a package is.
#[derive(Debug, Clone, Copy, PartialEq, Eq)]
pub enum PackageType {
    Agent,
    Mcp,
}

/// The manifest label of a package type.
pub open spec fn package_type_text(t: PackageType) -> Seq<char> {
    match t {
        PackageType::Agent => "agent"@,
        PackageType::Mcp => "mcp"@,
    }
}

impl PackageType {
    /// The manifest label (`"agent"` or `"mcp"`).
    pub fn label(&self) -> (res: String)
        ensures
            res@ == package_type_text(*self),
    {
        match self {
            PackageType::Agent => owned("agent"),
            PackageType::Mcp => owned("mcp"),
        }
    }
}

/// The `[dependencies]` table: the native dependency manifest and,
/// optionally, the native lockfile to install from.
#[derive(Debug, Clone, PartialEq, Eq)]
pub struct Dependencies {
    pub manifest: String,
    pub lockfile: Option<String>,
}

/// The manifest fields the run, build and import pipelines read.
#[derive(Debug, Clone, PartialEq, Eq)]
pub struct Manifest {
    pub name: String,
    pub version: String,
    pub description: String,
    pub package_type: PackageType,
    pub language: Language,
    pub runtime: String,
    pub entrypoint: String,
    pub license: String,
    pub permissions: Vec<String>,
    pub features: Vec<String>,
    /// Operating systems the package supports; empty means all.
    pub os: Vec<String>,
    /// The `[commands]` table, as `(name, command line)` pairs.
    pub commands: Vec<(String, String)>,
    pub dependencies: Dependencies,
}

/// The language labels are fixed (`python`, `node`) and tell the
/// languages apart: no two languages share a label.
pub proof fn lemma_language_labels(a: Language, b: Language)
    ensures
        language_text(Language::Python) == "python"@,
        language_text(Language::Node) == "node"@,
        language_text(a) == language_text(b) ==> a == b,
{
    reveal_strlit("python");
    reveal_strlit("node");
    if a != b {
        assert(language_text(Language::Python)[0] != language_text(Language::Node)[0]);
    }
}

} // verus!
