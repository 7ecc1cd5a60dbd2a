//! Local cache layout for the Harbor home directory (`~/.harbor/`).
//!
//! [`HarborHome`] only computes paths; creating the directories is the
//! caller's business. Packages and environments are namespaced by source:
//! `local/<name>/<version>`, `registry/<owner>/<name>/<version>` and
//! `github/<owner>/<repo>/<sha>`. Grant state lives under `permissions/`,
//! never under `packages/`, so a package cannot ship its own grants.

use vstd::prelude::*;

use crate::text::{
    chars_eq, chars_of, concat2, extend_chars, first_index_of, has_prefix, owned, slice_chars, starts_with, string_of,
};

verus! {

/// `Path::join` on text paths: an absolute component replaces the base,
/// an empty base yields the component, and otherwise exactly one `/`
/// separates the two.
pub open spec fn path_join(base: Seq<char>, comp: Seq<char>) -> Seq<char> {
    if comp.len() > 0 && comp[0] == '/' {
        comp
    } else if base.len() == 0 {
        comp
    } else if base.last() == '/' {
        base + comp
    } else {
        base + seq!['/'] + comp
    }
}

/// `p` is `base` or lies below it, comparing whole path components
/// (`Path::starts_with` for paths without `.` or empty components).
pub open spec fn path_under(p: Seq<char>, base: Seq<char>) -> bool {
    if base.len() == 0 {
        p.len() == 0 || p[0] != '/'
    } else {
        p == base || (has_prefix(p, base) && (base.last() == '/' || p[base.len() as int] == '/'))
    }
}

/// A relative path component (it cannot replace the base when joined).
pub open spec fn relative(c: Seq<char>) -> bool {
    c.len() == 0 || c[0] != '/'
}

/// Executable `path_join`.
pub fn join_path(base: &[char], comp: &str) -> (res: Vec<char>)
    ensures
        res@ == path_join(base@, comp@),
{
    let c = chars_of(comp);
    if c.len() > 0 && c[0] == '/' {
        return c;
    }
    if base.len() == 0 {
        return c;
    }
    let mut res = slice_chars(base, 0, base.len());
    assert(res@ == base@);
    if base[base.len() - 1] != '/' {
        res.push('/');
    }
    extend_chars(&mut res, c.as_slice());
    res
}

/// Executable `path_under`.
pub fn path_starts_with(p: &[char], base: &[char]) -> (res: bool)
    ensures
        res == path_under(p@, base@),
{
    if base.len() == 0 {
        return p.len() == 0 || p[0] != '/';
    }
    if chars_eq(p, base) {
        return true;
    }
    if !starts_with(p, base) {
        return false;
    }
    if base[base.len() - 1] == '/' {
        return true;
    }
    if p.len() == base.len() {
        assert(p@ =~= base@);
        return false;
    }
    p[base.len()] == '/'
}

/// Errors while locating the Harbor home directory.
#[derive(Debug, Clone, PartialEq, Eq)]
pub enum CacheError {
    /// No home directory could be determined for the current user.
    NoHomeDir,
}

impl CacheError {
    /// Human-readable description of the error.
    pub fn message(&self) -> (res: String)
        ensures
            res@ == "could not determine the current user's home directory; set the HOME environment variable or pass an explicit harbor home path"@,
    {
        owned(
            "could not determine the current user's home directory; set the HOME environment variable or pass an explicit harbor home path",
        )
    }
}

/// The current user's home directory (`dirs::home_dir`), lossily rendered
/// as text. The answer depends on the environment and the OS account
/// database, so nothing is stated about it.
#[verifier::external_body]
fn user_home_dir() -> Option<String> {
    dirs::home_dir().map(|p| p.to_string_lossy().into_owned())
}

/// The Harbor home directory and its standard sub-paths.
#[derive(Debug, Clone, PartialEq, Eq)]
pub struct HarborHome {
    root: String,
}

impl View for HarborHome {
    type V = Seq<char>;

    closed spec fn view(&self) -> Seq<char> {
        self.root@
    }
}

pub open spec fn sub(home: Seq<char>, name: Seq<char>) -> Seq<char> {
    path_join(home, name)
}

/// `<root>/<top>/<ns>/<a>/<b>`.
pub open spec fn nested3(root: Seq<char>, top: Seq<char>, ns: Seq<char>, a: Seq<char>, b: Seq<char>) -> Seq<char> {
    path_join(path_join(path_join(path_join(root, top), ns), a), b)
}

/// `<root>/<top>/<ns>/<a>/<b>/<c>`.
pub open spec fn nested4(
    root: Seq<char>,
    top: Seq<char>,
    ns: Seq<char>,
    a: Seq<char>,
    b: Seq<char>,
    c: Seq<char>,
) -> Seq<char> {
    path_join(nested3(root, top, ns, a, b), c)
}

impl HarborHome {
    /// Resolves the default Harbor home directory: `$HOME/.harbor`.
    /// Which home directory that is comes from the environment; the only
    /// failure is that none can be determined.
    pub fn resolve() -> (res: Result<HarborHome, CacheError>)
        ensures
            res matches Ok(h) ==> exists|home: Seq<char>| h@ == path_join(home, ".harbor"@),
            res matches Err(e) ==> e == CacheError::NoHomeDir,
    {
        let home = user_home_dir();
        match home {
            Some(h) => HarborHome::from_home_dir(Some(h.as_str())),
            None => HarborHome::from_home_dir(None),
        }
    }

    /// The Harbor home for a given user home directory: `<home>/.harbor`,
    /// or `NoHomeDir` when there is no home directory.
    pub fn from_home_dir(home: Option<&str>) -> (res: Result<HarborHome, CacheError>)
        ensures
            home matches Some(h) ==> (res matches Ok(r) && r@ == path_join(h@, ".harbor"@)),
            home is None ==> res == Err::<HarborHome, CacheError>(CacheError::NoHomeDir),
    {
        match home {
            Some(h) => {
                let hv = chars_of(h);
                let r = join_path(hv.as_slice(), ".harbor");
                Ok(HarborHome { root: string_of(r.as_slice()) })
            },
            None => Err(CacheError::NoHomeDir),
        }
    }

    /// A `HarborHome` rooted at an explicit path.
    pub fn at(path: &str) -> (res: HarborHome)
        ensures
            res@ == path@,
    {
        HarborHome { root: owned(path) }
    }

    /// The Harbor home root directory.
    pub fn root(&self) -> (res: &str)
        ensures
            res@ == self@,
    {
        self.root.as_str()
    }

    fn child(&self, name: &str) -> (res: String)
        ensures
            res@ == path_join(self@, name@),
    {
        let r = chars_of(self.root.as_str());
        string_of(join_path(r.as_slice(), name).as_slice())
    }

    /// `<root>/packages`: downloaded and extracted packages.
    pub fn packages(&self) -> (res: String)
        ensures
            res@ == path_join(self@, "packages"@),
    {
        self.child("packages")
    }

    /// `<root>/runtimes`: managed language runtimes.
    pub fn runtimes(&self) -> (res: String)
        ensures
            res@ == path_join(self@, "runtimes"@),
    {
        self.child("runtimes")
    }

    /// `<root>/envs`: isolated per-package environments.
    pub fn envs(&self) -> (res: String)
        ensures
            res@ == path_join(self@, "envs"@),
    {
        self.child("envs")
    }

    /// `<root>/models`: downloaded models.
    pub fn models(&self) -> (res: String)
        ensures
            res@ == path_join(self@, "models"@),
    {
        self.child("models")
    }

    /// `<root>/logs`: operation logs.
    pub fn logs(&self) -> (res: String)
        ensures
            res@ == path_join(self@, "logs"@),
    {
        self.child("logs")
    }

    /// `<root>/tmp`: scratch space.
    pub fn tmp(&self) -> (res: String)
        ensures
            res@ == path_join(self@, "tmp"@),
    {
        self.child("tmp")
    }

    /// `<root>/credentials.toml`: the stored registry credential.
    pub fn credentials_path(&self) -> (res: String)
        ensures
            res@ == path_join(self@, "credentials.toml"@),
    {
        self.child("credentials.toml")
    }

    /// `<root>/<top>/<ns>/<a>/<b>`.
    fn nested(&self, top: &str, ns: &str, a: &str, b: &str) -> (res: String)
        ensures
            res@ == nested3(self@, top@, ns@, a@, b@),
    {
        let r = chars_of(self.root.as_str());
        let p1 = join_path(r.as_slice(), top);
        let p2 = join_path(p1.as_slice(), ns);
        let p3 = join_path(p2.as_slice(), a);
        let p4 = join_path(p3.as_slice(), b);
        string_of(p4.as_slice())
    }

    /// `<root>/<top>/<ns>/<a>/<b>/<c>`.
    fn nested_deep(&self, top: &str, ns: &str, a: &str, b: &str, c: &str) -> (res: String)
        ensures
            res@ == nested4(self@, top@, ns@, a@, b@, c@),
    {
        let p = self.nested(top, ns, a, b);
        let pv = chars_of(p.as_str());
        string_of(join_path(pv.as_slice(), c).as_slice())
    }

    /// `packages/local/<name>/<version>`.
    pub fn local_package_dir(&self, name: &str, version: &str) -> (res: String)
        ensures
            res@ == nested3(self@, "packages"@, "local"@, name@, version@),
    {
        self.nested("packages", "local", name, version)
    }

    /// `envs/local/<name>/<version>`.
    pub fn local_env_dir(&self, name: &str, version: &str) -> (res: String)
        ensures
            res@ == nested3(self@, "envs"@, "local"@, name@, version@),
    {
        self.nested("envs", "local", name, version)
    }

    /// `permissions/local/<name>/<version>.toml`.
    pub fn local_grants_path(&self, name: &str, version: &str) -> (res: String)
        ensures
            res@ == nested3(self@, "permissions"@, "local"@, name@, version@ + ".toml"@),
    {
        let file = concat2(version, ".toml");
        self.nested("permissions", "local", name, file.as_str())
    }

    /// `packages/registry/<owner>/<name>/<version>`.
    pub fn registry_package_dir(&self, owner: &str, name: &str, version: &str) -> (res: String)
        ensures
            res@ == nested4(self@, "packages"@, "registry"@, owner@, name@, version@),
    {
        self.nested_deep("packages", "registry", owner, name, version)
    }

    /// `envs/registry/<owner>/<name>/<version>`.
    pub fn registry_env_dir(&self, owner: &str, name: &str, version: &str) -> (res: String)
        ensures
            res@ == nested4(self@, "envs"@, "registry"@, owner@, name@, version@),
    {
        self.nested_deep("envs", "registry", owner, name, version)
    }

    /// `permissions/registry/<owner>/<name>/<version>.toml`.
    pub fn registry_grants_path(&self, owner: &str, name: &str, version: &str) -> (res: String)
        ensures
            res@ == nested4(self@, "permissions"@, "registry"@, owner@, name@, version@ + ".toml"@),
    {
        let file = concat2(version, ".toml");
        self.nested_deep("permissions", "registry", owner, name, file.as_str())
    }

    /// `packages/github/<owner>/<repo>/<sha>`.
    pub fn github_package_dir(&self, owner: &str, repo: &str, sha: &str) -> (res: String)
        ensures
            res@ == nested4(self@, "packages"@, "github"@, owner@, repo@, sha@),
    {
        self.nested_deep("packages", "github", owner, repo, sha)
    }

    /// `envs/github/<owner>/<repo>/<sha>`.
    pub fn github_env_dir(&self, owner: &str, repo: &str, sha: &str) -> (res: String)
        ensures
            res@ == nested4(self@, "envs"@, "github"@, owner@, repo@, sha@),
    {
        self.nested_deep("envs", "github", owner, repo, sha)
    }

    /// `permissions/github/<owner>/<repo>/<sha>.toml`.
    pub fn github_grants_path(&self, owner: &str, repo: &str, sha: &str) -> (res: String)
        ensures
            res@ == nested4(self@, "permissions"@, "github"@, owner@, repo@, sha@ + ".toml"@),
    {
        let file = concat2(sha, ".toml");
        self.nested_deep("permissions", "github", owner, repo, file.as_str())
    }

    /// The seven directories that make up the cache layout, root first
    /// (`root`, `packages`, `runtimes`, `envs`, `models`, `logs`, `tmp`).
    /// `credentials.toml` is never among them.
    pub fn layout_dirs(&self) -> (res: Vec<String>)
        ensures
            res@.len() == 7,
            res@[0]@ == self@,
            res@[1]@ == path_join(self@, "packages"@),
            res@[2]@ == path_join(self@, "runtimes"@),
            res@[3]@ == path_join(self@, "envs"@),
            res@[4]@ == path_join(self@, "models"@),
            res@[5]@ == path_join(self@, "logs"@),
            res@[6]@ == path_join(self@, "tmp"@),
    {
        let mut v: Vec<String> = Vec::new();
        v.push(owned(self.root.as_str()));
        v.push(self.packages());
        v.push(self.runtimes());
        v.push(self.envs());
        v.push(self.models());
        v.push(self.logs());
        v.push(self.tmp());
        v
    }
}


/// Joining a relative component keeps every prefix of a non-empty base.
proof fn lemma_join_keeps_prefix(b: Seq<char>, c: Seq<char>, q: Seq<char>)
    requires
        relative(c),
        b.len() > 0,
        has_prefix(b, q),
    ensures
        has_prefix(path_join(b, c), q),
        path_join(b, c).len() >= b.len(),
{
    let r = path_join(b, c);
    assert(r.subrange(0, b.len() as int) =~= b);
    assert(r.subrange(0, q.len() as int) =~= b.subrange(0, q.len() as int));
}

/// The text before a top-level name joined onto `root`.
spec fn join_lead(root: Seq<char>) -> Seq<char> {
    if root.len() == 0 {
        Seq::empty()
    } else if root.last() == '/' {
        root
    } else {
        root + seq!['/']
    }
}

proof fn lemma_join_lead(root: Seq<char>, top: Seq<char>)
    requires
        top.len() > 0,
        top[0] != '/',
    ensures
        path_join(root, top) == join_lead(root) + top,
{
}

/// Grant state never lives under `packages/`: every local grants path is
/// below the Harbor root and outside `<root>/packages`, so no package
/// archive can ship a pre-filled grants file.
pub proof fn lemma_local_grants_outside_packages(home: HarborHome, name: Seq<char>, version: Seq<char>)
    requires
        relative(name),
        relative(version),
    ensures
        path_under(nested3(home@, "permissions"@, "local"@, name, version + ".toml"@), home@),
        !path_under(nested3(home@, "permissions"@, "local"@, name, version + ".toml"@), path_join(home@, "packages"@)),
{
    reveal_strlit("permissions");
    reveal_strlit("packages");
    reveal_strlit("local");
    reveal_strlit(".toml");
    let root = home@;
    let lead = join_lead(root);
    let x = path_join(root, "permissions"@);
    let pk = path_join(root, "packages"@);
    lemma_join_lead(root, "permissions"@);
    lemma_join_lead(root, "packages"@);
    let x2 = path_join(x, "local"@);
    let x3 = path_join(x2, name);
    let file = version + ".toml"@;
    assert(relative(file)) by {
        if version.len() == 0 {
            assert(file[0] == '.');
        } else {
            assert(file[0] == version[0]);
        }
    }
    let p = path_join(x3, file);
    assert(has_prefix(x, x)) by { assert(x.subrange(0, x.len() as int) =~= x); }
    lemma_join_keeps_prefix(x, "local"@, x);
    lemma_join_keeps_prefix(x2, name, x);
    lemma_join_keeps_prefix(x3, file, x);
    let k = lead.len() as int;
    assert(p[k + 1] == x[k + 1]);
    assert(x[k + 1] == 'e');
    assert(pk[k + 1] == 'a');
    assert(pk.len() > k + 1);
    if p == pk {
        assert(false);
    }
    if has_prefix(p, pk) {
        assert(p.subrange(0, pk.len() as int)[k + 1] == p[k + 1]);
        assert(false);
    }
    // below the root
    if root.len() == 0 {
        assert(p[0] == x[0]);
    } else {
        assert(has_prefix(x, root)) by {
            assert(x.subrange(0, root.len() as int) =~= root);
        }
        assert(has_prefix(p, root)) by {
            assert(p.subrange(0, root.len() as int) =~= x.subrange(0, root.len() as int));
        }
        if root.last() != '/' {
            assert(p[root.len() as int] == x[root.len() as int]);
        }
    }
}

/// `<packages>/<ns>/<a>/<b>` lies below `<packages>` whenever the
/// components are relative.
proof fn lemma_package_dir_under(root: Seq<char>, ns: Seq<char>, a: Seq<char>, b: Seq<char>)
    requires
        ns.len() > 0,
        ns[0] != '/',
        relative(a),
        relative(b),
    ensures
        path_under(nested3(root, "packages"@, ns, a, b), path_join(root, "packages"@)),
{
    reveal_strlit("packages");
    let pk = path_join(root, "packages"@);
    lemma_join_lead(root, "packages"@);
    assert(pk.last() == 's');
    let y = path_join(pk, ns);
    assert(y == pk + seq!['/'] + ns);
    assert(has_prefix(y, pk)) by { assert(y.subrange(0, pk.len() as int) =~= pk); }
    let q = pk + seq!['/'];
    assert(has_prefix(y, q)) by { assert(y.subrange(0, q.len() as int) =~= q); }
    let y2 = path_join(y, a);
    lemma_join_keeps_prefix(y, a, q);
    lemma_join_keeps_prefix(y2, b, q);
    let p = path_join(y2, b);
    assert(p.subrange(0, q.len() as int)[pk.len() as int] == '/');
    assert(has_prefix(p, pk)) by {
        assert(p.subrange(0, q.len() as int) == q);
        assert forall|i: int| 0 <= i < pk.len() implies p.subrange(0, pk.len() as int)[i] == pk[i] by {
            assert(p.subrange(0, q.len() as int)[i] == q[i]);
        }
        assert(p.subrange(0, pk.len() as int) =~= pk);
    }
}

/// Every local package directory lies below `<root>/packages`.
pub proof fn lemma_local_package_dir_under_packages(home: HarborHome, name: Seq<char>, version: Seq<char>)
    requires
        relative(name),
        relative(version),
    ensures
        path_under(nested3(home@, "packages"@, "local"@, name, version), path_join(home@, "packages"@)),
{
    reveal_strlit("local");
    lemma_package_dir_under(home@, "local"@, name, version);
}

/// Every registry package directory lies below `<root>/packages`.
pub proof fn lemma_registry_package_dir_under_packages(
    home: HarborHome,
    owner: Seq<char>,
    name: Seq<char>,
    version: Seq<char>,
)
    requires
        relative(owner),
        relative(name),
        relative(version),
    ensures
        path_under(
            nested4(home@, "packages"@, "registry"@, owner, name, version),
            path_join(home@, "packages"@),
        ),
{
    reveal_strlit("registry");
    reveal_strlit("packages");
    lemma_package_dir_under(home@, "registry"@, owner, name);
    let pk = path_join(home@, "packages"@);
    let y = nested3(home@, "packages"@, "registry"@, owner, name);
    let p = path_join(y, version);
    lemma_join_lead(home@, "packages"@);
    assert(y.len() > pk.len()) by {
        let y1 = path_join(pk, "registry"@);
        assert(y1.len() > pk.len());
        assert(has_prefix(y1, y1)) by { assert(y1.subrange(0, y1.len() as int) =~= y1); }
        lemma_join_keeps_prefix(y1, owner, y1);
        lemma_join_keeps_prefix(path_join(y1, owner), name, y1);
    }
    assert(has_prefix(y, pk));
    lemma_join_keeps_prefix(y, version, pk);
    let q = y.subrange(0, pk.len() as int + 1);
    assert(has_prefix(y, q)) by { assert(y.subrange(0, q.len() as int) =~= q); }
    lemma_join_keeps_prefix(y, version, q);
    assert(p[pk.len() as int] == q[pk.len() as int]);
}

/// Every GitHub package directory lies below `<root>/packages`.
pub proof fn lemma_github_package_dir_under_packages(
    home: HarborHome,
    owner: Seq<char>,
    repo: Seq<char>,
    version: Seq<char>,
)
    requires
        relative(owner),
        relative(repo),
        relative(version),
    ensures
        path_under(
            nested4(home@, "packages"@, "github"@, owner, repo, version),
            path_join(home@, "packages"@),
        ),
{
    reveal_strlit("github");
    reveal_strlit("packages");
    lemma_package_dir_under(home@, "github"@, owner, repo);
    let pk = path_join(home@, "packages"@);
    let y = nested3(home@, "packages"@, "github"@, owner, repo);
    let p = path_join(y, version);
    lemma_join_lead(home@, "packages"@);
    assert(y.len() > pk.len()) by {
        let y1 = path_join(pk, "github"@);
        assert(y1.len() > pk.len());
        assert(has_prefix(y1, y1)) by { assert(y1.subrange(0, y1.len() as int) =~= y1); }
        lemma_join_keeps_prefix(y1, owner, y1);
        lemma_join_keeps_prefix(path_join(y1, owner), repo, y1);
    }
    assert(has_prefix(y, pk));
    lemma_join_keeps_prefix(y, version, pk);
    let q = y.subrange(0, pk.len() as int + 1);
    assert(has_prefix(y, q)) by { assert(y.subrange(0, q.len() as int) =~= q); }
    lemma_join_keeps_prefix(y, version, q);
    assert(p[pk.len() as int] == q[pk.len() as int]);
}

/// Which cached packages a `harbor rm` target names.
#[derive(Debug, Clone, PartialEq, Eq)]
pub enum RemovalScope {
    /// `owner/name`: registry and GitHub packages of that owner and name.
    Scoped { owner: String, name: String },
    /// A bare `name`: local packages of that name.
    Local { name: String },
}

/// Reads a `harbor rm` target: `owner/name` (split at the first `/`)
/// names registry and GitHub packages, a bare name local ones.
pub fn removal_scope(target: &str) -> (res: RemovalScope)
    ensures
        match first_index_of(target@, '/') {
            Some(i) => res matches RemovalScope::Scoped { owner, name } && owner@ == target@.take(i) && name@
                == target@.skip(i + 1),
            None => res matches RemovalScope::Local { name } && name@ == target@,
        },
{
    let v = chars_of(target);
    match crate::text::find_char(v.as_slice(), '/') {
        Some(i) => {
            let n = v.len();
            RemovalScope::Scoped {
                owner: string_of(slice_chars(v.as_slice(), 0, i).as_slice()),
                name: string_of(slice_chars(v.as_slice(), i + 1, n).as_slice()),
            }
        },
        None => RemovalScope::Local { name: owned(target) },
    }
}

} // verus!
