//! The local web panel's text decisions: the command that runs a cached
//! package, and how that command is quoted for AppleScript. Serving HTTP
//! and spawning terminals are the caller's business.

use vstd::prelude::*;

use crate::text::{
    chars_eq_str, chars_of, extend_str, find_char, first_index_of, owned, slice_chars, str_eq, string_of, trim,
    trim_chars,
};

verus! {

/// Where a cached package came from.
#[derive(Debug, Clone, PartialEq, Eq)]
pub enum PackageSource {
    /// Downloaded from the registry namespace of `owner`.
    Registry { owner: String },
    /// Imported from `github.com/<owner>/<repo>`.
    Github { owner: String, repo: String },
    /// Built from a local archive.
    Local,
}

/// The source's label in the panel, and the command that runs package
/// `name` from it.
pub open spec fn run_command_text(source: PackageSource, name: Seq<char>) -> (Seq<char>, Seq<char>) {
    match source {
        PackageSource::Registry { owner } => ("registry"@, "xelian run "@ + owner@ + "/"@ + name),
        PackageSource::Github { owner, repo } => ("github"@, "xelian run https://github.com/"@ + owner@ + "/"@ + repo@),
        PackageSource::Local => ("local"@, "xelian run "@ + name),
    }
}

/// The source label of a cached package and the command that runs it.
pub fn run_command_for(source: &PackageSource, name: &str) -> (res: (String, String))
    ensures
        (res.0@, res.1@) == run_command_text(*source, name@),
{
    match source {
        PackageSource::Registry { owner } => {
            let mut v = chars_of("xelian run ");
            extend_str(&mut v, owner.as_str());
            extend_str(&mut v, "/");
            extend_str(&mut v, name);
            (crate::text::owned("registry"), string_of(v.as_slice()))
        },
        PackageSource::Github { owner, repo } => {
            let mut v = chars_of("xelian run https://github.com/");
            extend_str(&mut v, owner.as_str());
            extend_str(&mut v, "/");
            extend_str(&mut v, repo.as_str());
            (crate::text::owned("github"), string_of(v.as_slice()))
        },
        PackageSource::Local => {
            let mut v = chars_of("xelian run ");
            extend_str(&mut v, name);
            (crate::text::owned("local"), string_of(v.as_slice()))
        },
    }
}

/// `command` with `\` doubled and `"` escaped, for an AppleScript string.
pub open spec fn applescript_escaped(command: Seq<char>) -> Seq<char>
    decreases command.len(),
{
    if command.len() == 0 {
        Seq::empty()
    } else {
        let c = command[0];
        (if c == '\\' {
            seq!['\\', '\\']
        } else if c == '"' {
            seq!['\\', '"']
        } else {
            seq![c]
        }) + applescript_escaped(command.drop_first())
    }
}

proof fn lemma_escaped_push(s: Seq<char>, c: char)
    ensures
        applescript_escaped(s.push(c)) == applescript_escaped(s) + (if c == '\\' {
            seq!['\\', '\\']
        } else if c == '"' {
            seq!['\\', '"']
        } else {
            seq![c]
        }),
    decreases s.len(),
{
    let x = if c == '\\' {
        seq!['\\', '\\']
    } else if c == '"' {
        seq!['\\', '"']
    } else {
        seq![c]
    };
    if s.len() == 0 {
        assert(s.push(c).drop_first() =~= Seq::<char>::empty());
        assert(applescript_escaped(Seq::<char>::empty()) == Seq::<char>::empty());
        assert(applescript_escaped(s) == Seq::<char>::empty());
        assert(x + Seq::<char>::empty() =~= x);
        assert(Seq::<char>::empty() + x =~= x);
    } else {
        lemma_escaped_push(s.drop_first(), c);
        assert(s.push(c).drop_first() =~= s.drop_first().push(c));
        assert(s.push(c)[0] == s[0]);
        let h = if s[0] == '\\' {
            seq!['\\', '\\']
        } else if s[0] == '"' {
            seq!['\\', '"']
        } else {
            seq![s[0]]
        };
        assert(h + (applescript_escaped(s.drop_first()) + x) =~= (h + applescript_escaped(s.drop_first())) + x);
    }
}

/// The AppleScript that opens Terminal running `command`.
pub fn terminal_script(command: &str) -> (res: String)
    ensures
        res@ == "tell application \"Terminal\" to do script \""@ + applescript_escaped(command@) + "\""@,
{
    let v = chars_of(command);
    let mut out = chars_of("tell application \"Terminal\" to do script \"");
    let ghost head = out@;
    let mut i: usize = 0;
    assert(v@.take(0) =~= Seq::<char>::empty());
    while i < v.len()
        invariant
            i <= v@.len(),
            v@ == command@,
            out@ == head + applescript_escaped(v@.take(i as int)),
        decreases v.len() - i,
    {
        let c = v[i];
        if c == '\\' {
            out.push('\\');
            out.push('\\');
        } else if c == '"' {
            out.push('\\');
            out.push('"');
        } else {
            out.push(c);
        }
        proof {
            assert(v@.take(i + 1) =~= v@.take(i as int).push(c));
            lemma_escaped_push(v@.take(i as int), c);
        }
        i = i + 1;
    }
    assert(v@.take(v@.len() as int) =~= v@);
    extend_str(&mut out, "\"");
    string_of(out.as_slice())
}

/// The panel's default port.
pub const DEFAULT_UI_PORT: u16 = 2106;

/// What the panel serves for a request.
#[derive(Debug, Clone, Copy, PartialEq, Eq)]
pub enum PanelRoute {
    /// `GET /`: the page.
    Index,
    /// `GET /api/packages`: the cached packages.
    Packages,
    /// `GET /api/keys`: the stored key names and providers.
    Keys,
    /// `POST /api/keys/set`.
    SetKey,
    /// `POST /api/keys/remove`.
    RemoveKey,
    /// `POST /api/run`.
    Run,
    /// Anything else: 404.
    NotFound,
}

/// `url` without its query string.
pub open spec fn url_path(url: Seq<char>) -> Seq<char> {
    match first_index_of(url, '?') {
        Some(i) => url.take(i),
        None => url,
    }
}

/// The panel route of a request with `method` and `url` (the query string
/// is ignored).
pub fn route_panel(method: &str, url: &str) -> (res: PanelRoute)
    ensures
        res == (if method@ == "GET"@ && url_path(url@) == "/"@ {
            PanelRoute::Index
        } else if method@ == "GET"@ && url_path(url@) == "/api/packages"@ {
            PanelRoute::Packages
        } else if method@ == "GET"@ && url_path(url@) == "/api/keys"@ {
            PanelRoute::Keys
        } else if method@ == "POST"@ && url_path(url@) == "/api/keys/set"@ {
            PanelRoute::SetKey
        } else if method@ == "POST"@ && url_path(url@) == "/api/keys/remove"@ {
            PanelRoute::RemoveKey
        } else if method@ == "POST"@ && url_path(url@) == "/api/run"@ {
            PanelRoute::Run
        } else {
            PanelRoute::NotFound
        }),
{
    let v = chars_of(url);
    let path = match find_char(v.as_slice(), '?') {
        Some(i) => slice_chars(v.as_slice(), 0, i),
        None => v,
    };
    let p = path.as_slice();
    let get = str_eq(method, "GET");
    let post = str_eq(method, "POST");
    if get && chars_eq_str(p, "/") {
        PanelRoute::Index
    } else if get && chars_eq_str(p, "/api/packages") {
        PanelRoute::Packages
    } else if get && chars_eq_str(p, "/api/keys") {
        PanelRoute::Keys
    } else if post && chars_eq_str(p, "/api/keys/set") {
        PanelRoute::SetKey
    } else if post && chars_eq_str(p, "/api/keys/remove") {
        PanelRoute::RemoveKey
    } else if post && chars_eq_str(p, "/api/run") {
        PanelRoute::Run
    } else {
        PanelRoute::NotFound
    }
}

/// A `set key` request's name (trimmed) and value, both required.
pub fn set_key_request(name: Option<&str>, value: Option<&str>) -> (res: Result<(String, String), String>)
    ensures
        ({
            let n = trim(match name {
                Some(x) => x@,
                None => Seq::<char>::empty(),
            });
            let v = match value {
                Some(x) => x@,
                None => Seq::<char>::empty(),
            };
            if n.len() == 0 || v.len() == 0 {
                res matches Err(m) && m@ == "name and value are required"@
            } else {
                res matches Ok((a, b)) && a@ == n && b@ == v
            }
        }),
{
    let n = match name {
        Some(x) => trim_chars(chars_of(x).as_slice()),
        None => Vec::new(),
    };
    let v = match value {
        Some(x) => chars_of(x),
        None => Vec::new(),
    };
    proof {
        reveal_strlit("");
        assert(trim(Seq::<char>::empty()) =~= Seq::<char>::empty());
    }
    if n.len() == 0 || v.len() == 0 {
        return Err(owned("name and value are required"));
    }
    Ok((string_of(n.as_slice()), string_of(v.as_slice())))
}

/// A request's required `name` field, trimmed.
pub fn name_request(name: Option<&str>) -> (res: Result<String, String>)
    ensures
        ({
            let n = trim(match name {
                Some(x) => x@,
                None => Seq::<char>::empty(),
            });
            if n.len() == 0 {
                res matches Err(m) && m@ == "name is required"@
            } else {
                res matches Ok(a) && a@ == n
            }
        }),
{
    let n = match name {
        Some(x) => trim_chars(chars_of(x).as_slice()),
        None => Vec::new(),
    };
    proof {
        assert(trim(Seq::<char>::empty()) =~= Seq::<char>::empty());
    }
    if n.len() == 0 {
        return Err(owned("name is required"));
    }
    Ok(string_of(n.as_slice()))
}

} // verus!
