//! The decisions of the local MCP gateway: which packages it serves, how
//! their tools are named (`<package>__<tool>`), and how each client
//! JSON-RPC message is answered or routed. Spawning backends, HTTP and
//! JSON encoding are the caller's business.

use vstd::prelude::*;

use crate::cache::{join_path, path_join};
use crate::manifest::{Language, Manifest, PackageType};
use crate::package::{pair_views, sort_by_archive_path, sorted_by_path};
use crate::run::{parse_run_target, registry_ref, github_target, RunTarget};
use crate::text::{
    after_line, after_line_chars, chars_of, debug_text, first_line, first_line_chars, has_suffix,
    lemma_after_line_shorter, matches_at, occurs_at, owned, spec_debug_text, str_eq, string_of,
    concat2, decimal, decimal_of, ends_with_str, extend_chars, extend_str, joined_by,
};

verus! {

/// The gateway's default TCP port.
pub const DEFAULT_PORT: u16 = 11432;

/// The MCP protocol version the gateway speaks when a client names none.
pub const PROTOCOL_VERSION: &'static str = "2025-06-18";

/// The gateway configuration (`gateway.toml`).
#[derive(Debug, Clone, PartialEq, Eq)]
pub struct GatewayConfig {
    /// Registry refs (`owner/name`) of the served packages, in order.
    pub packages: Vec<String>,
    /// The configured port, if any.
    pub port: Option<u16>,
}

/// `p` occurs in `v`.
pub open spec fn in_list(v: Seq<String>, p: Seq<char>) -> bool {
    exists|i: int| 0 <= i < v.len() && #[trigger] v[i]@ == p
}

impl GatewayConfig {
    /// No packages, no port.
    pub fn empty() -> (res: GatewayConfig)
        ensures
            res.packages@.len() == 0,
            res.port is None,
    {
        GatewayConfig { packages: Vec::new(), port: None }
    }

    /// Adds `target` unless it is already configured; returns whether it
    /// was added.
    pub fn add(&mut self, target: &str) -> (added: bool)
        ensures
            added == !in_list(old(self).packages@, target@),
            added ==> final(self).packages@.drop_last() == old(self).packages@ && final(self).packages@.last()@
                == target@,
            !added ==> final(self).packages@ == old(self).packages@,
            in_list(final(self).packages@, target@),
            final(self).port == old(self).port,
    {
        let mut i: usize = 0;
        while i < self.packages.len()
            invariant
                i <= self.packages@.len(),
                forall|j: int| 0 <= j < i ==> #[trigger] self.packages@[j]@ != target@,
            decreases self.packages.len() - i,
        {
            if str_eq(self.packages[i].as_str(), target) {
                return false;
            }
            i = i + 1;
        }
        self.packages.push(owned(target));
        assert(self.packages@[self.packages@.len() - 1]@ == target@);
        true
    }

    /// Removes every entry equal to `target`; returns whether any was.
    pub fn remove(&mut self, target: &str) -> (removed: bool)
        ensures
            removed == in_list(old(self).packages@, target@),
            final(self).packages@.map_values(|s: String| s@) == old(self).packages@.map_values(|s: String| s@).filter(
                |s: Seq<char>| s != target@,
            ),
            !in_list(final(self).packages@, target@),
            final(self).port == old(self).port,
    {
        let ghost all = self.packages@.map_values(|s: String| s@);
        let mut kept: Vec<String> = Vec::new();
        let mut removed = false;
        let mut i: usize = 0;
        proof {
            reveal(Seq::filter);
            assert(all.take(0) =~= Seq::<Seq<char>>::empty());
        }
        while i < self.packages.len()
            invariant
                i <= self.packages@.len(),
                all == self.packages@.map_values(|s: String| s@),
                kept@.map_values(|s: String| s@) == all.take(i as int).filter(|s: Seq<char>| s != target@),
                removed == exists|j: int| 0 <= j < i && #[trigger] self.packages@[j]@ == target@,
            decreases self.packages.len() - i,
        {
            let ghost before = kept@;
            let same = str_eq(self.packages[i].as_str(), target);
            if same {
                removed = true;
            } else {
                kept.push(owned(self.packages[i].as_str()));
            }
            proof {
                reveal(Seq::filter);
                let t = all.take(i + 1);
                assert(t.drop_last() =~= all.take(i as int));
                assert(t.last() == self.packages@[i as int]@);
                if !same {
                    assert(kept@.map_values(|s: String| s@) =~= before.map_values(|s: String| s@).push(
                        self.packages@[i as int]@,
                    ));
                } else {
                    assert(kept@ == before);
                }
            }
            i = i + 1;
        }
        proof {
            assert(all.take(self.packages@.len() as int) =~= all);
            let f = all.filter(|s: Seq<char>| s != target@);
            assert forall|j: int| 0 <= j < kept@.len() implies #[trigger] kept@[j]@ != target@ by {
                assert(kept@.map_values(|s: String| s@)[j] == kept@[j]@);
                all.filter_lemma(|s: Seq<char>| s != target@);
                assert(f.contains(kept@[j]@));
            }
        }
        self.packages = kept;
        removed
    }
}

/// The port to serve on: the flag, else the configured port, else the
/// default.
pub fn port_choice(flag: Option<u16>, configured: Option<u16>) -> (res: u16)
    ensures
        res == match flag {
            Some(p) => p,
            None => match configured {
                Some(p) => p,
                None => DEFAULT_PORT,
            },
        },
{
    match flag {
        Some(p) => p,
        None => match configured {
            Some(p) => p,
            None => DEFAULT_PORT,
        },
    }
}

/// The `owner/name` of a gateway backend: only registry refs are served
/// (`is_existing_file` says whether `target` names an existing file, which
/// would make it a local archive).
pub fn parse_ref(target: &str, is_existing_file: bool) -> (res: Result<(String, String), String>)
    ensures
        !github_target(target@) && !(has_suffix(target@, ".harbor"@) || is_existing_file) && registry_ref(
            target@,
        ) is Some ==> (res matches Ok((o, n)) && registry_ref(target@) == Some((o@, n@))),
        !(!github_target(target@) && !(has_suffix(target@, ".harbor"@) || is_existing_file) && registry_ref(
            target@,
        ) is Some) ==> (res matches Err(m) && m@ == "gateway backends must be registry refs (owner/name), got "@
            + spec_debug_text(target@)),
{
    match parse_run_target(target, is_existing_file) {
        Ok(RunTarget::RegistryRef { owner, name }) => Ok((owner, name)),
        _ => Err(concat2("gateway backends must be registry refs (owner/name), got ", debug_text(target).as_str())),
    }
}

/// A character allowed in a tool-name alias: ASCII letters and digits,
/// `_` and `-`.
pub open spec fn alias_char(c: char) -> bool {
    ('a' <= c <= 'z') || ('A' <= c <= 'Z') || ('0' <= c <= '9') || c == '_' || c == '-'
}

/// `name` with every character that may not appear in a tool name mapped
/// to `-`.
pub open spec fn alias_of(name: Seq<char>) -> Seq<char> {
    name.map_values(|c: char| if alias_char(c) { c } else { '-' })
}

/// The alias a package's tools are exposed under (`<alias>__<tool>`).
pub fn sanitize_alias(name: &str) -> (res: String)
    ensures
        res@ == alias_of(name@),
{
    let v = chars_of(name);
    let mut out: Vec<char> = Vec::new();
    let mut i: usize = 0;
    while i < v.len()
        invariant
            i <= v@.len(),
            v@ == name@,
            out@ == alias_of(v@.take(i as int)),
        decreases v.len() - i,
    {
        let c = v[i];
        let ok = ('a' <= c && c <= 'z') || ('A' <= c && c <= 'Z') || ('0' <= c && c <= '9') || c == '_'
            || c == '-';
        out.push(if ok { c } else { '-' });
        proof {
            assert(v@.take(i + 1) =~= v@.take(i as int).push(c));
            assert(alias_of(v@.take(i + 1)) =~= alias_of(v@.take(i as int)).push(if alias_char(c) { c } else { '-' }));
        }
        i = i + 1;
    }
    assert(v@.take(v@.len() as int) =~= v@);
    string_of(out.as_slice())
}

/// `<alias>__<tool>`, a tool's name as the gateway exposes it.
pub fn exposed_tool_name(alias: &str, tool: &str) -> (res: String)
    ensures
        res@ == alias@ + "__"@ + tool@,
{
    let mut v = chars_of(alias);
    extend_str(&mut v, "__");
    extend_str(&mut v, tool);
    string_of(v.as_slice())
}

/// `<owner>-<name>.log`, a backend's log file name.
pub fn log_file_name(owner: &str, name: &str) -> (res: String)
    ensures
        res@ == owner@ + "-"@ + name@ + ".log"@,
{
    let mut v = chars_of(owner);
    extend_str(&mut v, "-");
    extend_str(&mut v, name);
    extend_str(&mut v, ".log");
    string_of(v.as_slice())
}

/// The first position of `__` in `s`, if any.
pub open spec fn first_separator(s: Seq<char>) -> Option<int> {
    if exists|i: int| occurs_at(s, "__"@, i) {
        Some(choose|i: int| occurs_at(s, "__"@, i) && forall|j: int| 0 <= j < i ==> !occurs_at(s, "__"@, j))
    } else {
        None
    }
}

/// `str::split_once("__")`: the text before and after the first `__`.
pub fn split_tool_name(full: &str) -> (res: Option<(String, String)>)
    ensures
        match first_separator(full@) {
            Some(i) => res matches Some((a, t)) && a@ == full@.take(i) && t@ == full@.skip(i + 2),
            None => res is None,
        },
{
    let v = chars_of(full);
    let sep = chars_of("__");
    proof {
        reveal_strlit("__");
    }
    if v.len() < 2 {
        assert forall|i: int| !occurs_at(full@, "__"@, i) by {}
        return None;
    }
    let n = v.len();
    let mut i: usize = 0;
    while i <= n - 2
        invariant
            n == v@.len(),
            n >= 2,
            v@ == full@,
            sep@ == "__"@,
            sep@.len() == 2,
            i <= n - 1,
            forall|k: int| 0 <= k < i ==> !occurs_at(full@, "__"@, k),
        decreases n - i,
    {
        if matches_at(v.as_slice(), sep.as_slice(), i) {
            proof {
                assert(occurs_at(full@, "__"@, i as int));
                let c = choose|c: int| occurs_at(full@, "__"@, c) && forall|j: int| 0 <= j < c ==> !occurs_at(full@, "__"@, j);
                assert(c == i as int) by {
                    if c < i {
                    } else if c > i {
                        assert(!occurs_at(full@, "__"@, i as int));
                    }
                }
            }
            let a = crate::text::slice_chars(v.as_slice(), 0, i);
            let t = crate::text::slice_chars(v.as_slice(), i + 2, n);
            return Some((string_of(a.as_slice()), string_of(t.as_slice())));
        }
        i = i + 1;
    }
    assert forall|k: int| !occurs_at(full@, "__"@, k) by {
        if k >= i {
            assert(!occurs_at(full@, "__"@, k));
        }
    }
    None
}

/// What the gateway does with one client JSON-RPC message.
#[derive(Debug, Clone, PartialEq, Eq)]
pub enum McpStep {
    /// A notification: acknowledged, no reply.
    NoReply,
    /// Reply to `initialize`, echoing this protocol version.
    Initialize { protocol_version: String },
    /// Reply to `ping` with an empty result.
    Pong,
    /// Ask every backend for its tools and merge them.
    ListTools,
    /// Forward `tools/call` of `tool` to backend number `backend`.
    CallTool { backend: usize, tool: String },
    /// Reply with this JSON-RPC error.
    Error { code: i64, message: String },
}

/// Index of the first backend whose alias is `alias`.
fn find_alias(aliases: &[String], alias: &str) -> (res: Option<usize>)
    ensures
        match res {
            Some(k) => k < aliases@.len() && aliases@[k as int]@ == alias@ && forall|j: int|
                0 <= j < k ==> #[trigger] aliases@[j]@ != alias@,
            None => forall|j: int| 0 <= j < aliases@.len() ==> #[trigger] aliases@[j]@ != alias@,
        },
{
    let mut k: usize = 0;
    while k < aliases.len()
        invariant
            k <= aliases@.len(),
            forall|j: int| 0 <= j < k ==> #[trigger] aliases@[j]@ != alias@,
        decreases aliases.len() - k,
    {
        if str_eq(aliases[k].as_str(), alias) {
            return Some(k);
        }
        k = k + 1;
    }
    None
}

/// Decides how to answer a client message: `has_id` says whether it has a
/// non-null `id` (else it is a notification), `method` is its method (empty
/// when absent), `protocol` its `params.protocolVersion`, `tool_name` its
/// `params.name`, and `aliases` the backends' aliases in order.
pub fn decide_mcp(
    has_id: bool,
    method: &str,
    protocol: Option<&str>,
    tool_name: Option<&str>,
    aliases: &[String],
) -> (res: McpStep)
    ensures
        !has_id ==> res == McpStep::NoReply,
        has_id && method@ == "initialize"@ ==> (res matches McpStep::Initialize { protocol_version: p }
            && p@ == match protocol {
            Some(q) => q@,
            None => PROTOCOL_VERSION@,
        }),
        has_id && method@ == "ping"@ ==> res == McpStep::Pong,
        has_id && method@ == "tools/list"@ ==> res == McpStep::ListTools,
        has_id && method@ == "tools/call"@ ==> ({
            let full = match tool_name {
                Some(t) => t@,
                None => Seq::<char>::empty(),
            };
            match first_separator(full) {
                None => res matches McpStep::Error { code, message } && code == -32602 && message@ == "unknown tool "@
                    + spec_debug_text(full) + " — gateway tools are named <package>__<tool>"@,
                Some(i) => if exists|k: int| 0 <= k < aliases@.len() && #[trigger] aliases@[k]@ == full.take(i) {
                    res matches McpStep::CallTool { backend, tool } && backend < aliases@.len()
                        && aliases@[backend as int]@ == full.take(i) && tool@ == full.skip(i + 2) && forall|k: int|
                        0 <= k < backend ==> #[trigger] aliases@[k]@ != full.take(i)
                } else {
                    res matches McpStep::Error { code, message } && code == -32602 && message@
                        == "no gateway backend named "@ + spec_debug_text(full.take(i)) + " (see GET /status)"@
                },
            }
        }),
        has_id && method@ != "initialize"@ && method@ != "ping"@ && method@ != "tools/list"@ && method@
            != "tools/call"@ ==> (res matches McpStep::Error { code, message } && code == -32601 && message@
            == "method "@ + spec_debug_text(method@) + " is not supported by the gateway (tools only)"@),
{
    proof {
        reveal_strlit("initialize");
        reveal_strlit("ping");
        reveal_strlit("tools/list");
        reveal_strlit("tools/call");
        assert("ping"@.len() != "initialize"@.len());
        assert("tools/list"@[0] != "initialize"@[0]);
        assert("tools/list"@.len() != "ping"@.len());
        assert("tools/call"@[6] != "tools/list"@[6]);
    }
    if !has_id {
        return McpStep::NoReply;
    }
    if str_eq(method, "initialize") {
        let p = match protocol {
            Some(q) => owned(q),
            None => owned(PROTOCOL_VERSION),
        };
        return McpStep::Initialize { protocol_version: p };
    }
    if str_eq(method, "ping") {
        return McpStep::Pong;
    }
    if str_eq(method, "tools/list") {
        return McpStep::ListTools;
    }
    if str_eq(method, "tools/call") {
        let full = match tool_name {
            Some(t) => t,
            None => "",
        };
        proof {
            reveal_strlit("");
        }
        assert(full@ == match tool_name {
            Some(t) => t@,
            None => Seq::<char>::empty(),
        });
        match split_tool_name(full) {
            None => {
                let mut m = chars_of("unknown tool ");
                extend_str(&mut m, debug_text(full).as_str());
                extend_str(&mut m, " — gateway tools are named <package>__<tool>");
                return McpStep::Error { code: -32602, message: string_of(m.as_slice()) };
            },
            Some((alias, tool)) => {
                if let Some(k) = find_alias(aliases, alias.as_str()) {
                    return McpStep::CallTool { backend: k, tool };
                }
                let mut m = chars_of("no gateway backend named ");
                extend_str(&mut m, debug_text(alias.as_str()).as_str());
                extend_str(&mut m, " (see GET /status)");
                return McpStep::Error { code: -32602, message: string_of(m.as_slice()) };
            },
        }
    }
    let mut m = chars_of("method ");
    extend_str(&mut m, debug_text(method).as_str());
    extend_str(&mut m, " is not supported by the gateway (tools only)");
    McpStep::Error { code: -32601, message: string_of(m.as_slice()) }
}

/// The error of a `tools/list` round in which no backend listed a tool and
/// some failed: `all backends failed: ` and the failures joined by `; `.
pub fn tools_list_failure(tool_count: usize, errors: &[String]) -> (res: Option<String>)
    ensures
        tool_count == 0 && errors@.len() > 0 ==> (res matches Some(m) && m@ == "all backends failed: "@
            + joined_by(errors@.map_values(|e: String| e@), "; "@)),
        !(tool_count == 0 && errors@.len() > 0) ==> res is None,
{
    if tool_count != 0 || errors.len() == 0 {
        return None;
    }
    let mut m = chars_of("all backends failed: ");
    let ghost parts = errors@.map_values(|e: String| e@);
    let ghost head = m@;
    let mut i: usize = 0;
    while i < errors.len()
        invariant
            i <= errors@.len(),
            parts == errors@.map_values(|e: String| e@),
            m@ == head + joined_by(parts.take(i as int), "; "@),
        decreases errors.len() - i,
    {
        if i > 0 {
            extend_str(&mut m, "; ");
        }
        extend_str(&mut m, errors[i].as_str());
        proof {
            let t = parts.take(i + 1);
            assert(t.drop_last() =~= parts.take(i as int));
            assert(t.last() == errors@[i as int]@);
        }
        i = i + 1;
    }
    assert(parts.take(errors@.len() as int) =~= parts);
    Some(string_of(m.as_slice()))
}

/// The first pair of configured backends whose aliases collide: the first
/// `k` whose alias equals an earlier one, with that earlier `j`.
pub fn alias_collision(aliases: &[String]) -> (res: Option<(usize, usize)>)
    ensures
        match res {
            Some((j, k)) => j < k < aliases@.len() && aliases@[j as int]@ == aliases@[k as int]@
                && forall|a: int, b: int| 0 <= a < b < k ==> #[trigger] aliases@[a]@ != #[trigger] aliases@[b]@,
            None => forall|a: int, b: int|
                0 <= a < b < aliases@.len() ==> #[trigger] aliases@[a]@ != #[trigger] aliases@[b]@,
        },
{
    let mut k: usize = 0;
    while k < aliases.len()
        invariant
            k <= aliases@.len(),
            forall|a: int, b: int| 0 <= a < b < k ==> #[trigger] aliases@[a]@ != #[trigger] aliases@[b]@,
        decreases aliases.len() - k,
    {
        let mut j: usize = 0;
        while j < k
            invariant
                j <= k < aliases@.len(),
                forall|a: int| 0 <= a < j ==> #[trigger] aliases@[a]@ != aliases@[k as int]@,
                forall|a: int, b: int| 0 <= a < b < k ==> #[trigger] aliases@[a]@ != #[trigger] aliases@[b]@,
            decreases k - j,
        {
            if str_eq(aliases[j].as_str(), aliases[k].as_str()) {
                return Some((j, k));
            }
            j = j + 1;
        }
        k = k + 1;
    }
    None
}

/// The lines of `s` as `str::lines` yields them.
pub open spec fn lines_of(s: Seq<char>) -> Seq<Seq<char>>
    decreases s.len(),
{
    if s.len() == 0 {
        Seq::empty()
    } else {
        proof {
            lemma_after_line_shorter(s);
        }
        seq![first_line(s)] + lines_of(after_line(s))
    }
}

/// The last `n` lines of `content` (all of them when there are fewer), in
/// order.
pub fn tail_lines(content: &str, n: usize) -> (res: Vec<String>)
    ensures
        res@.map_values(|l: String| l@) == lines_of(content@).skip(
            if lines_of(content@).len() > n { lines_of(content@).len() - n } else { 0 },
        ),
{
    let mut all: Vec<String> = Vec::new();
    let mut rest = chars_of(content);
    while rest.len() > 0
        invariant
            all@.map_values(|l: String| l@) + lines_of(rest@) == lines_of(content@),
        decreases rest.len(),
    {
        let line = first_line_chars(rest.as_slice());
        let ghost before = all@;
        all.push(string_of(line.as_slice()));
        proof {
            lemma_after_line_shorter(rest@);
            assert(all@.map_values(|l: String| l@) =~= before.map_values(|l: String| l@).push(line@));
            assert(lines_of(rest@) == seq![first_line(rest@)] + lines_of(after_line(rest@)));
            assert(before.map_values(|l: String| l@).push(line@) + lines_of(after_line(rest@)) =~= before.map_values(
                |l: String| l@,
            ) + lines_of(rest@));
        }
        rest = after_line_chars(rest.as_slice());
    }
    assert(all@.map_values(|l: String| l@) =~= lines_of(content@));
    let total = all.len();
    let start = if total > n { total - n } else { 0 };
    let mut out: Vec<String> = Vec::new();
    let mut i: usize = start;
    while i < total
        invariant
            start <= i <= total,
            total == all@.len(),
            out@.map_values(|l: String| l@) == all@.map_values(|l: String| l@).subrange(start as int, i as int),
        decreases total - i,
    {
        let ghost before = out@;
        out.push(owned(all[i].as_str()));
        proof {
            assert(out@.map_values(|l: String| l@) =~= before.map_values(|l: String| l@).push(all@[i as int]@));
            assert(all@.map_values(|l: String| l@).subrange(start as int, i + 1) =~= all@.map_values(
                |l: String| l@,
            ).subrange(start as int, i as int).push(all@[i as int]@));
        }
        i = i + 1;
    }
    assert(all@.map_values(|l: String| l@).subrange(start as int, total as int) =~= lines_of(content@).skip(
        start as int,
    ));
    out
}

/// An alias has one character per character of the name, each allowed in
/// a tool name, and sanitising an alias again changes nothing.
pub proof fn lemma_alias_well_formed(name: Seq<char>)
    ensures
        alias_of(name).len() == name.len(),
        forall|i: int| 0 <= i < name.len() ==> alias_char(#[trigger] alias_of(name)[i]),
        forall|i: int| 0 <= i < name.len() && alias_char(name[i]) ==> #[trigger] alias_of(name)[i] == name[i],
        alias_of(alias_of(name)) == alias_of(name),
{
    assert(alias_of(alias_of(name)) =~= alias_of(name));
}

/// The version a gateway backend runs: the registry's latest resolvable
/// version of `owner/name`.
pub fn backend_version(owner: &str, name: &str, latest: Option<String>) -> (res: Result<String, String>)
    ensures
        match latest {
            Some(v) => res == Ok::<String, String>(v),
            None => res matches Err(m) && m@ == "no resolvable version of "@ + owner@ + "/"@ + name@,
        },
{
    match latest {
        Some(v) => Ok(v),
        None => {
            let mut m = chars_of("no resolvable version of ");
            extend_str(&mut m, owner);
            extend_str(&mut m, "/");
            extend_str(&mut m, name);
            Err(string_of(m.as_slice()))
        },
    }
}

/// The gateway serves MCP servers only.
pub fn require_mcp(owner: &str, name: &str, package_type: PackageType) -> (res: Result<(), String>)
    ensures
        package_type == PackageType::Mcp <==> res is Ok,
        res matches Err(m) ==> m@ == owner@ + "/"@ + name@
            + " is package-type Agent — the gateway serves MCP servers only"@,
{
    match package_type {
        PackageType::Mcp => Ok(()),
        PackageType::Agent => {
            let mut m = chars_of(owner);
            extend_str(&mut m, "/");
            extend_str(&mut m, name);
            extend_str(&mut m, " is package-type Agent — the gateway serves MCP servers only");
            Err(string_of(m.as_slice()))
        },
    }
}

/// The interpreter a backend is started with: `<env>/bin/python` for
/// Python, `<bin_dir>/node` for Node.
pub fn backend_program(manifest: &Manifest, env_dir: &str, bin_dir: &str) -> (res: String)
    ensures
        res@ == match manifest.language {
            Language::Python => path_join(path_join(env_dir@, "bin"@), "python"@),
            Language::Node => path_join(bin_dir@, "node"@),
        },
{
    match manifest.language {
        Language::Python => {
            let e = chars_of(env_dir);
            let b = join_path(e.as_slice(), "bin");
            string_of(join_path(b.as_slice(), "python").as_slice())
        },
        Language::Node => {
            let b = chars_of(bin_dir);
            string_of(join_path(b.as_slice(), "node").as_slice())
        },
    }
}

/// A backend process: program, arguments and working directory.
#[derive(Debug, Clone, PartialEq, Eq)]
pub struct BackendCommand {
    pub program: String,
    pub args: Vec<String>,
    pub cwd: String,
}

/// How a backend is started over stdio. Python runs
/// `<package>/<entrypoint>` from the package directory; Node runs
/// `<env>/<entrypoint>` from the environment with symlinks preserved (the
/// environment links to the package files). `program_is_file` says whether
/// [`backend_program`] exists, `script_is_file` whether
/// `<env>/<entrypoint>` does (only Node needs it).
pub fn backend_command(
    manifest: &Manifest,
    package_dir: &str,
    env_dir: &str,
    bin_dir: &str,
    program_is_file: bool,
    script_is_file: bool,
) -> (res: Result<BackendCommand, String>)
    ensures
        ({
            let program = match manifest.language {
                Language::Python => path_join(path_join(env_dir@, "bin"@), "python"@),
                Language::Node => path_join(bin_dir@, "node"@),
            };
            let script = path_join(env_dir@, manifest.entrypoint@);
            match manifest.language {
                Language::Python => if !program_is_file {
                    res matches Err(m) && m@ == "Python binary not found at "@ + program
                } else {
                    res matches Ok(c) && c.program@ == program && c.cwd@ == package_dir@ && c.args@.len() == 1
                        && c.args@[0]@ == path_join(package_dir@, manifest.entrypoint@)
                },
                Language::Node => if !program_is_file {
                    res matches Err(m) && m@ == "Node binary not found at "@ + program
                } else if !script_is_file {
                    res matches Err(m) && m@ == "entrypoint missing at "@ + script
                } else {
                    res matches Ok(c) && c.program@ == program && c.cwd@ == env_dir@ && c.args@.len() == 3
                        && c.args@[0]@ == "--preserve-symlinks"@ && c.args@[1]@ == "--preserve-symlinks-main"@
                        && c.args@[2]@ == script
                },
            }
        }),
{
    let program = backend_program(manifest, env_dir, bin_dir);
    match manifest.language {
        Language::Python => {
            if !program_is_file {
                return Err(concat2("Python binary not found at ", program.as_str()));
            }
            let p = chars_of(package_dir);
            let mut args: Vec<String> = Vec::new();
            args.push(string_of(join_path(p.as_slice(), manifest.entrypoint.as_str()).as_slice()));
            Ok(BackendCommand { program, args, cwd: owned(package_dir) })
        },
        Language::Node => {
            if !program_is_file {
                return Err(concat2("Node binary not found at ", program.as_str()));
            }
            let e = chars_of(env_dir);
            let script = string_of(join_path(e.as_slice(), manifest.entrypoint.as_str()).as_slice());
            if !script_is_file {
                return Err(concat2("entrypoint missing at ", script.as_str()));
            }
            let mut args: Vec<String> = Vec::new();
            args.push(owned("--preserve-symlinks"));
            args.push(owned("--preserve-symlinks-main"));
            args.push(script);
            Ok(BackendCommand { program, args, cwd: owned(env_dir) })
        },
    }
}

/// What the gateway's HTTP server does with a request.
#[derive(Debug, Clone, Copy, PartialEq, Eq)]
pub enum GatewayRoute {
    /// `GET /health`.
    Health,
    /// `GET /status`.
    Status,
    /// `POST /mcp`: one JSON-RPC message.
    Mcp,
    /// Anything else: 404.
    NotFound,
}

/// The route of a request with `method` and `url`.
pub fn route_gateway(method: &str, url: &str) -> (res: GatewayRoute)
    ensures
        res == (if method@ == "GET"@ && url@ == "/health"@ {
            GatewayRoute::Health
        } else if method@ == "GET"@ && url@ == "/status"@ {
            GatewayRoute::Status
        } else if method@ == "POST"@ && url@ == "/mcp"@ {
            GatewayRoute::Mcp
        } else {
            GatewayRoute::NotFound
        }),
{
    if str_eq(method, "GET") && str_eq(url, "/health") {
        GatewayRoute::Health
    } else if str_eq(method, "GET") && str_eq(url, "/status") {
        GatewayRoute::Status
    } else if str_eq(method, "POST") && str_eq(url, "/mcp") {
        GatewayRoute::Mcp
    } else {
        GatewayRoute::NotFound
    }
}

/// Whether a backend message answers request `id`: it carries that `id`
/// and a `result` or an `error` (anything else is a notification or a
/// request from the backend, and is dropped).
pub fn is_response_to(id: i64, message_id: Option<i64>, has_result: bool, has_error: bool) -> (res: bool)
    ensures
        res == (message_id == Some(id) && (has_result || has_error)),
{
    match message_id {
        Some(m) => m == id && (has_result || has_error),
        None => false,
    }
}

/// One backend's line in `gateway status`.
pub fn status_line(package: &str, version: &str, alive: bool, restarts: u32, alias: &str, log: &str) -> (res: String)
    ensures
        res@ == "  "@ + package@ + " v"@ + version@ + "  "@ + (if alive { "up"@ } else { "DOWN"@ })
            + "  restarts:"@ + decimal(restarts as nat) + "  tools:"@ + alias@ + "__*  log:"@ + log@,
{
    let mut v = chars_of("  ");
    extend_str(&mut v, package);
    extend_str(&mut v, " v");
    extend_str(&mut v, version);
    extend_str(&mut v, "  ");
    extend_str(&mut v, if alive { "up" } else { "DOWN" });
    extend_str(&mut v, "  restarts:");
    let d = decimal_of(restarts as u64);
    extend_chars(&mut v, d.as_slice());
    extend_str(&mut v, "  tools:");
    extend_str(&mut v, alias);
    extend_str(&mut v, "__*  log:");
    extend_str(&mut v, log);
    string_of(v.as_slice())
}

/// The file name has the extension `log` (`Path::extension`: the text
/// after the last `.`, when that `.` does not start the name).
pub open spec fn is_log_name(name: Seq<char>) -> bool {
    has_suffix(name, ".log"@) && name.len() > 4
}

/// The gateway's logs among the entries of its log directory, as
/// (file name, path) pairs: those with the extension `log`, in file-name
/// order.
pub fn select_log_files(entries: &[(String, String)]) -> (res: Vec<(String, String)>)
    ensures
        sorted_by_path(pair_views(res@)),
        pair_views(res@).to_multiset() == pair_views(entries@).filter(
            |p: (Seq<char>, Seq<char>)| is_log_name(p.0),
        ).to_multiset(),
{
    let ghost all = pair_views(entries@);
    let mut kept: Vec<(String, String)> = Vec::new();
    let mut i: usize = 0;
    proof {
        reveal(Seq::filter);
        assert(all.take(0) =~= Seq::<(Seq<char>, Seq<char>)>::empty());
        assert(pair_views(kept@) =~= all.take(0).filter(|p: (Seq<char>, Seq<char>)| is_log_name(p.0)));
    }
    while i < entries.len()
        invariant
            i <= entries@.len(),
            all == pair_views(entries@),
            pair_views(kept@) == all.take(i as int).filter(|p: (Seq<char>, Seq<char>)| is_log_name(p.0)),
        decreases entries.len() - i,
    {
        let ghost before = kept@;
        let name = chars_of(entries[i].0.as_str());
        let is_log = name.len() > 4 && ends_with_str(name.as_slice(), ".log");
        if is_log {
            kept.push((owned(entries[i].0.as_str()), owned(entries[i].1.as_str())));
        }
        proof {
            reveal(Seq::filter);
            let t = all.take(i + 1);
            assert(t.drop_last() =~= all.take(i as int));
            assert(t.last() == all[i as int]);
            assert(all[i as int].0 == entries@[i as int].0@);
            if is_log {
                assert(pair_views(kept@) =~= pair_views(before).push(all[i as int]));
            } else {
                assert(pair_views(kept@) =~= pair_views(before));
            }
        }
        i = i + 1;
    }
    proof {
        assert(all.take(entries@.len() as int) =~= all);
    }
    sort_by_archive_path(kept)
}

/// Naming a tool and routing it are inverse: when an alias neither
/// contains `__` nor ends with `_`, the first `__` of
/// `<alias>__<tool>` is the one the gateway inserted, so a `tools/call`
/// of that name reaches that alias with the backend's own tool name.
pub proof fn lemma_tool_name_round_trip(alias: Seq<char>, tool: Seq<char>)
    requires
        forall|i: int| 0 <= i < alias.len() && #[trigger] alias[i] == '_' ==> i + 1 < alias.len() && alias[i + 1] != '_',
    ensures
        ({
            let full = alias + "__"@ + tool;
            &&& first_separator(full) == Some(alias.len() as int)
            &&& full.take(alias.len() as int) == alias
            &&& full.skip(alias.len() as int + 2) == tool
        }),
{
    reveal_strlit("__");
    let full = alias + "__"@ + tool;
    let n = alias.len() as int;
    assert(full.subrange(n, n + 2) =~= "__"@);
    assert(occurs_at(full, "__"@, n));
    assert forall|j: int| 0 <= j < n implies !occurs_at(full, "__"@, j) by {
        if occurs_at(full, "__"@, j) {
            assert(full.subrange(j, j + 2)[0] == '_');
            assert(full[j] == alias[j]);
            assert(full.subrange(j, j + 2)[1] == '_');
            if j + 1 < n {
                assert(full[j + 1] == alias[j + 1]);
            }
        }
    }
    let c = choose|i: int| occurs_at(full, "__"@, i) && forall|j: int| 0 <= j < i ==> !occurs_at(full, "__"@, j);
    assert(c == n) by {
        if c < n {
        } else if c > n {
            assert(!occurs_at(full, "__"@, n));
        }
    }
    assert(full.take(n) =~= alias);
    assert(full.skip(n + 2) =~= tool);
}


/// The JSON text of a string value, quoted and escaped.
pub uninterp spec fn spec_json_string(s: Seq<char>) -> Seq<char>;

/// `serde_json::to_string` on a `str`: the JSON string literal of `s`. It
/// depends on `s` alone; the escaping rules are named, not spelled out.
/// Writing into a `Vec` cannot fail, so the `Err` arm is never taken.
#[verifier::external_body]
fn json_string(s: &str) -> (res: String)
    ensures
        res@ == spec_json_string(s@),
{
    match serde_json::to_string(s) {
        Ok(t) => t,
        Err(_) => String::new(),
    }
}

/// Decimal text of an integer, with a leading `-` when negative.
pub open spec fn int_text(n: int) -> Seq<char> {
    if n < 0 {
        "-"@ + decimal((-n) as nat)
    } else {
        decimal(n as nat)
    }
}

fn int_text_of(n: i64) -> (res: Vec<char>)
    ensures
        res@ == int_text(n as int),
{
    if n < 0 {
        let m: i64 = -(n + 1);
        let u: u64 = (m as u64) + 1;
        let mut out = chars_of("-");
        proof {
            reveal_strlit("-");
        }
        let d = decimal_of(u);
        extend_chars(&mut out, d.as_slice());
        out
    } else {
        decimal_of(n as u64)
    }
}

/// The body of a JSON-RPC reply, beside its `jsonrpc` and `id`.
#[derive(Debug, Clone, PartialEq, Eq)]
pub enum McpBody {
    /// `"result"`: this JSON text.
    Result(String),
    /// `"error"`: this JSON text, as a backend sent it.
    RawError(String),
    /// `"error"`: an error object with this code and message.
    Error { code: i64, message: String },
    /// Neither a result nor an error (a backend answered with neither).
    Empty,
}

/// The members that the body adds to the reply object, each after a comma.
pub open spec fn body_members(body: McpBody) -> Seq<char> {
    match body {
        McpBody::Result(r) => ",\"result\":"@ + r@,
        McpBody::RawError(e) => ",\"error\":"@ + e@,
        McpBody::Error { code, message } => ",\"error\":{\"code\":"@ + int_text(code as int) + ",\"message\":"@
            + spec_json_string(message@) + "}"@,
        McpBody::Empty => Seq::empty(),
    }
}

/// The JSON-RPC reply object: version `2.0`, the request's `id` echoed as
/// the JSON text `id`, and the body's members.
pub open spec fn reply_json(id: Seq<char>, body: McpBody) -> Seq<char> {
    "{\"jsonrpc\":\"2.0\",\"id\":"@ + id + body_members(body) + "}"@
}

/// The JSON text of the reply to a request whose `id` has the JSON text
/// `id_json`.
pub fn reply_text(id_json: &str, body: &McpBody) -> (res: String)
    ensures
        res@ == reply_json(id_json@, *body),
{
    let mut out = chars_of("{\"jsonrpc\":\"2.0\",\"id\":");
    extend_str(&mut out, id_json);
    match body {
        McpBody::Result(r) => {
            extend_str(&mut out, ",\"result\":");
            extend_str(&mut out, r.as_str());
        },
        McpBody::RawError(e) => {
            extend_str(&mut out, ",\"error\":");
            extend_str(&mut out, e.as_str());
        },
        McpBody::Error { code, message } => {
            extend_str(&mut out, ",\"error\":{\"code\":");
            let c = int_text_of(*code);
            extend_chars(&mut out, c.as_slice());
            extend_str(&mut out, ",\"message\":");
            let m = json_string(message.as_str());
            extend_str(&mut out, m.as_str());
            extend_str(&mut out, "}");
        },
        McpBody::Empty => {},
    }
    extend_str(&mut out, "}");
    let res = string_of(out.as_slice());
    proof {
        let ghost id = id_json@;
        assert(res@ =~= reply_json(id, *body));
    }
    res
}

/// The name the gateway gives itself in `serverInfo`.
pub const SERVER_NAME: &'static str = "xelian-gateway";

/// The `initialize` result: the protocol version echoed, tools without
/// change notifications, the server's name and version, and a note on
/// how tools are named.
pub open spec fn initialize_result(protocol: Seq<char>, version: Seq<char>) -> Seq<char> {
    "{\"protocolVersion\":"@ + spec_json_string(protocol)
        + ",\"capabilities\":{\"tools\":{\"listChanged\":false}},\"serverInfo\":{\"name\":"@
        + spec_json_string(SERVER_NAME@) + ",\"version\":"@ + spec_json_string(version)
        + "},\"instructions\":\"Tools are namespaced <package>__<tool>. GET /status lists backends.\"}"@
}

/// The body answering a decision that needs no backend: `None` for a
/// notification and for the two steps that ask the backends first.
pub fn immediate_body(step: &McpStep, server_version: &str) -> (res: Option<McpBody>)
    ensures
        match *step {
            McpStep::NoReply => res is None,
            McpStep::ListTools => res is None,
            McpStep::CallTool { .. } => res is None,
            McpStep::Initialize { protocol_version } => res matches Some(McpBody::Result(r)) && r@
                == initialize_result(protocol_version@, server_version@),
            McpStep::Pong => res matches Some(McpBody::Result(r)) && r@ == "{}"@,
            McpStep::Error { code, message } => res matches Some(McpBody::Error { code: c, message: m }) && c
                == code && m@ == message@,
        },
{
    match step {
        McpStep::NoReply => None,
        McpStep::ListTools => None,
        McpStep::CallTool { .. } => None,
        McpStep::Initialize { protocol_version } => {
            let mut out = chars_of("{\"protocolVersion\":");
            let p = json_string(protocol_version.as_str());
            extend_str(&mut out, p.as_str());
            extend_str(&mut out, ",\"capabilities\":{\"tools\":{\"listChanged\":false}},\"serverInfo\":{\"name\":");
            let n = json_string(SERVER_NAME);
            extend_str(&mut out, n.as_str());
            extend_str(&mut out, ",\"version\":");
            let v = json_string(server_version);
            extend_str(&mut out, v.as_str());
            extend_str(
                &mut out,
                "},\"instructions\":\"Tools are namespaced <package>__<tool>. GET /status lists backends.\"}",
            );
            let r = string_of(out.as_slice());
            assert(r@ =~= initialize_result(protocol_version@, server_version@));
            Some(McpBody::Result(r))
        },
        McpStep::Pong => Some(McpBody::Result(owned("{}"))),
        McpStep::Error { code, message } => Some(McpBody::Error { code: *code, message: owned(message.as_str()) }),
    }
}

/// The parts joined with `sep` between them.
fn join_with(parts: &[String], sep: &str) -> (res: Vec<char>)
    ensures
        res@ == joined_by(parts@.map_values(|e: String| e@), sep@),
{
    let mut m: Vec<char> = Vec::new();
    let ghost ps = parts@.map_values(|e: String| e@);
    let mut i: usize = 0;
    while i < parts.len()
        invariant
            i <= parts@.len(),
            ps == parts@.map_values(|e: String| e@),
            m@ == joined_by(ps.take(i as int), sep@),
        decreases parts.len() - i,
    {
        if i > 0 {
            extend_str(&mut m, sep);
        }
        extend_str(&mut m, parts[i].as_str());
        proof {
            let t = ps.take(i + 1);
            assert(t.drop_last() =~= ps.take(i as int));
            assert(t.last() == parts@[i as int]@);
        }
        i = i + 1;
    }
    assert(ps.take(parts@.len() as int) =~= ps);
    m
}

/// The body answering `tools/list`, given the JSON text of every tool the
/// backends listed (already renamed `<alias>__<tool>`) and the failures of
/// the backends that did not answer: an error when no tool came and some
/// backend failed, else the merged list.
pub fn tools_list_body(tools: &[String], errors: &[String]) -> (res: McpBody)
    ensures
        tools@.len() == 0 && errors@.len() > 0 ==> (res matches McpBody::Error { code, message } && code
            == -32000 && message@ == "all backends failed: "@ + joined_by(errors@.map_values(|e: String| e@), "; "@)),
        !(tools@.len() == 0 && errors@.len() > 0) ==> (res matches McpBody::Result(r) && r@ == "{\"tools\":["@
            + joined_by(tools@.map_values(|t: String| t@), ","@) + "]}"@),
{
    if let Some(m) = tools_list_failure(tools.len(), errors) {
        return McpBody::Error { code: -32000, message: m };
    }
    let mut out = chars_of("{\"tools\":[");
    let j = join_with(tools, ",");
    extend_chars(&mut out, j.as_slice());
    extend_str(&mut out, "]}");
    McpBody::Result(string_of(out.as_slice()))
}

/// What a backend made of a forwarded `tools/call`.
#[derive(Debug, Clone, PartialEq, Eq)]
pub enum BackendAnswer {
    /// It answered, with the JSON text of its `result` and `error` if any.
    Replied { result: Option<String>, error: Option<String> },
    /// The request failed with this message.
    Failed(String),
}

/// The body answering a `tools/call` that backend `alias` handled: its
/// result, else its error, else nothing; or error -32000 when it failed.
pub fn tools_call_body(alias: &str, answer: &BackendAnswer) -> (res: McpBody)
    ensures
        match *answer {
            BackendAnswer::Replied { result: Some(r), .. } => res matches McpBody::Result(x) && x@ == r@,
            BackendAnswer::Replied { result: None, error: Some(e) } => res matches McpBody::RawError(x) && x@ == e@,
            BackendAnswer::Replied { result: None, error: None } => res == McpBody::Empty,
            BackendAnswer::Failed(e) => res matches McpBody::Error { code, message } && code == -32000 && message@
                == "backend "@ + alias@ + " failed: "@ + e@,
        },
{
    match answer {
        BackendAnswer::Replied { result: Some(r), .. } => McpBody::Result(owned(r.as_str())),
        BackendAnswer::Replied { result: None, error: Some(e) } => McpBody::RawError(owned(e.as_str())),
        BackendAnswer::Replied { result: None, error: None } => McpBody::Empty,
        BackendAnswer::Failed(e) => {
            let mut m = chars_of("backend ");
            extend_str(&mut m, alias);
            extend_str(&mut m, " failed: ");
            extend_str(&mut m, e.as_str());
            McpBody::Error { code: -32000, message: string_of(m.as_slice()) }
        },
    }
}

} // verus!
