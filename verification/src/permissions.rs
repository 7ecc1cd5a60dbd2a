//! First-run permission prompts: which declared permissions still need a
//! decision, how an answer is read, and how a decision is recorded.
//!
//! Permissions are disclosure-only: a denied permission is recorded, not
//! enforced. Reading and writing the grant file and talking to the
//! terminal are the caller's business.

use vstd::prelude::*;

use crate::text::{owned, str_eq, trim, trim_chars, chars_of, string_of, extend_str};

verus! {

/// Errors from the permissions subsystem.
#[derive(Debug, Clone, PartialEq, Eq)]
pub enum PermissionError {
    /// Reading or writing the grant file failed.
    Io(String),
    /// The grant state could not be serialised.
    Serde(String),
    /// The grant file could not be parsed.
    SerdeDe(String),
}

/// The persisted decisions for one package version.
#[derive(Debug, Clone, PartialEq, Eq)]
pub struct Grants {
    /// Permissions the user granted.
    pub granted: Vec<String>,
    /// Permissions the user denied.
    pub denied: Vec<String>,
}

/// `p` occurs in `v`.
pub open spec fn listed(v: Seq<String>, p: Seq<char>) -> bool {
    exists|i: int| 0 <= i < v.len() && #[trigger] v[i]@ == p
}

/// `p` was granted or denied in `g`.
pub open spec fn decided(g: Grants, p: Seq<char>) -> bool {
    listed(g.granted@, p) || listed(g.denied@, p)
}

fn contains_text(v: &[String], p: &str) -> (res: bool)
    ensures
        res == listed(v@, p@),
{
    let r = contains_text_before(v, v.len(), p);
    assert(v@.take(v@.len() as int) =~= v@);
    r
}

fn contains_text_before(v: &[String], n: usize, p: &str) -> (res: bool)
    requires
        n <= v@.len(),
    ensures
        res == listed(v@.take(n as int), p@),
{
    let mut i: usize = 0;
    while i < n
        invariant
            n <= v@.len(),
            i <= n,
            forall|j: int| 0 <= j < i ==> #[trigger] v@[j]@ != p@,
        decreases v.len() - i,
    {
        if str_eq(v[i].as_str(), p) {
            assert(v@.take(n as int)[i as int] == v@[i as int]);
            return true;
        }
        i = i + 1;
    }
    assert(!listed(v@.take(n as int), p@)) by {
        assert forall|j: int| 0 <= j < n implies #[trigger] v@.take(n as int)[j]@ != p@ by {
            assert(v@.take(n as int)[j] == v@[j]);
        }
    }
    false
}

impl Grants {
    /// No decisions yet.
    pub fn empty() -> (res: Grants)
        ensures
            res.granted@.len() == 0,
            res.denied@.len() == 0,
    {
        Grants { granted: Vec::new(), denied: Vec::new() }
    }

    /// Whether `permission` has been granted or denied.
    pub fn is_decided(&self, permission: &str) -> (res: bool)
        ensures
            res == decided(*self, permission@),
    {
        contains_text(self.granted.as_slice(), permission) || contains_text(self.denied.as_slice(), permission)
    }

    /// Records the user's answer for `permission`: appended to `granted`
    /// when `granted`, else to `denied`.
    pub fn record(&mut self, permission: &str, granted: bool)
        ensures
            granted ==> final(self).granted@.len() == old(self).granted@.len() + 1
                && final(self).granted@.last()@ == permission@
                && final(self).granted@.drop_last() == old(self).granted@
                && final(self).denied@ == old(self).denied@,
            !granted ==> final(self).denied@.len() == old(self).denied@.len() + 1
                && final(self).denied@.last()@ == permission@
                && final(self).denied@.drop_last() == old(self).denied@
                && final(self).granted@ == old(self).granted@,
            forall|q: Seq<char>| #[trigger] decided(*final(self), q) == (decided(*old(self), q) || q == permission@),
    {
        let ghost before = *self;
        if granted {
            self.granted.push(owned(permission));
        } else {
            self.denied.push(owned(permission));
        }
        proof {
            assert forall|q: Seq<char>| #[trigger] decided(*self, q) == (decided(before, q) || q == permission@) by {
                if granted {
                    assert(self.granted@.last()@ == permission@);
                    if listed(before.granted@, q) {
                        let i = choose|i: int| 0 <= i < before.granted@.len() && #[trigger] before.granted@[i]@ == q;
                        assert(self.granted@[i] == before.granted@[i]);
                    }
                    if listed(self.granted@, q) {
                        let i = choose|i: int| 0 <= i < self.granted@.len() && #[trigger] self.granted@[i]@ == q;
                        if i < before.granted@.len() {
                            assert(self.granted@[i] == before.granted@[i]);
                        }
                    }
                } else {
                    assert(self.denied@.last()@ == permission@);
                    if listed(before.denied@, q) {
                        let i = choose|i: int| 0 <= i < before.denied@.len() && #[trigger] before.denied@[i]@ == q;
                        assert(self.denied@[i] == before.denied@[i]);
                    }
                    if listed(self.denied@, q) {
                        let i = choose|i: int| 0 <= i < self.denied@.len() && #[trigger] self.denied@[i]@ == q;
                        if i < before.denied@.len() {
                            assert(self.denied@[i] == before.denied@[i]);
                        }
                    }
                }
            }
        }
    }
}

/// The declared permissions still to be asked about, in declaration
/// order: each only at its first occurrence, and only when undecided.
pub open spec fn pending(perms: Seq<String>, g: Grants) -> Seq<Seq<char>>
    decreases perms.len(),
{
    if perms.len() == 0 {
        Seq::empty()
    } else {
        let before = pending(perms.drop_last(), g);
        let p = perms.last()@;
        if !listed(perms.drop_last(), p) && !decided(g, p) {
            before.push(p)
        } else {
            before
        }
    }
}

/// The permissions of `permissions` that still need a decision under
/// `grants`: duplicates collapse to their first occurrence, declaration
/// order is kept, and decided ones are left out.
pub fn undecided(permissions: &[String], grants: &Grants) -> (res: Vec<String>)
    ensures
        res@.map_values(|s: String| s@) == pending(permissions@, *grants),
{
    let mut out: Vec<String> = Vec::new();
    let mut i: usize = 0;
    while i < permissions.len()
        invariant
            i <= permissions@.len(),
            out@.map_values(|s: String| s@) == pending(permissions@.take(i as int), *grants),
        decreases permissions.len() - i,
    {
        let p = permissions[i].as_str();
        let seen = contains_text_before(permissions, i, p);
        let known = grants.is_decided(p);
        let ghost before = out@;
        if !seen && !known {
            out.push(owned(p));
        }
        proof {
            let t = permissions@.take(i + 1);
            assert(t.drop_last() =~= permissions@.take(i as int));
            if !seen && !known {
                assert(out@.map_values(|s: String| s@) =~= before.map_values(|s: String| s@).push(p@));
            } else {
                assert(out@ == before);
            }
        }
        i = i + 1;
    }
    assert(permissions@.take(permissions@.len() as int) =~= permissions@);
    out
}

/// `str::to_lowercase`: the Unicode lower-case mapping of `s`.
pub uninterp spec fn spec_to_lowercase(s: Seq<char>) -> Seq<char>;

/// `str::to_lowercase`. The Unicode mapping is named, not spelled out.
#[verifier::external_body]
fn to_lowercase(s: &str) -> (res: String)
    ensures
        res@ == spec_to_lowercase(s@),
{
    s.to_lowercase()
}

/// The answer a reply line gives: `Some(true)` for `y`/`yes`, `Some(false)`
/// for `n`/`no` (after trimming, in any case), `None` for anything else.
pub open spec fn answer_of(line: Seq<char>) -> Option<bool> {
    let a = spec_to_lowercase(trim(line));
    if a == "y"@ || a == "yes"@ {
        Some(true)
    } else if a == "n"@ || a == "no"@ {
        Some(false)
    } else {
        None
    }
}

/// Reads a reply to a permission prompt: grant, deny, or neither (the
/// caller asks again).
pub fn parse_answer(line: &str) -> (res: Option<bool>)
    ensures
        res == answer_of(line@),
{
    let t = trim_chars(chars_of(line).as_slice());
    let ts = string_of(t.as_slice());
    let a = to_lowercase(ts.as_str());
    let s = a.as_str();
    if str_eq(s, "y") || str_eq(s, "yes") {
        Some(true)
    } else if str_eq(s, "n") || str_eq(s, "no") {
        Some(false)
    } else {
        None
    }
}

/// The question asked for one permission.
pub fn prompt_text(permission: &str) -> (res: String)
    ensures
        res@ == "  • "@ + permission@ + " — grant? [y/n] "@,
{
    let mut v = chars_of("  • ");
    extend_str(&mut v, permission);
    extend_str(&mut v, " — grant? [y/n] ");
    string_of(v.as_slice())
}

/// The banner printed before the permissions of `name` `version` are
/// disclosed.
pub fn disclosure_banner(name: &str, version: &str) -> (res: String)
    ensures
        res@ == "Package "@ + name@ + " v"@ + version@
            + " requires the following permissions (disclosure-only, not enforced in V1):"@,
{
    let mut v = chars_of("Package ");
    extend_str(&mut v, name);
    extend_str(&mut v, " v");
    extend_str(&mut v, version);
    extend_str(&mut v, " requires the following permissions (disclosure-only, not enforced in V1):");
    string_of(v.as_slice())
}

/// What is asked about: each entry is declared, undecided, and asked
/// once; and every declared, undecided permission is asked about.
pub proof fn lemma_pending_exact(perms: Seq<String>, g: Grants)
    ensures
        forall|i: int| 0 <= i < pending(perms, g).len() ==> listed(perms, #[trigger] pending(perms, g)[i])
            && !decided(g, pending(perms, g)[i]),
        forall|i: int, j: int|
            0 <= i < j < pending(perms, g).len() ==> #[trigger] pending(perms, g)[i] != #[trigger] pending(
                perms,
                g,
            )[j],
        forall|k: int|
            0 <= k < perms.len() && !decided(g, #[trigger] perms[k]@) ==> pending(perms, g).contains(perms[k]@),
    decreases perms.len(),
{
    if perms.len() > 0 {
        let init = perms.drop_last();
        lemma_pending_exact(init, g);
        let before = pending(init, g);
        let p = perms.last()@;
        let now = pending(perms, g);
        assert forall|i: int| 0 <= i < now.len() implies listed(perms, #[trigger] now[i]) && !decided(g, now[i]) by {
            if i < before.len() {
                assert(now[i] == before[i]);
                let k = choose|k: int| 0 <= k < init.len() && #[trigger] init[k]@ == before[i];
                assert(perms[k] == init[k]);
            } else {
                assert(now[i] == p);
                assert(perms[perms.len() - 1]@ == p);
            }
        }
        assert forall|i: int, j: int| 0 <= i < j < now.len() implies #[trigger] now[i] != #[trigger] now[j] by {
            if j < before.len() {
                assert(now[i] == before[i] && now[j] == before[j]);
            } else {
                assert(now[j] == p && now[i] == before[i]);
                if before[i] == p {
                    let k = choose|k: int| 0 <= k < init.len() && #[trigger] init[k]@ == before[i];
                    assert(listed(init, p));
                }
            }
        }
        assert forall|k: int| 0 <= k < perms.len() && !decided(g, #[trigger] perms[k]@) implies now.contains(
            perms[k]@,
        ) by {
            if k < init.len() {
                assert(perms[k] == init[k]);
                let i = choose|i: int| 0 <= i < before.len() && before[i] == init[k]@;
                assert(now[i] == before[i]);
            } else if !listed(init, p) {
                assert(now[now.len() - 1] == p);
            } else {
                let m = choose|m: int| 0 <= m < init.len() && #[trigger] init[m]@ == p;
                let i = choose|i: int| 0 <= i < before.len() && before[i] == init[m]@;
                assert(now[i] == before[i]);
            }
        }
    }
}

/// What the first-run permission step does.
#[derive(Debug, Clone, PartialEq, Eq)]
pub enum FirstRunPlan {
    /// Nothing is pending: no output, nothing recorded.
    Skip,
    /// Not on a terminal: list these pending permissions, ask nothing and
    /// record nothing (silence is not consent).
    DiscloseOnly(Vec<String>),
    /// On a terminal: ask about these pending permissions in order.
    Ask(Vec<String>),
}

/// Decides the first-run permission step for the declared `permissions`
/// under `grants`, `interactive` saying whether stdin is a terminal.
pub fn first_run_plan(permissions: &[String], grants: &Grants, interactive: bool) -> (res: FirstRunPlan)
    ensures
        pending(permissions@, *grants).len() == 0 ==> res == FirstRunPlan::Skip,
        pending(permissions@, *grants).len() > 0 && !interactive ==> (res matches FirstRunPlan::DiscloseOnly(p)
            && p@.map_values(|s: String| s@) == pending(permissions@, *grants)),
        pending(permissions@, *grants).len() > 0 && interactive ==> (res matches FirstRunPlan::Ask(p)
            && p@.map_values(|s: String| s@) == pending(permissions@, *grants)),
{
    let p = undecided(permissions, grants);
    if p.len() == 0 {
        FirstRunPlan::Skip
    } else if interactive {
        FirstRunPlan::Ask(p)
    } else {
        FirstRunPlan::DiscloseOnly(p)
    }
}

/// What a permissions error says.
pub open spec fn permission_error_text(e: PermissionError) -> Seq<char> {
    match e {
        PermissionError::Io(m) => "I/O error managing permissions: "@ + m@,
        PermissionError::Serde(m) => "failed to serialize grant state: "@ + m@,
        PermissionError::SerdeDe(m) => "failed to deserialize grant state: "@ + m@,
    }
}

impl PermissionError {
    /// Human-readable description of the error.
    pub fn message(&self) -> (res: String)
        ensures
            res@ == permission_error_text(*self),
    {
        let mut v = chars_of("");
        proof {
            reveal_strlit("");
        }
        match self {
            PermissionError::Io(m) => {
                extend_str(&mut v, "I/O error managing permissions: ");
                extend_str(&mut v, m.as_str());
            },
            PermissionError::Serde(m) => {
                extend_str(&mut v, "failed to serialize grant state: ");
                extend_str(&mut v, m.as_str());
            },
            PermissionError::SerdeDe(m) => {
                extend_str(&mut v, "failed to deserialize grant state: ");
                extend_str(&mut v, m.as_str());
            },
        }
        string_of(v.as_slice())
    }
}

} // verus!
