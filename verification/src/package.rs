//! The file set of a `.harbor` archive: which walked files are packaged,
//! their archive-relative paths, their deterministic order and their tar
//! modes. Walking the tree (honouring `.gitignore`) and writing the
//! gzip-compressed tar are the caller's business.

use vstd::prelude::*;

use crate::text::{
    chars_of, ends_with_str, extend_str, has_suffix, lemma_lex_asym, lemma_lex_le_trans, lex_less, lex_lt,
    matches_at, occurs_at, owned, string_of,
};
use vstd::multiset::Multiset;
use vstd::seq_lib::{to_multiset_build, to_multiset_insert};

verus! {

/// Errors while collecting a package's file set or building its archive.
#[derive(Debug, Clone, PartialEq, Eq)]
pub enum PackageError {
    /// Walking the directory tree failed.
    Walk { root: String, message: String },
    /// Reading a source file or writing the archive failed.
    Io { path: String, message: String },
}

/// `c` is a whole `/`-separated component of `p`, starting at `i`.
pub open spec fn component_at(p: Seq<char>, c: Seq<char>, i: int) -> bool {
    &&& occurs_at(p, c, i)
    &&& (i == 0 || p[i - 1] == '/')
    &&& (i + c.len() == p.len() || p[i + c.len()] == '/')
}

/// Archive paths that are never packaged: anything under a `.git`
/// component, and previously built archives (`*.harbor`) or their staging
/// files (`*.harbor.tmp`).
pub open spec fn excluded_path(p: Seq<char>) -> bool {
    ||| exists|i: int| component_at(p, ".git"@, i)
    ||| has_suffix(p, ".harbor"@)
    ||| has_suffix(p, ".harbor.tmp"@)
}

/// Whether `.git` is a whole component of `v`.
fn has_git_component(v: &[char]) -> (res: bool)
    ensures
        res == exists|i: int| component_at(v@, ".git"@, i),
{
    let git = chars_of(".git");
    proof {
        reveal_strlit(".git");
    }
    if v.len() < 4 {
        assert forall|i: int| !component_at(v@, ".git"@, i) by {}
        return false;
    }
    let n = v.len();
    let mut i: usize = 0;
    while i <= n - 4
        invariant
            n == v@.len(),
            n >= 4,
            git@ == ".git"@,
            git@.len() == 4,
            i <= n - 3,
            forall|k: int| 0 <= k < i ==> !component_at(v@, ".git"@, k),
        decreases n - i,
    {
        if matches_at(v, git.as_slice(), i) && (i == 0 || v[i - 1] == '/') && (i + 4 == n || v[i + 4] == '/') {
            assert(component_at(v@, ".git"@, i as int));
            return true;
        }
        i = i + 1;
    }
    assert forall|k: int| !component_at(v@, ".git"@, k) by {
        if k >= i {
            assert(!occurs_at(v@, ".git"@, k));
        }
    }
    false
}

/// Whether a walked file at archive path `path` is left out of the package.
pub fn is_excluded(path: &str) -> (res: bool)
    ensures
        res == excluded_path(path@),
{
    let v = chars_of(path);
    has_git_component(v.as_slice()) || ends_with_str(v.as_slice(), ".harbor") || ends_with_str(
        v.as_slice(),
        ".harbor.tmp",
    )
}

/// The components joined with `/`.
pub open spec fn joined(parts: Seq<Seq<char>>) -> Seq<char>
    decreases parts.len(),
{
    if parts.len() == 0 {
        Seq::empty()
    } else if parts.len() == 1 {
        parts[0]
    } else {
        joined(parts.drop_last()) + "/"@ + parts.last()
    }
}

/// The archive path of a file from the components of its path relative to
/// the package root: joined with `/`, whatever the platform's separator.
pub fn to_archive_path(components: &[String]) -> (res: String)
    ensures
        res@ == joined(components@.map_values(|c: String| c@)),
{
    let ghost parts = components@.map_values(|c: String| c@);
    let mut out: Vec<char> = Vec::new();
    let mut i: usize = 0;
    while i < components.len()
        invariant
            i <= components@.len(),
            parts == components@.map_values(|c: String| c@),
            out@ == joined(parts.take(i as int)),
        decreases components.len() - i,
    {
        if i > 0 {
            extend_str(&mut out, "/");
        }
        extend_str(&mut out, components[i].as_str());
        proof {
            reveal_strlit("/");
            let t = parts.take(i + 1);
            assert(t.drop_last() =~= parts.take(i as int));
            assert(t.last() == components@[i as int]@);
        }
        i = i + 1;
    }
    assert(parts.take(components@.len() as int) =~= parts);
    string_of(out.as_slice())
}

/// The tar mode of a packaged file: `0o755` when any executable bit is set
/// on disk, else `0o644`.
pub fn file_mode(executable: bool) -> (res: u32)
    ensures
        res == (if executable { 0o755u32 } else { 0o644u32 }),
{
    if executable {
        0o755
    } else {
        0o644
    }
}

/// The texts of a list of (archive path, disk path) pairs.
pub open spec fn pair_views(v: Seq<(String, String)>) -> Seq<(Seq<char>, Seq<char>)> {
    v.map_values(|p: (String, String)| (p.0@, p.1@))
}

/// Archive paths in non-decreasing byte order.
pub open spec fn sorted_by_path(v: Seq<(Seq<char>, Seq<char>)>) -> bool {
    forall|i: int, j: int| 0 <= i < j < v.len() ==> !lex_lt(#[trigger] v[j].0, #[trigger] v[i].0)
}

/// Sorts (archive path, disk path) pairs by archive path in byte order.
pub fn sort_by_archive_path(files: Vec<(String, String)>) -> (res: Vec<(String, String)>)
    ensures
        sorted_by_path(pair_views(res@)),
        pair_views(res@).to_multiset() == pair_views(files@).to_multiset(),
{
    let ghost orig = pair_views(files@);
    let mut rest = files;
    let mut out: Vec<(String, String)> = Vec::new();
    proof {
        broadcast use vstd::multiset::group_multiset_axioms;

        assert(pair_views(out@) =~= Seq::<(Seq<char>, Seq<char>)>::empty());
        vstd::seq_lib::to_multiset_len(pair_views(out@));
        vstd::multiset::lemma_multiset_empty_len(pair_views(out@).to_multiset());
        assert(pair_views(rest@) =~= orig);
        assert(orig.to_multiset().add(Multiset::empty()) =~= orig.to_multiset());
    }
    while rest.len() > 0
        invariant
            sorted_by_path(pair_views(out@)),
            pair_views(rest@).to_multiset().add(pair_views(out@).to_multiset()) == orig.to_multiset(),
        decreases rest.len(),
    {
        let ghost before = rest@;
        let x = rest.pop().unwrap();
        proof {
            assert(before =~= rest@.push(x));
            assert(pair_views(before) =~= pair_views(rest@).push((x.0@, x.1@)));
            to_multiset_build(pair_views(rest@), (x.0@, x.1@));
        }
        let ghost ov = pair_views(out@);
        let mut pos: usize = 0;
        while pos < out.len() && lex_less(out[pos].0.as_str(), x.0.as_str())
            invariant
                pos <= out@.len(),
                ov == pair_views(out@),
                forall|k: int| 0 <= k < pos ==> lex_lt(#[trigger] ov[k].0, x.0@),
            decreases out.len() - pos,
        {
            pos = pos + 1;
        }
        let ghost xv = (x.0@, x.1@);
        out.insert(pos, x);
        proof {
            let nv = pair_views(out@);
            assert(nv =~= ov.insert(pos as int, xv));
            to_multiset_insert(ov, pos as int, xv);
            broadcast use vstd::multiset::group_multiset_axioms;

            let rv = pair_views(rest@).to_multiset();
            assert(rv.insert(xv).add(ov.to_multiset()) =~= rv.add(ov.to_multiset().insert(xv)));
            assert forall|i: int, j: int| 0 <= i < j < nv.len() implies !lex_lt(
                #[trigger] nv[j].0,
                #[trigger] nv[i].0,
            ) by {
                if j < pos {
                } else if j == pos {
                    lemma_lex_asym(nv[i].0, xv.0);
                } else if i > pos {
                    assert(nv[i] == ov[i - 1] && nv[j] == ov[j - 1]);
                } else if i == pos {
                    assert(nv[j] == ov[j - 1]);
                    if pos < ov.len() {
                        assert(!lex_lt(ov[pos as int].0, xv.0));
                        if j - 1 > pos {
                            assert(!lex_lt(ov[j - 1].0, ov[pos as int].0));
                            lemma_lex_le_trans(xv.0, ov[pos as int].0, ov[j - 1].0);
                        }
                    }
                } else {
                    assert(nv[i] == ov[i] && nv[j] == ov[j - 1]);
                }
            }
        }
    }
    proof {
        broadcast use vstd::multiset::group_multiset_axioms;

        assert(pair_views(rest@) =~= Seq::<(Seq<char>, Seq<char>)>::empty());
        vstd::seq_lib::to_multiset_len(pair_views(rest@));
        vstd::multiset::lemma_multiset_empty_len(pair_views(rest@).to_multiset());
        assert(Multiset::empty().add(pair_views(out@).to_multiset()) =~= pair_views(out@).to_multiset());
    }
    out
}

/// The walked entry is packaged.
pub open spec fn kept_entry(p: (Seq<char>, Seq<char>)) -> bool {
    !excluded_path(p.0)
}

/// The files of a package from the regular files a `.gitignore`-aware walk
/// found, as (archive path, disk path) pairs: excluded paths (see
/// [`is_excluded`]) are dropped and the rest sorted by archive path in
/// byte order.
pub fn select_package_files(walked: &[(String, String)]) -> (res: Vec<(String, String)>)
    ensures
        sorted_by_path(pair_views(res@)),
        pair_views(res@).to_multiset() == pair_views(walked@).filter(|p: (Seq<char>, Seq<char>)| kept_entry(p)).to_multiset(),
{
    let ghost all = pair_views(walked@);
    let mut kept: Vec<(String, String)> = Vec::new();
    let mut i: usize = 0;
    proof {
        reveal(Seq::filter);
        assert(all.take(0) =~= Seq::<(Seq<char>, Seq<char>)>::empty());
        assert(pair_views(kept@) =~= all.take(0).filter(|p: (Seq<char>, Seq<char>)| kept_entry(p)));
    }
    while i < walked.len()
        invariant
            i <= walked@.len(),
            all == pair_views(walked@),
            pair_views(kept@) == all.take(i as int).filter(|p: (Seq<char>, Seq<char>)| kept_entry(p)),
        decreases walked.len() - i,
    {
        let ghost before = kept@;
        let excluded = is_excluded(walked[i].0.as_str());
        if !excluded {
            kept.push((owned(walked[i].0.as_str()), owned(walked[i].1.as_str())));
        }
        proof {
            reveal(Seq::filter);
            let t = all.take(i + 1);
            assert(t.drop_last() =~= all.take(i as int));
            assert(t.last() == all[i as int]);
            assert(all[i as int].0 == walked@[i as int].0@);
            assert(kept_entry(all[i as int]) == !excluded);
            assert(t.filter(|p: (Seq<char>, Seq<char>)| kept_entry(p)) == if kept_entry(t.last()) {
                t.drop_last().filter(|p: (Seq<char>, Seq<char>)| kept_entry(p)).push(t.last())
            } else {
                t.drop_last().filter(|p: (Seq<char>, Seq<char>)| kept_entry(p))
            });
            if !excluded {
                assert(pair_views(kept@) =~= pair_views(before).push(all[i as int]));
            } else {
                assert(pair_views(kept@) =~= pair_views(before));
            }
        }
        i = i + 1;
    }
    proof {
        assert(all.take(walked@.len() as int) =~= all);
    }
    sort_by_archive_path(kept)
}

/// No two entries share an archive path.
pub open spec fn distinct_paths(v: Seq<(Seq<char>, Seq<char>)>) -> bool {
    forall|i: int, j: int| 0 <= i < v.len() && 0 <= j < v.len() && i != j ==> #[trigger] v[i].0 != #[trigger] v[j].0
}

proof fn lemma_filter_keeps_distinct(s: Seq<(Seq<char>, Seq<char>)>)
    requires
        distinct_paths(s),
    ensures
        distinct_paths(s.filter(|p: (Seq<char>, Seq<char>)| kept_entry(p))),
    decreases s.len(),
{
    reveal(Seq::filter);
    let pred = |p: (Seq<char>, Seq<char>)| kept_entry(p);
    if s.len() > 0 {
        let d = s.drop_last();
        assert forall|i: int, j: int| 0 <= i < d.len() && 0 <= j < d.len() && i != j implies #[trigger] d[i].0
            != #[trigger] d[j].0 by {
            assert(d[i] == s[i] && d[j] == s[j]);
        }
        lemma_filter_keeps_distinct(d);
        let fd = d.filter(pred);
        if kept_entry(s.last()) {
            let f = fd.push(s.last());
            assert(s.filter(pred) == f);
            assert forall|i: int, j: int| 0 <= i < f.len() && 0 <= j < f.len() && i != j implies #[trigger] f[i].0
                != #[trigger] f[j].0 by {
                if i < fd.len() && j < fd.len() {
                    assert(f[i] == fd[i] && f[j] == fd[j]);
                } else {
                    let k = if i < fd.len() { i } else { j };
                    assert(fd.contains(fd[k]));
                    d.lemma_filter_contains_rev(pred, fd[k]);
                    let m = choose|m: int| 0 <= m < d.len() && d[m] == fd[k];
                    assert(s[m] == d[m]);
                    assert(s[s.len() - 1] == s.last());
                }
            }
        }
    }
}

/// When the walk found every archive path once, the package's file list
/// is in strictly increasing byte order: sorted, and with no path twice.
pub proof fn lemma_distinct_walk_gives_strict_order(
    walked: Seq<(Seq<char>, Seq<char>)>,
    files: Seq<(Seq<char>, Seq<char>)>,
)
    requires
        distinct_paths(walked),
        sorted_by_path(files),
        files.to_multiset() == walked.filter(|p: (Seq<char>, Seq<char>)| kept_entry(p)).to_multiset(),
    ensures
        forall|i: int, j: int| 0 <= i < j < files.len() ==> lex_lt(#[trigger] files[i].0, #[trigger] files[j].0),
{
    broadcast use vstd::multiset::group_multiset_axioms;
    broadcast use vstd::seq_lib::group_to_multiset_ensures;

    let f = walked.filter(|p: (Seq<char>, Seq<char>)| kept_entry(p));
    lemma_filter_keeps_distinct(walked);
    assert(f.no_duplicates());
    f.lemma_multiset_has_no_duplicates();
    files.lemma_multiset_has_no_duplicates_conv();
    assert forall|i: int, j: int| 0 <= i < j < files.len() implies lex_lt(#[trigger] files[i].0, #[trigger] files[j].0) by {
        assert(files.contains(files[i]));
        assert(files.contains(files[j]));
        assert(files.to_multiset().count(files[i]) > 0);
        assert(files.to_multiset().count(files[j]) > 0);
        assert(f.contains(files[i]));
        assert(f.contains(files[j]));
        let a = choose|a: int| 0 <= a < f.len() && f[a] == files[i];
        let b = choose|b: int| 0 <= b < f.len() && f[b] == files[j];
        assert(files[i] != files[j]);
        assert(a != b);
        assert(f[a].0 != f[b].0);
        crate::text::lemma_lex_total(files[i].0, files[j].0);
        assert(!lex_lt(files[j].0, files[i].0));
    }
}

/// A package's file list holds only what is packaged: no path has a
/// `.git` component, and none is a built archive (`*.harbor`) or its
/// staging file (`*.harbor.tmp`); every entry came from the walk.
pub proof fn lemma_selected_files_exclude_git_and_archives(
    walked: Seq<(Seq<char>, Seq<char>)>,
    files: Seq<(Seq<char>, Seq<char>)>,
)
    requires
        files.to_multiset() == walked.filter(|p: (Seq<char>, Seq<char>)| kept_entry(p)).to_multiset(),
    ensures
        forall|i: int| 0 <= i < files.len() ==> {
            &&& !(exists|k: int| component_at(#[trigger] files[i].0, ".git"@, k))
            &&& !has_suffix(files[i].0, ".harbor"@)
            &&& !has_suffix(files[i].0, ".harbor.tmp"@)
            &&& walked.contains(files[i])
        },
{
    broadcast use vstd::multiset::group_multiset_axioms;
    broadcast use vstd::seq_lib::group_to_multiset_ensures;

    let pred = |p: (Seq<char>, Seq<char>)| kept_entry(p);
    let f = walked.filter(pred);
    assert forall|i: int| 0 <= i < files.len() implies {
        &&& !(exists|k: int| component_at(#[trigger] files[i].0, ".git"@, k))
        &&& !has_suffix(files[i].0, ".harbor"@)
        &&& !has_suffix(files[i].0, ".harbor.tmp"@)
        &&& walked.contains(files[i])
    } by {
        assert(files.contains(files[i]));
        assert(files.to_multiset().count(files[i]) > 0);
        assert(f.contains(files[i]));
        let a = choose|a: int| 0 <= a < f.len() && f[a] == files[i];
        walked.lemma_filter_pred(pred, a);
        walked.lemma_filter_contains_rev(pred, files[i]);
    }
}

/// Strictly increasing by path.
pub open spec fn strictly_sorted(v: Seq<(Seq<char>, Seq<char>)>) -> bool {
    forall|i: int, j: int| 0 <= i < j < v.len() ==> lex_lt(#[trigger] v[i].0, #[trigger] v[j].0)
}

proof fn lemma_strictly_sorted_unique(a: Seq<(Seq<char>, Seq<char>)>, b: Seq<(Seq<char>, Seq<char>)>)
    requires
        strictly_sorted(a),
        strictly_sorted(b),
        a.to_multiset() == b.to_multiset(),
    ensures
        a == b,
    decreases a.len(),
{
    broadcast use vstd::multiset::group_multiset_axioms;
    broadcast use vstd::seq_lib::group_to_multiset_ensures;

    vstd::seq_lib::to_multiset_len(a);
    vstd::seq_lib::to_multiset_len(b);
    assert(a.len() == b.len());
    if a.len() > 0 {
        assert(a.contains(a[0]));
        assert(b.to_multiset().count(a[0]) > 0);
        assert(b.contains(a[0]));
        assert(b.contains(b[0]));
        assert(a.to_multiset().count(b[0]) > 0);
        assert(a.contains(b[0]));
        let k = choose|k: int| 0 <= k < b.len() && b[k] == a[0];
        let j = choose|j: int| 0 <= j < a.len() && a[j] == b[0];
        if k > 0 && j > 0 {
            assert(lex_lt(b[0].0, b[k].0));
            assert(lex_lt(a[0].0, a[j].0));
            lemma_lex_asym(a[0].0, b[0].0);
        } else if k == 0 {
        } else {
            assert(a[0] == b[0]);
        }
        assert(a[0] == b[0]);
        let a2 = a.drop_first();
        let b2 = b.drop_first();
        assert(a =~= a2.insert(0, a[0]));
        assert(b =~= b2.insert(0, b[0]));
        vstd::seq_lib::to_multiset_insert(a2, 0, a[0]);
        vstd::seq_lib::to_multiset_insert(b2, 0, b[0]);
        assert(a.to_multiset() == a2.to_multiset().insert(a[0]));
        assert(b.to_multiset() == b2.to_multiset().insert(a[0]));
        assert forall|v: (Seq<char>, Seq<char>)| a2.to_multiset().count(v) == b2.to_multiset().count(v) by {
            assert(a.to_multiset().count(v) == b.to_multiset().count(v));
            assert(a2.to_multiset().insert(a[0]).count(v) == a2.to_multiset().count(v) + if v == a[0] { 1nat } else { 0nat });
            assert(b2.to_multiset().insert(a[0]).count(v) == b2.to_multiset().count(v) + if v == a[0] { 1nat } else { 0nat });
        }
        assert(a2.to_multiset() =~= b2.to_multiset());
        assert forall|i: int, j: int| 0 <= i < j < a2.len() implies lex_lt(#[trigger] a2[i].0, #[trigger] a2[j].0) by {
            assert(a2[i] == a[i + 1] && a2[j] == a[j + 1]);
        }
        assert forall|i: int, j: int| 0 <= i < j < b2.len() implies lex_lt(#[trigger] b2[i].0, #[trigger] b2[j].0) by {
            assert(b2[i] == b[i + 1] && b2[j] == b[j + 1]);
        }
        lemma_strictly_sorted_unique(a2, b2);
        assert(a =~= b);
    }
}

/// The package's file list is a function of what the walk found: from the
/// same walked files (every path once), two selections give the same list
/// in the same order. With fixed entry metadata, the archive built from
/// that list is then the same too.
pub proof fn lemma_equal_walks_give_equal_file_lists(
    walked: Seq<(Seq<char>, Seq<char>)>,
    files1: Seq<(Seq<char>, Seq<char>)>,
    files2: Seq<(Seq<char>, Seq<char>)>,
)
    requires
        distinct_paths(walked),
        sorted_by_path(files1),
        sorted_by_path(files2),
        files1.to_multiset() == walked.filter(|p: (Seq<char>, Seq<char>)| kept_entry(p)).to_multiset(),
        files2.to_multiset() == walked.filter(|p: (Seq<char>, Seq<char>)| kept_entry(p)).to_multiset(),
    ensures
        files1 == files2,
{
    lemma_distinct_walk_gives_strict_order(walked, files1);
    lemma_distinct_walk_gives_strict_order(walked, files2);
    lemma_strictly_sorted_unique(files1, files2);
}

/// What a packaging error says.
pub open spec fn package_error_text(e: PackageError) -> Seq<char> {
    match e {
        PackageError::Walk { root, message } => "failed to walk "@ + root@ + ": "@ + message@,
        PackageError::Io { path, message } => "I/O error at "@ + path@ + ": "@ + message@,
    }
}

impl PackageError {
    /// Human-readable description of the error.
    pub fn message(&self) -> (res: String)
        ensures
            res@ == package_error_text(*self),
    {
        let mut v = chars_of("");
        proof {
            reveal_strlit("");
        }
        match self {
            PackageError::Walk { root, message } => {
                extend_str(&mut v, "failed to walk ");
                extend_str(&mut v, root.as_str());
                extend_str(&mut v, ": ");
                extend_str(&mut v, message.as_str());
            },
            PackageError::Io { path, message } => {
                extend_str(&mut v, "I/O error at ");
                extend_str(&mut v, path.as_str());
                extend_str(&mut v, ": ");
                extend_str(&mut v, message.as_str());
            },
        }
        string_of(v.as_slice())
    }
}

} // verus!
