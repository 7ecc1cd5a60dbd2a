//! Reading `.harbor` archives and GitHub tarballs (gzip-compressed tar)
//! from their bytes: decompression and tar decoding come from the `flate2`
//! and `tar` crates; which entries are kept is decided here.

use std::io::{Error, Read};

use flate2::read::GzDecoder;
use tar::Archive;
use tar::EntryType::{Directory, Regular, Symlink};

use vstd::prelude::*;

use crate::github::{classify_tarball_entry, strip_top, EntryAction, GithubError, TarEntryKind};
use crate::run::extract::path_safe;
use crate::run::RunError;

verus! {

/// One entry of a tar stream: its type, and its path (lossily as text),
/// mode and contents, each with the error reading it instead.
#[derive(Debug, PartialEq, Eq)]
pub struct RawTarEntry {
    pub kind: TarEntryKind,
    pub path: Result<String, String>,
    pub mode: Result<u32, String>,
    pub contents: Result<Vec<u8>, String>,
}

/// The plain values of a tar entry: type, path, mode and contents.
pub type RawView = (TarEntryKind, Result<Seq<char>, Seq<char>>, Result<u32, Seq<char>>, Result<Seq<u8>, Seq<char>>);

/// The plain values of a tar entry.
pub open spec fn raw_view(e: RawTarEntry) -> RawView {
    (e.kind, match e.path {
        Ok(p) => Ok(p@),
        Err(s) => Err(s@),
    }, match e.mode {
        Ok(m) => Ok(m),
        Err(s) => Err(s@),
    }, match e.contents {
        Ok(c) => Ok(c@),
        Err(s) => Err(s@),
    })
}

/// What the `tar` crate decodes from the tar stream that `flate2`'s gzip
/// decoder yields for `data`: its entries in order, or the text of the
/// error it stopped on.
pub uninterp spec fn decoded(data: Seq<u8>) -> Result<Seq<RawView>, Seq<char>>;

/// `tar::Archive::entries` over a `flate2::read::GzDecoder` of `data`,
/// read as a stream: decoding stops at the tar end-of-archive marker, so
/// what follows it (the rest of the gzip stream and its trailer) is never
/// read. Each entry is converted to a [`RawTarEntry`]: its type, and its
/// path, mode and contents each read with any error kept in place of the
/// value (so an entry the caller skips cannot fail the whole read). An
/// error of the entry iterator itself ends the read. The result is named,
/// not spelled out.
#[verifier::external_body]
fn decode(data: &[u8]) -> (res: Result<Vec<RawTarEntry>, String>)
    ensures
        match res {
            Ok(v) => decoded(data@) == Ok::<_, Seq<char>>(v@.map_values(|e: RawTarEntry| raw_view(e))),
            Err(e) => decoded(data@) == Err::<Seq<RawView>, Seq<char>>(e@),
        },
{
    let mut out = Vec::new();
    let err = |e: Error| e.to_string();
    for entry in Archive::new(GzDecoder::new(data)).entries().map_err(err)? {
        let mut entry = entry.map_err(err)?;
        let mut c = Vec::new();
        let contents = entry.read_to_end(&mut c).map(|_| c).map_err(err);
        let path = entry.path().map(|p| p.to_string_lossy().into_owned()).map_err(err);
        out.push(RawTarEntry { kind: match entry.header().entry_type() {
            Regular => TarEntryKind::Regular,
            Directory => TarEntryKind::Directory,
            Symlink => TarEntryKind::Symlink,
            _ => TarEntryKind::Other,
        }, path, mode: entry.header().mode().map_err(err), contents });
    }
    Ok(out)
}

/// A `.harbor` archive's regular files, in archive order, as (path,
/// contents, mode): other entry types are skipped unread; an unreadable
/// path, mode or contents of a regular file is an error.
pub open spec fn archive_files(
    entries: Seq<RawView>,
) -> Result<Seq<(Seq<char>, Seq<u8>, u32)>, Seq<char>>
    decreases entries.len(),
{
    if entries.len() == 0 {
        Ok(Seq::empty())
    } else {
        let e = entries.last();
        match archive_files(entries.drop_last()) {
            Err(m) => Err(m),
            Ok(before) => if e.0 != TarEntryKind::Regular {
                Ok(before)
            } else {
                match e.1 {
                    Err(m) => Err(m),
                    Ok(path) => match e.2 {
                        Err(m) => Err(m),
                        Ok(mode) => match e.3 {
                            Err(m) => Err(m),
                            Ok(c) => Ok(before.push((path, c, mode))),
                        },
                    },
                }
            },
        }
    }
}

/// Reads the regular files of a `.harbor` archive (`data`, read from
/// `archive`) as (path, contents, mode), in archive order; a decoding
/// failure is an `Io` error at `archive`.
pub fn read_archive_entries(archive: &str, data: &[u8]) -> (res: Result<Vec<(String, Vec<u8>, u32)>, RunError>)
    ensures
        match decoded(data@) {
            Err(m) => res matches Err(RunError::Io { path, message }) && path@ == archive@ && message@ == m,
            Ok(entries) => match archive_files(entries) {
                Err(m) => res matches Err(RunError::Io { path, message }) && path@ == archive@ && message@ == m,
                Ok(files) => res matches Ok(v) && v@.map_values(|f: (String, Vec<u8>, u32)| (f.0@, f.1@, f.2))
                    == files,
            },
        },
{
    let entries = match decode(data) {
        Ok(v) => v,
        Err(message) => return Err(RunError::Io { path: crate::text::owned(archive), message }),
    };
    let ghost all = entries@.map_values(|e: RawTarEntry| raw_view(e));
    let mut out: Vec<(String, Vec<u8>, u32)> = Vec::new();
    let mut i: usize = 0;
    assert(all.take(0) =~= Seq::<RawView>::empty());
    assert(out@.map_values(|f: (String, Vec<u8>, u32)| (f.0@, f.1@, f.2)) =~= Seq::<(Seq<char>, Seq<u8>, u32)>::empty());
    let mut rest = entries;
    while i < rest.len()
        invariant
            i <= rest@.len(),
            all == rest@.map_values(|e: RawTarEntry| raw_view(e)),
            decoded(data@) == Ok::<_, Seq<char>>(all),
            archive_files(all.take(i as int)) == Ok::<_, Seq<char>>(
                out@.map_values(|f: (String, Vec<u8>, u32)| (f.0@, f.1@, f.2)),
            ),
        decreases rest.len() - i,
    {
        let ghost before = out@;
        let ghost t = all.take(i + 1);
        assert(t.drop_last() =~= all.take(i as int));
        assert(t.last() == raw_view(rest@[i as int]));
        let e = &rest[i];
        let regular = match e.kind {
            TarEntryKind::Regular => true,
            _ => false,
        };
        if regular {
            let unreadable = match (&e.path, &e.mode, &e.contents) {
                (Err(m), _, _) => Some(m),
                (Ok(_), Err(m), _) => Some(m),
                (Ok(_), Ok(_), Err(m)) => Some(m),
                _ => None,
            };
            if let Some(m) = unreadable {
                assert(archive_files(t) == Err::<Seq<(Seq<char>, Seq<u8>, u32)>, Seq<char>>(m@));
                proof {
                    lemma_archive_files_err_sticks(all, i as int + 1);
                }
                return Err(RunError::Io { path: crate::text::owned(archive), message: m.clone() });
            }
            match (&e.path, &e.mode, &e.contents) {
                (Ok(path), Ok(mode), Ok(contents)) => {
                    out.push((path.clone(), contents.clone(), *mode));
                    assert(out@.map_values(|f: (String, Vec<u8>, u32)| (f.0@, f.1@, f.2)) =~= before.map_values(
                        |f: (String, Vec<u8>, u32)| (f.0@, f.1@, f.2),
                    ).push((path@, contents@, *mode)));
                },
                _ => {},
            }
        }
        i = i + 1;
    }
    assert(all.take(rest@.len() as int) =~= all);
    Ok(out)
}

/// Once `archive_files` of a prefix fails, every longer prefix fails the
/// same way.
proof fn lemma_archive_files_err_sticks(
    all: Seq<RawView>,
    k: int,
)
    requires
        0 <= k <= all.len(),
        archive_files(all.take(k)) is Err,
    ensures
        archive_files(all) == archive_files(all.take(k)),
    decreases all.len() - k,
{
    if k < all.len() {
        let t = all.take(k + 1);
        assert(t.drop_last() =~= all.take(k));
        lemma_archive_files_err_sticks(all, k + 1);
    } else {
        assert(all.take(k) =~= all);
    }
}

/// A mode, or `0o644` when it could not be read.
pub open spec fn mode_or_default(m: Result<u32, Seq<char>>) -> u32 {
    match m {
        Ok(v) => v,
        Err(_) => 0o644,
    }
}

/// A GitHub tarball's files, as (path without the top-level directory,
/// contents, mode), and the symlinks it skips; or the first problem: an
/// unreadable path (of any entry) or file contents, as `(true, error)`,
/// or the unsafe path of a file or directory (see
/// [`classify_tarball_entry`]), as `(false, path)`.
pub open spec fn tarball_files(
    entries: Seq<RawView>,
) -> Result<(Seq<(Seq<char>, Seq<u8>, u32)>, Seq<Seq<char>>), (bool, Seq<char>)>
    decreases entries.len(),
{
    if entries.len() == 0 {
        Ok((Seq::empty(), Seq::empty()))
    } else {
        let e = entries.last();
        match tarball_files(entries.drop_last()) {
            Err(p) => Err(p),
            Ok((files, links)) => match e.1 {
                Err(m) => Err((true, m)),
                Ok(raw) => match strip_top(raw) {
                    None => Ok((files, links)),
                    Some(p) => match e.0 {
                        TarEntryKind::Regular => if path_safe(p) {
                            match e.3 {
                                Err(m) => Err((true, m)),
                                Ok(c) => Ok((files.push((p, c, mode_or_default(e.2))), links)),
                            }
                        } else {
                            Err((false, p))
                        },
                        TarEntryKind::Directory => if path_safe(p) {
                            Ok((files, links))
                        } else {
                            Err((false, p))
                        },
                        TarEntryKind::Symlink => Ok((files, links.push(p))),
                        TarEntryKind::Other => Ok((files, links)),
                    },
                },
            },
        }
    }
}

proof fn lemma_tarball_err_sticks(
    all: Seq<RawView>,
    k: int,
)
    requires
        0 <= k <= all.len(),
        tarball_files(all.take(k)) is Err,
    ensures
        tarball_files(all) == tarball_files(all.take(k)),
    decreases all.len() - k,
{
    if k < all.len() {
        let t = all.take(k + 1);
        assert(t.drop_last() =~= all.take(k));
        lemma_tarball_err_sticks(all, k + 1);
    } else {
        assert(all.take(k) =~= all);
    }
}

/// Reads a downloaded GitHub tarball (`data`, saved at `tarball`): its
/// files with the top-level `<repo>-<sha>/` directory stripped, and the
/// symlinks skipped (for a warning). A decoding failure is an `Io` error
/// at `tarball`; an unsafe file or directory path is `UnsafeTarEntry`.
pub fn read_github_tarball_entries(tarball: &str, data: &[u8]) -> (res: Result<
    (Vec<(String, Vec<u8>, u32)>, Vec<String>),
    GithubError,
>)
    ensures
        match decoded(data@) {
            Err(m) => res matches Err(GithubError::Io { path, message }) && path@ == tarball@ && message@ == m,
            Ok(entries) => match tarball_files(entries) {
                Err((true, m)) => res matches Err(GithubError::Io { path, message }) && path@ == tarball@ && message@
                    == m,
                Err((false, p)) => res matches Err(GithubError::UnsafeTarEntry { path }) && path@ == p,
                Ok((files, links)) => res matches Ok((v, l)) && v@.map_values(
                    |f: (String, Vec<u8>, u32)| (f.0@, f.1@, f.2),
                ) == files && l@.map_values(|s: String| s@) == links,
            },
        },
{
    let entries = match decode(data) {
        Ok(v) => v,
        Err(message) => return Err(GithubError::Io { path: crate::text::owned(tarball), message }),
    };
    let ghost all = entries@.map_values(|e: RawTarEntry| raw_view(e));
    let mut files: Vec<(String, Vec<u8>, u32)> = Vec::new();
    let mut links: Vec<String> = Vec::new();
    let mut i: usize = 0;
    assert(all.take(0) =~= Seq::<RawView>::empty());
    assert(files@.map_values(|f: (String, Vec<u8>, u32)| (f.0@, f.1@, f.2)) =~= Seq::<(Seq<char>, Seq<u8>, u32)>::empty());
    assert(links@.map_values(|s: String| s@) =~= Seq::<Seq<char>>::empty());
    while i < entries.len()
        invariant
            i <= entries@.len(),
            all == entries@.map_values(|e: RawTarEntry| raw_view(e)),
            decoded(data@) == Ok::<_, Seq<char>>(all),
            tarball_files(all.take(i as int)) == Ok::<_, (bool, Seq<char>)>(
                (
                    files@.map_values(|f: (String, Vec<u8>, u32)| (f.0@, f.1@, f.2)),
                    links@.map_values(|s: String| s@),
                ),
            ),
        decreases entries.len() - i,
    {
        let ghost fb = files@;
        let ghost lb = links@;
        let ghost t = all.take(i + 1);
        assert(t.drop_last() =~= all.take(i as int));
        assert(t.last() == raw_view(entries@[i as int]));
        let e = &entries[i];
        let raw = match &e.path {
            Err(m) => {
                proof {
                    lemma_tarball_err_sticks(all, i as int + 1);
                }
                return Err(GithubError::Io { path: crate::text::owned(tarball), message: m.clone() });
            },
            Ok(r) => r,
        };
        match classify_tarball_entry(e.kind, raw.as_str()) {
            Err(err) => {
                proof {
                    lemma_tarball_err_sticks(all, i as int + 1);
                }
                return Err(err);
            },
            Ok(EntryAction::Keep(p)) => {
                let mode = match &e.mode {
                    Ok(m) => *m,
                    Err(_) => 0o644,
                };
                let contents = match &e.contents {
                    Err(m) => {
                        proof {
                            lemma_tarball_err_sticks(all, i as int + 1);
                        }
                        return Err(GithubError::Io { path: crate::text::owned(tarball), message: m.clone() });
                    },
                    Ok(c) => c,
                };
                files.push((p, contents.clone(), mode));
                assert(files@.map_values(|f: (String, Vec<u8>, u32)| (f.0@, f.1@, f.2)) =~= fb.map_values(
                    |f: (String, Vec<u8>, u32)| (f.0@, f.1@, f.2),
                ).push((files@.last().0@, contents@, mode)));
            },
            Ok(EntryAction::SkipSymlink(p)) => {
                links.push(p);
                assert(links@.map_values(|s: String| s@) =~= lb.map_values(|s: String| s@).push(links@.last()@));
            },
            Ok(EntryAction::Skip) => {},
        }
        i = i + 1;
    }
    assert(all.take(entries@.len() as int) =~= all);
    Ok((files, links))
}

} // verus!
