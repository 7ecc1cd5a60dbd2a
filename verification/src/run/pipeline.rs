//! The `harbor run` preparation of a `.harbor` archive as a state machine:
//! each step takes what the caller observed (an archive read, a cache
//! probe, an extraction, a download) and says what to do next. The caller
//! performs the file system and network work and reports back.

use vstd::prelude::*;

use crate::cache::{nested3, nested4, path_join, path_under, HarborHome};
use crate::run::extract::{check_entry_paths, path_safe, ExtractError};
use crate::run::{
    archive_verdict, complete_preparation, extracted_verdict, os_permitted, run_local_archive, run_registry_archive,
    ArchiveFacts, ExtractedFacts, Manifest, Prepared, RunError,
};
use crate::text::{chars_of, extend_str, owned, string_of};

verus! {

/// What is being prepared.
#[derive(Debug, Clone, PartialEq, Eq)]
pub enum RunSource {
    /// A local archive file.
    Local { archive: String },
    /// Version `version` of the registry package `owner/name`.
    Registry { owner: String, name: String, version: String },
}

/// Where a preparation stands.
#[derive(Debug, PartialEq, Eq)]
pub enum RunState {
    /// Nothing has been done yet.
    Start(RunSource),
    /// The registry cache directory `dir` is being looked at.
    CacheLookup { owner: String, name: String, version: String, dir: String },
    /// The registry archive is being downloaded.
    Downloading { owner: String, name: String, version: String },
    /// The archive at `archive` is being read; `registry` names the
    /// registry package it was downloaded for, if any.
    ReadingArchive { archive: String, registry: Option<(String, String)> },
    /// Whether the destination `dest` is already populated is being
    /// looked at; `entries` is the verdict on the archive's entry paths.
    DestinationLookup { dest: String, entries: Result<(), ExtractError> },
    /// The archive is being extracted into `dest`.
    Extracting { dest: String },
    /// The package directory `dir` is being read back and re-validated.
    Reading { dir: String, from_cache: bool },
    /// The preparation is over.
    Finished,
}

/// What the caller observed.
#[derive(Debug, PartialEq, Eq)]
pub enum RunEvent {
    /// The preparation is started.
    Begin,
    /// A cache probe answered (an I/O error is the error's text).
    Probed(Result<bool, String>),
    /// The download ended: the path of the saved archive, or the error.
    Downloaded(Result<String, String>),
    /// The archive was read: what its entries hold, or the I/O error.
    ArchiveRead(Result<ArchiveFacts, String>),
    /// The extraction ended: whether another run had populated the
    /// destination first, or the error.
    Extracted(Result<bool, ExtractError>),
    /// The package directory was read back, on operating system `current`.
    DirectoryRead { facts: ExtractedFacts, current: String },
}

/// What the caller is to do next.
#[derive(Debug, PartialEq, Eq)]
pub enum RunAction {
    /// Report whether `path` is a regular file.
    ProbeFile { path: String },
    /// Report whether `dir` exists and holds at least one entry.
    ProbeNonEmpty { dir: String },
    /// Download version `version` of `owner/name` and save it.
    Download { owner: String, name: String, version: String },
    /// Read the entries of the archive at `path`.
    ReadArchive { path: String },
    /// Extract the archive's entries into `dest`.
    Extract { dest: String },
    /// Read, parse and validate `dir`'s `harbor.toml`.
    ReadDirectory { dir: String },
    /// The preparation ended with this outcome.
    Done(Result<Prepared, RunError>),
    /// The download failed; the run stops with this message.
    Abort(String),
    /// The event does not belong to this state; nothing to do.
    Ignore,
}

/// The first state of preparing `source`.
pub fn run_start(source: RunSource) -> (res: RunState)
    ensures
        res == RunState::Start(source),
{
    RunState::Start(source)
}

/// The destination of an archive accepted for `registry` (if any) with
/// manifest `m`.
pub open spec fn destination_of(home: HarborHome, registry: Option<(String, String)>, m: Manifest) -> Seq<char> {
    match registry {
        None => nested3(home@, "packages"@, "local"@, m.name@, m.version@),
        Some((o, n)) => nested4(home@, "packages"@, "registry"@, o@, n@, m.version@),
    }
}

/// What one step does: the next state and action for `state` and `event`.
pub open spec fn run_step_spec(home: HarborHome, state: RunState, event: RunEvent, res: (RunState, RunAction)) -> bool {
    match state {
        RunState::Start(RunSource::Local { archive }) => res.0 == RunState::ReadingArchive {
            archive,
            registry: None,
        } && (res.1 matches RunAction::ReadArchive { path } && path@ == archive@),
        RunState::Start(RunSource::Registry { owner, name, version }) => (res.0 matches RunState::CacheLookup {
            owner: o,
            name: n,
            version: v,
            dir,
        } && o == owner && n == name && v == version && dir@ == nested4(
            home@,
            "packages"@,
            "registry"@,
            owner@,
            name@,
            version@,
        )) && (res.1 matches RunAction::ProbeFile { path } && path@ == path_join(
            nested4(home@, "packages"@, "registry"@, owner@, name@, version@),
            "harbor.toml"@,
        )),
        RunState::CacheLookup { owner, name, version, dir } => match event {
            RunEvent::Probed(Ok(true)) => res.0 == (RunState::Reading { dir, from_cache: true }) && (res.1 matches RunAction::ReadDirectory { dir: d } && d@ == dir@),
            RunEvent::Probed(_) => res.0 == (RunState::Downloading { owner, name, version }) && (res.1 matches RunAction::Download { owner: o, name: n, version: v } && o@ == owner@ && n@ == name@ && v@ == version@),
            _ => res.0 == (RunState::CacheLookup { owner, name, version, dir }) && res.1 == RunAction::Ignore,
        },
        RunState::Downloading { owner, name, version } => match event {
            RunEvent::Downloaded(Ok(path)) => (res.0 matches RunState::ReadingArchive {
                archive,
                registry: Some((o, n)),
            } && archive == path && o == owner && n == name) && (res.1 matches RunAction::ReadArchive { path: p }
                && p@ == path@),
            RunEvent::Downloaded(Err(e)) => res.0 == RunState::Finished && (res.1 matches RunAction::Abort(m) && m@
                == "failed to download "@ + owner@ + "/"@ + name@ + " v"@ + version@ + ": "@ + e@),
            _ => res.0 == (RunState::Downloading { owner, name, version }) && res.1 == RunAction::Ignore,
        },
        RunState::ReadingArchive { archive, registry } => match event {
            RunEvent::ArchiveRead(Err(e)) => res.0 == RunState::Finished && (res.1 matches RunAction::Done(
                Err(RunError::Io { path, message }),
            ) && path@ == archive@ && message == e),
            RunEvent::ArchiveRead(Ok(f)) => if exists|m: Manifest| #[trigger] archive_verdict(archive@, f, Ok(m)) {
                let m = choose|m: Manifest| #[trigger] archive_verdict(archive@, f, Ok(m));
                let dest = destination_of(home, registry, m);
                if path_under(dest, path_join(home@, "packages"@)) {
                    (res.0 matches RunState::DestinationLookup { dest: d, entries } && d@ == dest && (entries is Ok
                        <==> forall|i: int| 0 <= i < f.paths@.len() ==> path_safe(#[trigger] f.paths@[i]@)))
                        && (res.1 matches RunAction::ProbeNonEmpty { dir } && dir@ == dest)
                } else {
                    res.0 == RunState::Finished && (res.1 matches RunAction::Done(
                        Err(RunError::UnsafeDestination { dest: d, packages_root }),
                    ) && d@ == dest && packages_root@ == path_join(home@, "packages"@))
                }
            } else {
                res.0 == RunState::Finished && (res.1 matches RunAction::Done(Err(e)) && archive_verdict(
                    archive@,
                    f,
                    Err(e),
                ))
            },
            _ => res.0 == (RunState::ReadingArchive { archive, registry }) && res.1 == RunAction::Ignore,
        },
        RunState::DestinationLookup { dest, entries } => match event {
            RunEvent::Probed(Err(e)) => res.0 == RunState::Finished && (res.1 matches RunAction::Done(
                Err(RunError::Io { path, message }),
            ) && path@ == dest@ && message == e),
            RunEvent::Probed(Ok(true)) => res.0 == (RunState::Reading { dir: dest, from_cache: true }) && (
            res.1 matches RunAction::ReadDirectory { dir } && dir@ == dest@),
            RunEvent::Probed(Ok(false)) => match entries {
                Err(e) => res.0 == RunState::Finished && res.1 == RunAction::Done(Err(RunError::Extract(e))),
                Ok(()) => res.0 == (RunState::Extracting { dest }) && (res.1 matches RunAction::Extract { dest: d }
                    && d@ == dest@),
            },
            _ => res.0 == (RunState::DestinationLookup { dest, entries }) && res.1 == RunAction::Ignore,
        },
        RunState::Extracting { dest } => match event {
            RunEvent::Extracted(Ok(raced)) => res.0 == (RunState::Reading { dir: dest, from_cache: raced }) && (
            res.1 matches RunAction::ReadDirectory { dir } && dir@ == dest@),
            RunEvent::Extracted(Err(e)) => res.0 == RunState::Finished && res.1 == RunAction::Done(
                Err(RunError::Extract(e)),
            ),
            _ => res.0 == (RunState::Extracting { dest }) && res.1 == RunAction::Ignore,
        },
        RunState::Reading { dir, from_cache } => match event {
            RunEvent::DirectoryRead { facts, current } => res.0 == RunState::Finished && (res.1 matches RunAction::Done(r) && match r {
                Ok(p) => p.package_dir@ == dir@ && p.from_cache == from_cache && exists|m: Manifest, w: Vec<String>|
                    #[trigger] extracted_verdict(dir@, facts, current@, Ok((m, w))) && p.name == m.name
                        && p.version == m.version && p.warnings == w,
                Err(e) => extracted_verdict(dir@, facts, current@, Err(e)),
            }),
            _ => res.0 == (RunState::Reading { dir, from_cache }) && res.1 == RunAction::Ignore,
        },
        RunState::Finished => res.0 == RunState::Finished && res.1 == RunAction::Ignore,
    }
}

/// One step of preparing an archive under `home`.
///
/// A local archive is read first; a registry package's cache directory is
/// looked at before anything is downloaded, and a cached copy is reused.
/// An accepted archive is extracted only into an empty destination and
/// only when every entry path is safe; a populated destination is reused
/// as it is. The package directory is then read back and re-validated.
pub fn run_step(home: &HarborHome, state: RunState, event: RunEvent) -> (res: (RunState, RunAction))
    ensures
        run_step_spec(*home, state, event, res),
{
    match state {
        RunState::Start(RunSource::Local { archive }) => {
            let path = owned(archive.as_str());
            (RunState::ReadingArchive { archive, registry: None }, RunAction::ReadArchive { path })
        },
        RunState::Start(RunSource::Registry { owner, name, version }) => {
            let dir = home.registry_package_dir(owner.as_str(), name.as_str(), version.as_str());
            let d = chars_of(dir.as_str());
            let path = string_of(crate::cache::join_path(d.as_slice(), "harbor.toml").as_slice());
            (RunState::CacheLookup { owner, name, version, dir }, RunAction::ProbeFile { path })
        },
        RunState::CacheLookup { owner, name, version, dir } => match event {
            RunEvent::Probed(Ok(true)) => {
                let d = owned(dir.as_str());
                (RunState::Reading { dir, from_cache: true }, RunAction::ReadDirectory { dir: d })
            },
            RunEvent::Probed(_) => {
                let a = RunAction::Download {
                    owner: owned(owner.as_str()),
                    name: owned(name.as_str()),
                    version: owned(version.as_str()),
                };
                (RunState::Downloading { owner, name, version }, a)
            },
            _ => (RunState::CacheLookup { owner, name, version, dir }, RunAction::Ignore),
        },
        RunState::Downloading { owner, name, version } => match event {
            RunEvent::Downloaded(Ok(path)) => {
                let p = owned(path.as_str());
                (RunState::ReadingArchive { archive: path, registry: Some((owner, name)) }, RunAction::ReadArchive { path: p })
            },
            RunEvent::Downloaded(Err(e)) => {
                let mut m = chars_of("failed to download ");
                extend_str(&mut m, owner.as_str());
                extend_str(&mut m, "/");
                extend_str(&mut m, name.as_str());
                extend_str(&mut m, " v");
                extend_str(&mut m, version.as_str());
                extend_str(&mut m, ": ");
                extend_str(&mut m, e.as_str());
                (RunState::Finished, RunAction::Abort(string_of(m.as_slice())))
            },
            _ => (RunState::Downloading { owner, name, version }, RunAction::Ignore),
        },
        RunState::ReadingArchive { archive, registry } => match event {
            RunEvent::ArchiveRead(Err(e)) => (
                RunState::Finished,
                RunAction::Done(Err(RunError::Io { path: archive, message: e })),
            ),
            RunEvent::ArchiveRead(Ok(f)) => {
                let ghost gf = f;
                let entries = check_entry_paths(f.paths.as_slice());
                let decided = match &registry {
                    None => run_local_archive(archive.as_str(), f, home),
                    Some((o, n)) => run_registry_archive(archive.as_str(), o.as_str(), n.as_str(), f, home),
                };
                match decided {
                    Ok((m, dest)) => {
                        let dir = owned(dest.as_str());
                        proof {
                            let c = choose|c: Manifest| #[trigger] archive_verdict(archive@, gf, Ok(c));
                            lemma_verdict_unique(archive@, gf, c, Ok(m));
                        }
                        (RunState::DestinationLookup { dest, entries }, RunAction::ProbeNonEmpty { dir })
                    },
                    Err(e) => {
                        proof {
                            if exists|c: Manifest| #[trigger] archive_verdict(archive@, gf, Ok(c)) {
                                let c = choose|c: Manifest| #[trigger] archive_verdict(archive@, gf, Ok(c));
                                if archive_verdict(archive@, gf, Err(e)) {
                                    lemma_verdict_unique(archive@, gf, c, Err(e));
                                }
                                let m2 = choose|m2: Manifest| #[trigger] archive_verdict(archive@, gf, Ok(m2)) && (
                                    e matches RunError::UnsafeDestination { dest, packages_root } && dest@
                                        == destination_of(*home, registry, m2) && packages_root@ == path_join(
                                        home@,
                                        "packages"@,
                                    ) && !path_under(dest@, packages_root@));
                                lemma_verdict_unique(archive@, gf, c, Ok(m2));
                            }
                        }
                        (RunState::Finished, RunAction::Done(Err(e)))
                    },
                }
            },
            _ => (RunState::ReadingArchive { archive, registry }, RunAction::Ignore),
        },
        RunState::DestinationLookup { dest, entries } => match event {
            RunEvent::Probed(Err(e)) => (RunState::Finished, RunAction::Done(Err(RunError::Io { path: dest, message: e }))),
            RunEvent::Probed(Ok(true)) => {
                let d = owned(dest.as_str());
                (RunState::Reading { dir: dest, from_cache: true }, RunAction::ReadDirectory { dir: d })
            },
            RunEvent::Probed(Ok(false)) => match entries {
                Err(e) => (RunState::Finished, RunAction::Done(Err(RunError::Extract(e)))),
                Ok(()) => {
                    let d = owned(dest.as_str());
                    (RunState::Extracting { dest }, RunAction::Extract { dest: d })
                },
            },
            _ => (RunState::DestinationLookup { dest, entries }, RunAction::Ignore),
        },
        RunState::Extracting { dest } => match event {
            RunEvent::Extracted(Ok(raced)) => {
                let d = owned(dest.as_str());
                (RunState::Reading { dir: dest, from_cache: raced }, RunAction::ReadDirectory { dir: d })
            },
            RunEvent::Extracted(Err(e)) => (RunState::Finished, RunAction::Done(Err(RunError::Extract(e)))),
            _ => (RunState::Extracting { dest }, RunAction::Ignore),
        },
        RunState::Reading { dir, from_cache } => match event {
            RunEvent::DirectoryRead { facts, current } => {
                let r = complete_preparation(dir.as_str(), from_cache, facts, current.as_str());
                (RunState::Finished, RunAction::Done(r))
            },
            _ => (RunState::Reading { dir, from_cache }, RunAction::Ignore),
        },
        RunState::Finished => (RunState::Finished, RunAction::Ignore),
    }
}

/// The verdict on an archive is a function of the archive and its facts:
/// an archive accepted with manifest `m` has no other verdict.
pub proof fn lemma_verdict_unique(archive: Seq<char>, f: ArchiveFacts, m: Manifest, other: Result<Manifest, RunError>)
    requires
        archive_verdict(archive, f, Ok(m)),
        archive_verdict(archive, f, other),
    ensures
        other == Ok::<Manifest, RunError>(m),
{
}

/// A destination that is already populated is reused as it is: nothing
/// is extracted, the package directory is read back, and a successful
/// preparation reports `from_cache` with that directory.
pub proof fn lemma_populated_destination_is_reused(
    home: HarborHome,
    dest: String,
    entries: Result<(), ExtractError>,
    first: (RunState, RunAction),
    facts: ExtractedFacts,
    current: String,
    second: (RunState, RunAction),
)
    requires
        run_step_spec(home, RunState::DestinationLookup { dest, entries }, RunEvent::Probed(Ok(true)), first),
        run_step_spec(home, first.0, RunEvent::DirectoryRead { facts, current }, second),
    ensures
        first.1 matches RunAction::ReadDirectory { dir } && dir@ == dest@,
        second.1 matches RunAction::Done(Ok(p)) ==> p.from_cache && p.package_dir@ == dest@,
{
}

/// An empty destination is extracted into only when every entry path of
/// the archive is safe; otherwise the run stops with that extraction
/// error. Neither outcome downloads anything.
pub proof fn lemma_empty_destination_is_extracted_after_the_path_check(
    home: HarborHome,
    dest: String,
    entries: Result<(), ExtractError>,
    res: (RunState, RunAction),
)
    requires
        run_step_spec(home, RunState::DestinationLookup { dest, entries }, RunEvent::Probed(Ok(false)), res),
    ensures
        entries is Ok ==> (res.1 matches RunAction::Extract { dest: d } && d@ == dest@),
        entries matches Err(e) ==> res.1 == RunAction::Done(Err(RunError::Extract(e))),
{
}

/// An extraction that this run performed reports the package as not
/// cached (unless another run populated the destination first).
pub proof fn lemma_fresh_extraction_is_not_from_cache(
    home: HarborHome,
    dest: String,
    first: (RunState, RunAction),
    facts: ExtractedFacts,
    current: String,
    second: (RunState, RunAction),
)
    requires
        run_step_spec(home, RunState::Extracting { dest }, RunEvent::Extracted(Ok(false)), first),
        run_step_spec(home, first.0, RunEvent::DirectoryRead { facts, current }, second),
    ensures
        second.1 matches RunAction::Done(Ok(p)) ==> !p.from_cache && p.package_dir@ == dest@,
{
}

/// A registry run first looks at its cache directory: whatever the first
/// event, its first action is a probe of `<cache dir>/harbor.toml`, never
/// a download.
pub proof fn lemma_registry_run_probes_the_cache_first(
    home: HarborHome,
    owner: String,
    name: String,
    version: String,
    event: RunEvent,
    res: (RunState, RunAction),
)
    requires
        run_step_spec(home, RunState::Start(RunSource::Registry { owner, name, version }), event, res),
    ensures
        res.1 matches RunAction::ProbeFile { path } && path@ == path_join(
            nested4(home@, "packages"@, "registry"@, owner@, name@, version@),
            "harbor.toml"@,
        ),
{
}

/// Preparing the same archive twice addresses the same destination, so
/// once a first run has populated it, the second finds it populated and
/// (by [`lemma_populated_destination_is_reused`]) reuses it.
pub proof fn lemma_same_archive_same_destination(
    home: HarborHome,
    archive: String,
    registry: Option<(String, String)>,
    f: ArchiveFacts,
    g: ArchiveFacts,
    first: (RunState, RunAction),
    second: (RunState, RunAction),
)
    requires
        f == g,
        run_step_spec(home, RunState::ReadingArchive { archive, registry }, RunEvent::ArchiveRead(Ok(f)), first),
        run_step_spec(home, RunState::ReadingArchive { archive, registry }, RunEvent::ArchiveRead(Ok(g)), second),
        first.0 is DestinationLookup,
    ensures
        second.0 matches RunState::DestinationLookup { dest, .. } && first.0 matches RunState::DestinationLookup {
            dest: d1,
            ..
        } && dest@ == d1@,
{
}

/// A local archive that passes the checks is prepared in its local
/// package directory `packages/local/<name>/<version>`, which lies below
/// `packages/`.
pub proof fn lemma_local_run_lands_in_its_package_dir(
    home: HarborHome,
    archive: String,
    f: ArchiveFacts,
    res: (RunState, RunAction),
)
    requires
        run_step_spec(home, RunState::ReadingArchive { archive, registry: None }, RunEvent::ArchiveRead(Ok(f)), res),
        res.0 is DestinationLookup,
    ensures
        exists|m: Manifest|
            #[trigger] archive_verdict(archive@, f, Ok(m)) && (res.0 matches RunState::DestinationLookup { dest, .. }
                && dest@ == nested3(home@, "packages"@, "local"@, m.name@, m.version@) && path_under(
                dest@,
                path_join(home@, "packages"@),
            )),
{
    let m = choose|m: Manifest| #[trigger] archive_verdict(archive@, f, Ok(m));
    assert(archive_verdict(archive@, f, Ok(m)));
}

/// A prepared package runs only on an operating system it allows: a
/// successful read-back of `dir` on `current` passed the OS check.
pub proof fn lemma_prepared_package_allows_this_os(
    home: HarborHome,
    dir: String,
    from_cache: bool,
    facts: ExtractedFacts,
    current: String,
    res: (RunState, RunAction),
)
    requires
        run_step_spec(home, RunState::Reading { dir, from_cache }, RunEvent::DirectoryRead { facts, current }, res),
        res.1 is Done,
        res.1->Done_0 is Ok,
    ensures
        facts.manifest matches Ok(m) && os_permitted(m.os@, current@),
{
}

/// Running the same local archive a second time, once the first run has
/// populated its destination, reads the package back without extracting
/// it and reports it as served from cache, from the same local package
/// directory.
pub proof fn lemma_second_local_run_comes_from_cache(
    home: HarborHome,
    archive: String,
    f: ArchiveFacts,
    r1: (RunState, RunAction),
    r2: (RunState, RunAction),
    facts: ExtractedFacts,
    current: String,
    r3: (RunState, RunAction),
)
    requires
        run_step_spec(home, RunState::ReadingArchive { archive, registry: None }, RunEvent::ArchiveRead(Ok(f)), r1),
        r1.0 is DestinationLookup,
        run_step_spec(home, r1.0, RunEvent::Probed(Ok(true)), r2),
        run_step_spec(home, r2.0, RunEvent::DirectoryRead { facts, current }, r3),
    ensures
        r2.1 is ReadDirectory,
        r3.1 matches RunAction::Done(Ok(p)) ==> p.from_cache && exists|m: Manifest|
            #[trigger] archive_verdict(archive@, f, Ok(m)) && p.package_dir@ == nested3(
                home@,
                "packages"@,
                "local"@,
                m.name@,
                m.version@,
            ),
{
    let m = choose|m: Manifest| #[trigger] archive_verdict(archive@, f, Ok(m));
    assert(archive_verdict(archive@, f, Ok(m)));
}

} // verus!
