use harbor_core::archive::{read_archive_entries, read_github_tarball_entries};
use harbor_core::github::GithubError;
use harbor_core::run::RunError;

fn set_raw_tar_path(header: &mut tar::Header, path: &str) {
    let gnu = header.as_gnu_mut().expect("built with Header::new_gnu()");
    for b in gnu.name.iter_mut() {
        *b = 0;
    }
    let bytes = path.as_bytes();
    let n = bytes.len().min(gnu.name.len());
    gnu.name[..n].copy_from_slice(&bytes[..n]);
}

fn tarball(entries: &[(&str, tar::EntryType, u32, &[u8])]) -> Vec<u8> {
    let encoder = flate2::write::GzEncoder::new(Vec::new(), flate2::Compression::default());
    let mut builder = tar::Builder::new(encoder);
    for (p, kind, mode, contents) in entries {
        let mut header = tar::Header::new_gnu();
        header.set_entry_type(*kind);
        header.set_size(contents.len() as u64);
        header.set_mode(*mode);
        set_raw_tar_path(&mut header, p);
        header.set_cksum();
        builder.append(&header, *contents).unwrap();
    }
    builder.into_inner().unwrap().finish().unwrap()
}

#[test]
fn tarball_prefix_is_stripped_and_extraction_lands_in_dest() {
    let data = tarball(&[
        ("widget-abc123/", tar::EntryType::Directory, 0o755, b""),
        ("widget-abc123/README.md", tar::EntryType::Regular, 0o644, b"# hi"),
        ("widget-abc123/src/main.py", tar::EntryType::Regular, 0o755, b"print(1)"),
    ]);
    let (entries, links) = read_github_tarball_entries("/t/repo.tar.gz", &data).expect("should read");
    let paths: Vec<&str> = entries.iter().map(|(p, _, _)| p.as_str()).collect();
    assert_eq!(paths, vec!["README.md", "src/main.py"]);
    assert!(!paths.iter().any(|p| p.contains("widget-abc123")));
    assert_eq!(entries[0].1, b"# hi".to_vec());
    assert_eq!(entries[1].2, 0o755);
    assert!(links.is_empty());
}

#[test]
fn tarball_entry_with_traversal_after_strip_is_rejected() {
    let data = tarball(&[("widget-abc123/../evil.txt", tar::EntryType::Regular, 0o644, b"pwned")]);
    let err = read_github_tarball_entries("/t/evil.tar.gz", &data).unwrap_err();
    assert!(matches!(err, GithubError::UnsafeTarEntry { .. }), "got: {err:?}");
}

#[test]
fn tarball_symlinks_are_skipped_and_reported() {
    let data = tarball(&[
        ("w-1/link", tar::EntryType::Symlink, 0o777, b""),
        ("w-1/a.txt", tar::EntryType::Regular, 0o644, b"a"),
    ]);
    let (entries, links) = read_github_tarball_entries("/t/x.tar.gz", &data).unwrap();
    assert_eq!(entries.len(), 1);
    assert_eq!(links, vec!["link".to_string()]);
}

#[test]
fn archive_regular_files_keep_their_order_and_modes() {
    let data = tarball(&[
        ("src", tar::EntryType::Directory, 0o755, b""),
        ("harbor.toml", tar::EntryType::Regular, 0o644, b"name = \"x\""),
        ("src/run.sh", tar::EntryType::Regular, 0o755, b"#!/bin/sh"),
    ]);
    let entries = read_archive_entries("/a.harbor", &data).unwrap();
    assert_eq!(
        entries,
        vec![
            ("harbor.toml".to_string(), b"name = \"x\"".to_vec(), 0o644),
            ("src/run.sh".to_string(), b"#!/bin/sh".to_vec(), 0o755),
        ]
    );
}

#[test]
fn corrupt_archive_is_an_io_error_at_its_path() {
    match read_archive_entries("/bad.harbor", b"not gzip at all") {
        Err(RunError::Io { path, .. }) => assert_eq!(path, "/bad.harbor"),
        other => panic!("got: {other:?}"),
    }
    match read_github_tarball_entries("/bad.tar.gz", b"nope") {
        Err(GithubError::Io { path, .. }) => assert_eq!(path, "/bad.tar.gz"),
        other => panic!("got: {other:?}"),
    }
}

#[test]
fn gzip_trailer_after_the_tar_end_is_not_read() {
    let mut data = tarball(&[
        ("harbor.toml", tar::EntryType::Regular, 0o644, b"name = \"x\""),
        ("src/main.py", tar::EntryType::Regular, 0o755, b"print(1)"),
    ]);
    let n = data.len();
    for b in &mut data[n - 8..] {
        *b ^= 0xff;
    }
    let entries = read_archive_entries("/t/pkg.harbor", &data).expect("the tar end comes before the trailer");
    let paths: Vec<&str> = entries.iter().map(|(p, _, _)| p.as_str()).collect();
    assert_eq!(paths, vec!["harbor.toml", "src/main.py"]);
}
