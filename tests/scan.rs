use modscan::digest::{Hasher, CHUNK_SIZE};
use modscan::digest_map::DigestMap;
use modscan::engine::ScanState;
use modscan::error::ScanError;
use modscan::launcher::Launcher;
use modscan::remediation::{Remediation, RemovalOutcome};
use modscan::scan::{filter_matches, scan_outcome};
use modscan::signatures::{infected_hashes, is_infected};

const BAD: &str = "179b5da318604f97616b5108f305e2a8e4609484";
const HELLO: &str = "aaf4c61ddcc5e8a2dabede0f3b482cd9aea9434d";

fn digest_of(chunks: &[&[u8]]) -> String {
    let mut h = Hasher::new();
    for c in chunks {
        assert!(h.update(c));
    }
    assert!(!h.update(&[]));
    h.finish()
}

fn sorted_entries(m: &DigestMap) -> Vec<(String, String)> {
    let mut e = m.entries();
    e.sort();
    e
}

#[test]
fn hasher_hello_digest() {
    assert_eq!(digest_of(&[b"hello"]), HELLO);
}

#[test]
fn hasher_empty_input_digest() {
    assert_eq!(digest_of(&[]), "da39a3ee5e6b4b0d3255bfef95601890afd80709");
}

#[test]
fn hasher_is_deterministic_across_chunkings() {
    let whole = digest_of(&[b"hello world"]);
    let split = digest_of(&[b"hel", b"lo w", b"orld"]);
    assert_eq!(whole, split);
    assert_eq!(whole, digest_of(&[b"hello world"]));
    assert_eq!(whole, "2aae6c35c94fcfb415dbe95f408b9ce91ee846ed");
}

#[test]
fn chunk_size_is_one_mebibyte() {
    assert_eq!(CHUNK_SIZE, 1024 * 1024);
}

#[test]
fn signature_membership() {
    assert!(is_infected(&BAD.to_string()));
    assert!(is_infected(&"2f47e57a6bedc729359ffaf6f0149876008b5cc3".to_string()));
    assert!(is_infected(&"e4d55310039b965fce6756da5286b481cfb09946".to_string()));
    assert!(is_infected(&"1a1c4dcae846866c58cc1abf71fb7f7aa4e7352a".to_string()));
    assert!(!is_infected(&HELLO.to_string()));
    assert!(!is_infected(&String::new()));
}

#[test]
fn signature_list_keeps_its_duplicate() {
    let list = infected_hashes();
    assert_eq!(list.len(), 5);
    assert_eq!(list[3], list[4]);
}

#[test]
fn readable_files_are_all_counted() {
    let mut s = ScanState::new();
    for _ in 0..3 {
        assert!(matches!(s.on_entry(Ok(true)), Ok(true)));
    }
    assert!(matches!(s.on_entry(Ok(false)), Ok(false)));
    s.on_hashed("/r/a".to_string(), Some(digest_of(&[b"a"])));
    s.on_hashed("/r/b".to_string(), Some(digest_of(&[b"b"])));
    s.on_hashed("/r/c".to_string(), Some(digest_of(&[b"c"])));
    assert_eq!(s.discovered(), 3);
    assert_eq!(s.completed(), 3);
    assert_eq!(s.in_flight(), 0);
    let hashes = s.finish(true).unwrap();
    assert_eq!(hashes.entries().len(), 3);
}

#[test]
fn clean_tree_has_no_matches() {
    let mut s = ScanState::new();
    assert!(matches!(s.on_entry(Ok(true)), Ok(true)));
    s.on_hashed("/r/clean.txt".to_string(), Some(digest_of(&[b"hello"])));
    let out = scan_outcome(s.finish(true)).unwrap();
    assert!(out.entries().is_empty());
}

#[test]
fn single_infected_file_is_the_only_match() {
    let mut hashes = DigestMap::new();
    hashes.insert(HELLO.to_string(), "/r/clean.txt".to_string());
    hashes.insert(BAD.to_string(), "/r/mods/bad.jar".to_string());
    let m = filter_matches(&hashes);
    assert_eq!(sorted_entries(&m), vec![(BAD.to_string(), "/r/mods/bad.jar".to_string())]);
}

#[test]
fn scenario_clean_and_bad_then_remediation() {
    let mut s = ScanState::new();
    assert!(matches!(s.on_entry(Ok(true)), Ok(true)));
    assert!(matches!(s.on_entry(Ok(true)), Ok(true)));
    s.on_hashed("/root/clean.txt".to_string(), Some(digest_of(&[b"hello"])));
    s.on_hashed("/root/bad.bin".to_string(), Some(BAD.to_string()));
    assert_eq!(s.discovered(), 2);
    assert_eq!(s.completed(), 2);
    let matches = scan_outcome(s.finish(true)).unwrap();
    let entries = sorted_entries(&matches);
    assert_eq!(entries, vec![(BAD.to_string(), "/root/bad.bin".to_string())]);

    let mut r = Remediation::new(entries.into_iter().map(|e| e.1).collect());
    assert_eq!(r.current(), Some("/root/bad.bin".to_string()));
    assert!(r.record(RemovalOutcome::Removed).is_ok());
    assert_eq!(r.current(), None);
    assert_eq!(r.removed(), vec!["/root/bad.bin".to_string()]);
}

#[test]
fn empty_root_scan() {
    let s = ScanState::new();
    assert_eq!(s.discovered(), 0);
    assert_eq!(s.completed(), 0);
    let out = scan_outcome(s.finish(true));
    assert!(out.unwrap().entries().is_empty());
}

#[test]
fn unreadable_file_is_skipped() {
    let mut s = ScanState::new();
    assert!(matches!(s.on_entry(Ok(true)), Ok(true)));
    s.on_hashed("/root/secret".to_string(), None);
    assert_eq!(s.discovered(), 1);
    assert_eq!(s.completed(), 0);
    assert_eq!(s.in_flight(), 0);
    let out = scan_outcome(s.finish(true));
    assert!(out.unwrap().entries().is_empty());
}

#[test]
fn same_digest_keeps_last_path() {
    let mut s = ScanState::new();
    assert!(matches!(s.on_entry(Ok(true)), Ok(true)));
    assert!(matches!(s.on_entry(Ok(true)), Ok(true)));
    s.on_hashed("/r/first.bin".to_string(), Some(BAD.to_string()));
    s.on_hashed("/r/second.bin".to_string(), Some(BAD.to_string()));
    assert_eq!(s.completed(), 2);
    let m = scan_outcome(s.finish(true)).unwrap();
    assert_eq!(sorted_entries(&m), vec![(BAD.to_string(), "/r/second.bin".to_string())]);
}

#[test]
fn traversal_failure_aborts_scan() {
    let err = walkdir::WalkDir::new("/this/path/does/not/exist/anywhere")
        .into_iter()
        .next()
        .unwrap()
        .unwrap_err();
    let mut s = ScanState::new();
    let r = s.on_entry(Err(err));
    assert!(matches!(r, Err(ScanError::WalkDir(_))));
    assert_eq!(s.discovered(), 0);
    assert!(matches!(scan_outcome(Err(ScanError::JoinError)), Err(ScanError::JoinError)));
}

#[test]
fn join_failure_is_fatal() {
    let mut s = ScanState::new();
    assert!(matches!(s.on_entry(Ok(true)), Ok(true)));
    assert!(matches!(s.finish(false), Err(ScanError::JoinError)));
}

#[test]
fn remediation_tolerates_missing_files() {
    let mut r = Remediation::new(vec!["/a".to_string(), "/b".to_string()]);
    assert!(r.record(RemovalOutcome::Missing).is_ok());
    assert_eq!(r.current(), Some("/b".to_string()));
    assert!(r.record(RemovalOutcome::Removed).is_ok());
    assert_eq!(r.current(), None);
    assert_eq!(r.removed(), vec!["/b".to_string()]);
}

#[test]
fn remediation_stops_at_first_failure() {
    let mut r = Remediation::new(vec!["/a".to_string(), "/b".to_string(), "/c".to_string()]);
    assert!(r.record(RemovalOutcome::Removed).is_ok());
    let denied = std::io::Error::new(std::io::ErrorKind::PermissionDenied, "denied");
    let res = r.record(RemovalOutcome::Failed(denied));
    match res {
        Err(ScanError::IO(e)) => assert_eq!(e.kind(), std::io::ErrorKind::PermissionDenied),
        _ => panic!("expected an I/O error"),
    }
    assert_eq!(r.current(), None);
    assert_eq!(r.removed(), vec!["/a".to_string()]);
}

#[test]
fn launcher_data_subpaths() {
    assert_eq!(
        Launcher::Modrinth.data_subpath(),
        Some(vec!["com.modrinth.theseus".to_string(), "profiles".to_string()])
    );
    assert_eq!(
        Launcher::Prism.data_subpath(),
        Some(vec!["PrismLauncher".to_string(), "instances".to_string()])
    );
    assert_eq!(Launcher::ATLauncher.data_subpath(), Some(vec!["ATLauncher".to_string()]));
    assert_eq!(Launcher::Vanilla.data_subpath(), Some(vec![".minecraft".to_string()]));
    assert_eq!(Launcher::CustomDirectory.data_subpath(), None);
}
