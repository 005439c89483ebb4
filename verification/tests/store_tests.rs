use std::collections::HashMap;

use floppy::errors::FileError;
use floppy::key::hashed;
use floppy::location::{resolve, validate_key};
use floppy::store::{found, lookup, File, NewPlan, SaveAction};

const URL: &str = "http://localhost:8000/";

#[test]
fn derive_is_deterministic() {
    let b: Vec<u8> = b"hello blob".to_vec();
    let k1 = hashed(&b);
    let k2 = hashed(&b);
    assert_eq!(k1, k2);
    assert!(!k1.is_empty());
    assert!(k1.chars().all(|c| c.is_ascii_digit()));
    assert!(validate_key(&k1));
}

#[test]
fn fresh_upload_writes_and_reports() {
    let data: Vec<u8> = b"some content".to_vec();
    let key = hashed(&data);
    let now: i64 = 1_000_000;
    let (f, plan) = File::new(data.clone(), "store", now, false, false);
    assert_eq!(plan, NewPlan::Fresh);
    assert_eq!(f.path, format!("store/{key}"));
    match f.save(false, 0, 0, now, URL) {
        SaveAction::Write { filename, response } => {
            assert!(!filename.is_empty());
            assert!(response.contains(&format!("URL: {URL}?file={key}")));
            assert!(response.contains("Days remaining: 30"));
        },
        SaveAction::Respond(msg) => panic!("expected a write, got: {msg}"),
    }
}

#[test]
fn duplicate_upload_writes_nothing_and_matches_first_report() {
    let data: Vec<u8> = b"some content".to_vec();
    let now: i64 = 1_000_000;
    let (f1, _) = File::new(data.clone(), "store", now, false, false);
    let first_response = match f1.save(false, 0, 0, now, URL) {
        SaveAction::Write { response, .. } => response,
        SaveAction::Respond(msg) => panic!("expected a write, got: {msg}"),
    };
    // the second upload of the same bytes sees the location occupied
    let (f2, plan) = File::new(data.clone(), "store", now + 5, true, true);
    assert_eq!(plan, NewPlan::AttachExisting);
    assert_eq!(f2.path, f1.path);
    match f2.save(true, data.len() as u64, now, now, URL) {
        SaveAction::Respond(msg) => {
            assert!(msg.starts_with(
                "Someone has already uploaded this file before. No need to recreate it.\r"
            ));
            // the duplicate response repeats the first upload's report
            assert!(msg.ends_with(&first_response));
        },
        SaveAction::Write { .. } => panic!("a duplicate must not be written"),
    }
}

#[test]
fn leftover_empty_location_is_removed_first() {
    let data: Vec<u8> = b"partial".to_vec();
    let (_, plan) = File::new(data, "store", 7, true, false);
    assert_eq!(plan, NewPlan::RemoveEmptyThenFresh);
}

#[test]
fn oversized_upload_draws_the_advisory_and_no_write() {
    let data: Vec<u8> = vec![0u8; 150_000_001];
    let (f, plan) = File::new(data, "store", 42, false, false);
    assert_eq!(plan, NewPlan::Fresh);
    match f.save(false, 0, 0, 42, URL) {
        SaveAction::Respond(msg) => {
            assert_eq!(msg, "I don't accept fat files. file_size > 150m");
        },
        SaveAction::Write { .. } => panic!("an oversized buffer must not be written"),
    }
}

#[test]
fn ceiling_boundary_is_inclusive() {
    let data: Vec<u8> = vec![0u8; 150_000_000];
    let (f, _) = File::new(data, "store", 42, false, false);
    assert!(matches!(f.save(false, 0, 0, 42, URL), SaveAction::Write { .. }));
}

#[test]
fn invalid_keys_fail_not_found_before_any_path_is_made() {
    assert!(matches!(lookup("12a3", "store"), Err(FileError::NotFound)));
    assert!(matches!(lookup("../../etc", "store"), Err(FileError::NotFound)));
    assert!(matches!(lookup("12/34", "store"), Err(FileError::NotFound)));
}

#[test]
fn valid_key_resolves_under_the_root() {
    let f = lookup("8079770645379253334", "store").expect("digits-only key is accepted");
    assert_eq!(f.path, "store/8079770645379253334");
    assert_eq!(f.key, "8079770645379253334");
}

#[test]
fn absent_location_reads_not_found() {
    let f = lookup("123", "store").unwrap();
    assert!(matches!(found(f, false), Err(FileError::NotFound)));
}

#[test]
fn empty_location_reads_not_found() {
    let f = lookup("123", "store").unwrap();
    let f = found(f, true).unwrap();
    assert!(matches!(f.named_file(None), Err(FileError::NotFound)));
}

#[test]
fn round_trip_returns_the_original_bytes() {
    // the filesystem, as the caller of the engine sees it: full path -> bytes
    let mut disk: HashMap<String, Vec<u8>> = HashMap::new();
    let root = "store";
    let now: i64 = 1_700_000_000;
    let data: Vec<u8> = b"round trip payload \x00\xff".to_vec();

    // put
    let key = hashed(&data);
    let (f, plan) = File::new(data.clone(), root, now, false, false);
    assert_eq!(plan, NewPlan::Fresh);
    let filename = match f.save(false, 0, 0, now, URL) {
        SaveAction::Write { filename, .. } => {
            disk.insert(resolve(&f.path, &filename), data.clone());
            filename
        },
        SaveAction::Respond(msg) => panic!("expected a write, got: {msg}"),
    };

    // get, presenting the derived key
    let g = lookup(&key, root).expect("the derived key validates");
    assert_eq!(g.path, f.path);
    let g = found(g, true).expect("the location exists after the write");
    let full = g.named_file(Some(&filename)).expect("the location holds the blob");
    assert_eq!(disk.get(&full), Some(&data));
}

#[test]
fn info_reports_address_size_and_days() {
    let data: Vec<u8> = vec![7u8; 11460];
    let key = hashed(&data);
    let now: i64 = 1_700_000_000;
    let (f, _) = File::new(data, "", now, false, false);
    let report = f.info(11460, now, now, URL);
    let expected = format!(
        "\nURL: {URL}?file={key}\nFile size: 0.01146M\nDays remaining: 30\n"
    );
    assert_eq!(report, expected);
}

#[test]
fn delete_over_follows_the_policy() {
    let f = lookup("123", "store").unwrap();
    assert!(f.delete_over(5_000_000, 0, 30 * 86400));
    assert!(!f.delete_over(5_000_000, 0, 29 * 86400));
}

#[test]
fn empty_root_resolves_to_the_bare_key() {
    assert_eq!(resolve("", "123"), "123");
    assert_eq!(resolve("store", "123"), "store/123");
}
