use floppy::banner::index;
use floppy::decimal::{render_dec, render_dec_pad};
use floppy::errors::FileError;
use floppy::location::validate_key;
use floppy::store::{File, SaveAction};
use floppy::timefmt::recover_time;

#[test]
fn decimals_render_without_sign_or_leading_zeros() {
    assert_eq!(render_dec(0), "0");
    assert_eq!(render_dec(7), "7");
    assert_eq!(render_dec(12345), "12345");
    assert_eq!(render_dec(u64::MAX), "18446744073709551615");
}

#[test]
fn padded_decimals_keep_their_width() {
    assert_eq!(render_dec_pad(7, 3), "007");
    assert_eq!(render_dec_pad(456, 3), "456");
    assert_eq!(render_dec_pad(0, 2), "00");
}

#[test]
fn key_validation_accepts_exactly_digit_strings() {
    assert!(validate_key("0123456789"));
    assert!(validate_key("8079770645379253334"));
    // vacuously digits-only: nothing outside the character class
    assert!(validate_key(""));
    assert!(!validate_key("12a3"));
    assert!(!validate_key("../../etc"));
    assert!(!validate_key("1 2"));
    assert!(!validate_key("\u{661}\u{662}\u{663}")); // digits, but not the safe ASCII class
}

#[test]
fn error_messages_match_their_conditions() {
    assert_eq!(
        FileError::NotFound.message(),
        "Sorry, no file for you. Might be expired."
    );
    assert_eq!(
        FileError::Expired.message(),
        "Sorry, this file is expired and you can not reach it no\n                     more."
    );
    assert_eq!(
        FileError::internal("disk full".to_string()).message(),
        "Internal Error: disk full"
    );
    assert_eq!(
        FileError::Other { dsp: "anything".to_string() }.message(),
        "anything"
    );
}

#[test]
fn creation_time_prefers_memory_and_parses_the_filename_back() {
    assert!(matches!(recover_time(Some(12345), "ignored"), Ok(12345)));

    // a filename written by the engine parses back to the instant
    let now: i64 = 1_700_000_000;
    let (f, _) = File::new(b"x".to_vec(), "store", now, false, false);
    let filename = match f.save(false, 0, 0, now, "http://localhost:8000/") {
        SaveAction::Write { filename, .. } => filename,
        SaveAction::Respond(msg) => panic!("expected a write, got: {msg}"),
    };
    assert_ne!(filename, now.to_string(), "the filename is a rendering, not the raw number");
    assert!(matches!(recover_time(None, &filename), Ok(t) if t == now));

    // a filename that renders no instant surfaces as an internal error
    match recover_time(None, "not a timestamp") {
        Err(FileError::Internal { err }) => assert_eq!(err, "unreadable creation time"),
        other => panic!("expected an internal error, got {other:?}"),
    }
}

#[test]
fn banner_shows_the_usage_around_the_url() {
    let url = "http://example.test/";
    let b = index(url);
    assert_eq!(b.matches(url).count(), 2);
    assert!(b.contains("PUT:"));
    assert!(b.contains("GET:"));
    assert!(b.contains("$ curl -T ./sample.txt http://example.test/"));
    assert!(b.contains("$ curl http://example.test/?file=8079770645379253334"));
}
