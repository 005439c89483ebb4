use floppy::guardian::{select_expired, EntryMeta, ExpGuardian};

const DAY: i64 = 86400;

#[test]
fn two_checks_within_the_interval_sweep_at_most_once() {
    let start: i64 = 10_000;
    let mut g = ExpGuardian::new(start);
    // one full hour after the recorded sweep: due
    let first = g.check(60, start + 3600);
    assert!(first);
    // less than an hour later: not due
    let second = g.check(60, start + 3600 + 3599);
    assert!(!second);
    // once the interval has elapsed again: exactly one more sweep
    let third = g.check(60, start + 3600 + 3600);
    assert!(third);
}

#[test]
fn check_hour_uses_the_sixty_minute_interval() {
    let mut g = ExpGuardian::new(0);
    assert!(!g.check_hour(3599));
    assert!(g.check_hour(3600));
}

#[test]
fn fresh_guardian_is_not_due_immediately() {
    let mut g = ExpGuardian::new(50_000);
    assert!(!g.check(60, 50_000));
    assert!(!g.check(1, 50_059));
    assert!(g.check(1, 50_060));
}

#[test]
fn an_undue_check_leaves_the_state_untouched() {
    let mut g = ExpGuardian::new(1000);
    assert!(!g.check(60, 1500));
    assert_eq!(g.time, 1000);
    assert!(g.check(0, 1500));
    assert_eq!(g.time, 1500);
}

#[test]
fn sweep_selects_exactly_the_expired_entries() {
    let now: i64 = 40 * DAY;
    let entries = vec![
        // 5 MB, forty days old: expired
        EntryMeta { key: "101".to_string(), size: 5_000_000, created: 0, },
        // 5 MB, ten days old: twenty days remain
        EntryMeta { key: "202".to_string(), size: 5_000_000, created: 30 * DAY, },
        // 150 MB, two days old: expired (one day of retention)
        EntryMeta { key: "303".to_string(), size: 150_000_000, created: 38 * DAY, },
    ];
    let picked = select_expired(&entries, now);
    assert_eq!(picked, vec![0usize, 2]);
}

#[test]
fn sweep_of_single_expired_entry_selects_it() {
    let entries = vec![EntryMeta { key: "7".to_string(), size: 5_000_000, created: 0, }];
    assert_eq!(select_expired(&entries, 30 * DAY), vec![0]);
    assert_eq!(select_expired(&entries, 29 * DAY), Vec::<usize>::new());
}

#[test]
fn sweep_of_nothing_selects_nothing() {
    assert_eq!(select_expired(&Vec::<EntryMeta>::new(), 123), Vec::<usize>::new());
}
