use floppy::policy::{age_days, is_expired, remaining_days, render_days, render_mb};

const DAY: i64 = 86400;

#[test]
fn five_mb_thirty_days_old_has_zero_remaining() {
    let (num, den) = remaining_days(5_000_000, 0, 30 * DAY);
    assert_eq!(num, 0);
    assert_eq!(den, 5_000_000);
    assert!(is_expired(5_000_000, 0, 30 * DAY));
    assert_eq!(render_days(5_000_000, 0, 30 * DAY), "0");
}

#[test]
fn five_mb_twenty_nine_days_old_has_one_remaining() {
    let (num, den) = remaining_days(5_000_000, 0, 29 * DAY);
    assert_eq!(num, 5_000_000);
    assert_eq!(den, 5_000_000);
    assert!(!is_expired(5_000_000, 0, 29 * DAY));
    assert_eq!(render_days(5_000_000, 0, 29 * DAY), "1");
}

#[test]
fn one_mb_fresh_is_clamped_to_thirty() {
    let (num, den) = remaining_days(1_000_000, 0, 0);
    assert_eq!(num, 150_000_000);
    assert_eq!(den, 5_000_000);
    assert_eq!(render_days(1_000_000, 0, 0), "30");
}

#[test]
fn hundred_fifty_mb_fresh_has_one_remaining() {
    let (num, den) = remaining_days(150_000_000, 0, 0);
    assert_eq!(num, 150_000_000);
    assert_eq!(den, 150_000_000);
    assert_eq!(render_days(150_000_000, 0, 0), "1");
}

#[test]
fn tiny_blob_counts_as_five_mb() {
    // below one million bytes the 5 MB floor applies unchanged
    let (_, den) = remaining_days(10, 0, 0);
    assert_eq!(den, 5_000_000);
    // between one and five million bytes the floor still applies
    let (_, den) = remaining_days(3_000_000, 0, 0);
    assert_eq!(den, 5_000_000);
}

#[test]
fn fractional_days_are_truncated_to_two_digits() {
    // 60 MB, fresh: 150/60 = 2.5 days
    assert_eq!(render_days(60_000_000, 0, 0), "2.5");
    // 7 MB, fresh: 150/7 = 21.428... -> two digits, truncated
    assert_eq!(render_days(7_000_000, 0, 0), "21.42");
}

#[test]
fn future_creation_is_clamped_to_thirty() {
    // a creation time after `now` cannot stretch retention past the cap
    let (num, den) = remaining_days(5_000_000, 10 * DAY, 0);
    assert_eq!(num as u128, 30 * den as u128);
    assert_eq!(render_days(5_000_000, 10 * DAY, 0), "30");
}

#[test]
fn age_is_whole_days_truncated() {
    assert_eq!(age_days(0, DAY - 1), 0);
    assert_eq!(age_days(0, DAY), 1);
    assert_eq!(age_days(DAY, 0), -1);
}

#[test]
fn megabytes_render_exactly() {
    assert_eq!(render_mb(11460), "0.01146");
    assert_eq!(render_mb(5_000_000), "5");
    assert_eq!(render_mb(1_500_000), "1.5");
    assert_eq!(render_mb(150_000_000), "150");
    assert_eq!(render_mb(0), "0");
    assert_eq!(render_mb(123_456_789), "123.456789");
}
