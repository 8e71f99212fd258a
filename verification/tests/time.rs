use blrs::util::time::{fmt_ts, now_millis, now_secs};

#[test]
fn timestamps_show_in_utc_plus_eight() {
    assert_eq!(fmt_ts(0), "1970-01-01 08:00:00");
    assert_eq!(fmt_ts(1_700_000_000), "2023-11-15 06:13:20");
    assert_eq!(fmt_ts(951_782_400), "2000-02-29 08:00:00");
    assert_eq!(fmt_ts(-28_800 - 1), "1969-12-31 23:59:59");
    assert_eq!(fmt_ts(253_402_271_999), "9999-12-31 23:59:59");
    assert_eq!(fmt_ts(-62_135_625_600), "0001-01-01 00:00:00");
}

#[test]
fn extreme_timestamps_still_format() {
    assert!(fmt_ts(i64::MAX).len() > 19);
    assert!(fmt_ts(i64::MIN).starts_with('-'));
}

#[test]
fn clock_is_after_the_epoch() {
    assert!(now_secs() > 1_600_000_000);
    assert!(now_millis() / 1000 >= now_secs() - 1);
}
