use rss2email::instant::{Instant, ZonedInstant};

fn at(secs: i64, nanos: u32) -> Instant {
    Instant::from_timestamp(secs, nanos).unwrap()
}

#[test]
fn timestamp_round_trips() {
    let t = at(1_431_648_000, 7);
    assert_eq!(t.timestamp(), 1_431_648_000);
    assert_eq!(t.subsec_nanos(), 7);
    let before_epoch = at(-1, 999_999_999);
    assert_eq!(before_epoch.timestamp(), -1);
}

#[test]
fn timestamp_out_of_range_is_refused() {
    assert_eq!(Instant::from_timestamp(i64::MAX, 0), None);
    assert_eq!(Instant::from_timestamp(i64::MIN, 0), None);
    assert_eq!(Instant::from_timestamp(0, 2_000_000_000), None);
}

#[test]
fn leap_second_needs_the_last_second_of_a_minute() {
    assert!(Instant::from_timestamp(59, 1_500_000_000).is_some());
    assert_eq!(Instant::from_timestamp(60, 1_000_000_000), None);
}

#[test]
fn rfc3339_reads_the_instant() {
    let t = ZonedInstant::parse_from_rfc3339("1996-12-19T16:39:57-08:00").unwrap();
    assert_eq!(t.to_utc(), at(851_042_397, 0));
    assert_eq!(t.offset_seconds(), -8 * 3600);
    assert_eq!(t, ZonedInstant::new(at(851_042_397, 0), -8 * 3600));
    let epoch = ZonedInstant::parse_from_rfc3339("1970-01-01T00:00:00Z").unwrap();
    assert_eq!(epoch.to_utc(), at(0, 0));
    assert_eq!(epoch.offset_seconds(), 0);
}

#[test]
fn rfc3339_reads_a_leap_second() {
    let t = ZonedInstant::parse_from_rfc3339("2016-12-31T23:59:60Z").unwrap().to_utc();
    assert_eq!(t.timestamp(), 1_483_228_799);
    assert_eq!(t.subsec_nanos(), 1_000_000_000);
}

#[test]
fn rfc3339_failures_carry_the_message() {
    let short = ZonedInstant::parse_from_rfc3339("not-a-date").unwrap_err();
    assert_eq!(short.message, "premature end of input");
    let range = ZonedInstant::parse_from_rfc3339("2024-02-30T00:00:00Z").unwrap_err();
    assert_eq!(range.message, "input is out of range");
    let long = ZonedInstant::parse_from_rfc3339("2024-01-01T00:00:00Z trailing").unwrap_err();
    assert_eq!(long.message, "trailing input");
}

#[test]
fn rfc2822_reads_the_instant() {
    let t = ZonedInstant::parse_from_rfc2822("Wed, 18 Feb 2015 23:16:09 GMT").unwrap();
    assert_eq!(t.to_utc(), at(1_424_301_369, 0));
    assert_eq!(t.offset_seconds(), 0);
    let offset = ZonedInstant::parse_from_rfc2822("Thu, 19 Feb 2015 01:16:09 +0200").unwrap();
    assert_eq!(offset.to_utc(), t.to_utc());
    assert_eq!(offset.offset_seconds(), 7200);
}

#[test]
fn rfc2822_failures_carry_the_message() {
    let err = ZonedInstant::parse_from_rfc2822("2015-02-18T23:16:09Z").unwrap_err();
    assert_eq!(err.message, "input contains invalid characters");
    let empty = ZonedInstant::parse_from_rfc2822("").unwrap_err();
    assert_eq!(empty.message, "premature end of input");
}

#[test]
fn order_goes_by_seconds_then_nanoseconds() {
    assert!(at(1, 0).at_or_before(&at(2, 0)));
    assert!(!at(2, 0).at_or_before(&at(1, 999_999_999)));
    assert!(at(1, 5).at_or_before(&at(1, 5)));
    assert!(at(1, 5).at_or_before(&at(1, 6)));
    assert!(!at(1, 6).at_or_before(&at(1, 5)));
    assert!(at(-5, 0).at_or_before(&at(0, 0)));
}

#[test]
fn days_since_counts_whole_days() {
    let then = at(1_704_067_200, 0);
    assert_eq!(at(1_704_067_200, 0).days_since(&then), 0);
    assert_eq!(at(1_704_067_200 + 86_399, 999_999_999).days_since(&then), 0);
    assert_eq!(at(1_704_067_200 + 86_400, 0).days_since(&then), 1);
    assert_eq!(at(1_704_067_200 + 3 * 86_400 + 5, 0).days_since(&then), 3);
}

#[test]
fn days_since_is_negative_for_a_later_instant() {
    let then = at(1_704_067_200, 0);
    assert_eq!(at(1_704_067_200 - 86_399, 0).days_since(&then), 0);
    assert_eq!(at(1_704_067_200 - 86_400, 0).days_since(&then), -1);
    assert_eq!(at(1_704_067_200 - 10 * 86_400 - 1, 0).days_since(&then), -10);
}

#[test]
fn day_is_the_utc_date() {
    assert_eq!(at(0, 0).day(), "1970-01-01UTC");
    assert_eq!(at(-1, 0).day(), "1969-12-31UTC");
    assert_eq!(at(1_704_067_199, 999_999_999).day(), "2023-12-31UTC");
    assert_eq!(at(1_704_067_200, 0).day(), "2024-01-01UTC");
    let east = ZonedInstant::parse_from_rfc3339("2024-01-01T01:00:00+02:00").unwrap().to_utc();
    assert_eq!(east.day(), "2023-12-31UTC");
}
