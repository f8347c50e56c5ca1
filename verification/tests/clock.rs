use mcp_multi_tool::clock::{render_freeze_until, Timestamp};
use time::OffsetDateTime;

#[test]
fn timestamp_prints_as_the_time_crate_prints() {
    let epoch = Timestamp::from_unix_nanos(0).expect("epoch");
    assert_eq!(epoch.unix_nanos(), 0);
    assert_eq!(epoch.as_text(), OffsetDateTime::UNIX_EPOCH.to_string());
    assert_eq!(epoch.as_text(), "1970-01-01 0:00:00.0 +00:00:00");
    let later = Timestamp::from_unix_nanos(1_546_300_800_123_000_000).expect("2019");
    assert_eq!(later.as_text(), "2019-01-01 0:00:00.123 +00:00:00");
    assert_ne!(later.as_text(), epoch.as_text());
    let copy = later.clone();
    assert_eq!(copy.unix_nanos(), 1_546_300_800_123_000_000);
    assert_eq!(copy.as_text(), later.as_text());
}

#[test]
fn timestamp_out_of_range_is_refused() {
    assert!(Timestamp::from_unix_nanos(i128::MAX).is_none());
    assert!(Timestamp::from_unix_nanos(i128::MIN).is_none());
    assert!(Timestamp::from_unix_nanos(-1).is_some());
}

#[test]
fn freeze_end_is_rendered_in_rfc3339() {
    assert_eq!(render_freeze_until(0), "1970-01-01T00:00:00Z");
    assert_eq!(
        render_freeze_until(1_546_300_800_000_000_000),
        "2019-01-01T00:00:00Z"
    );
    assert_eq!(
        render_freeze_until(1_546_300_800_500_000_000),
        "2019-01-01T00:00:00.5Z"
    );
    // instants that no date stands for fall back to the epoch
    assert_eq!(render_freeze_until(u128::MAX), "1970-01-01T00:00:00Z");
    assert_eq!(render_freeze_until(i128::MAX as u128), "1970-01-01T00:00:00Z");
}
