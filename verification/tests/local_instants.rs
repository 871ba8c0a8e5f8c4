use weatherbot::localtime::{format_local_datetime, local_offset_seconds};
use chrono::TimeZone;

#[test]
fn epoch_zero_at_utc() {
    assert_eq!(format_local_datetime(0, 0), "1970-01-01T00:00:00+00:00");
}

#[test]
fn epoch_zero_one_hour_east() {
    assert_eq!(format_local_datetime(0, 3_600), "1970-01-01T01:00:00+01:00");
}

#[test]
fn a_modern_instant_five_hours_west() {
    // 2023-09-30T12:00:00Z seen from UTC-5
    assert_eq!(
        format_local_datetime(1_696_075_200, -18_000),
        "2023-09-30T07:00:00-05:00"
    );
}

#[test]
fn the_machine_offset_is_within_a_day() {
    let off = local_offset_seconds();
    assert!(-86_400 < off && off < 86_400);
}

#[test]
fn rendering_agrees_with_chrono() {
    let zone = chrono::FixedOffset::east_opt(7_200).unwrap();
    let expected = format!("{:?}", zone.timestamp_opt(1_000_000_000, 0).unwrap());
    assert_eq!(format_local_datetime(1_000_000_000, 7_200), expected);
}
