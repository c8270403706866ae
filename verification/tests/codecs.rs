//! Tests of the `HH:MM:SS` and `YYYY-MM-DD` codecs.

use osapi::{Date, Time};

#[test]
fn time_parse_and_encode_round_trip() {
    for s in ["00:00:00", "09:00:00", "10:30:00", "23:59:59"] {
        let t = Time::parse_hms(s).expect("well-formed time");
        assert_eq!(t.to_hms_string(), s);
    }
}

#[test]
fn time_parse_reads_the_fields() {
    let t = Time::parse_hms("09:05:30").unwrap();
    assert_eq!((t.hour, t.minute, t.second), (9, 5, 30));
}

#[test]
fn time_encode_pads_with_zeros() {
    let t = Time::new(7, 4, 9).unwrap();
    assert_eq!(t.to_hms_string(), "07:04:09");
}

#[test]
fn time_rejects_out_of_range_and_malformed() {
    for s in ["24:00:00", "00:60:00", "00:00:60", "9:00:00", "09:00", "09-00-00", "", "ab:cd:ef"] {
        assert!(Time::parse_hms(s).is_none(), "accepted {:?}", s);
    }
    assert!(Time::new(24, 0, 0).is_none());
}

#[test]
fn date_parse_and_encode_round_trip() {
    for s in ["2023-01-01", "2024-02-29", "0000-01-01", "9999-12-31"] {
        let d = Date::parse_ymd(s).expect("well-formed date");
        assert_eq!(d.to_ymd_string(), s);
    }
}

#[test]
fn date_parse_reads_the_fields() {
    let d = Date::parse_ymd("2023-10-01").unwrap();
    assert_eq!((d.year, d.month, d.day), (2023, 10, 1));
}

#[test]
fn date_respects_the_calendar() {
    assert!(Date::parse_ymd("2023-02-29").is_none());
    assert!(Date::parse_ymd("2024-02-29").is_some());
    assert!(Date::parse_ymd("1900-02-29").is_none());
    assert!(Date::parse_ymd("2000-02-29").is_some());
    assert!(Date::parse_ymd("2023-04-31").is_none());
    assert!(Date::parse_ymd("2023-00-10").is_none());
    assert!(Date::parse_ymd("2023-13-10").is_none());
    assert!(Date::parse_ymd("2023-01-00").is_none());
}

#[test]
fn date_decodes_both_accepted_forms_alike() {
    let bare = Date::parse_flexible("2023-01-01").unwrap();
    for ts in [
        "2023-01-01T10:00:00Z",
        "2023-01-01T10:00:00z",
        "2023-01-01T23:59:59+05:00",
        "2023-01-01T00:00:00-08:30",
        "2023-01-01T10:00:00.5Z",
        "2023-01-01T10:00:00.123456+02:00",
    ] {
        assert_eq!(Date::parse_flexible(ts), Some(bare), "timestamp {:?}", ts);
    }
}

#[test]
fn date_rejects_malformed_timestamps() {
    for s in [
        "2023-01-01T10:00:00",
        "2023-01-01T10:00:00.Z",
        "2023-01-01T24:00:00Z",
        "2023-01-01T10:00:00+24:00",
        "2023-01-01T10:00:00+05:60",
        "2023-01-01 10:00:00Z",
        "2023-02-29T10:00:00Z",
        "T",
        "2023-01-01TTT",
    ] {
        assert!(Date::parse_flexible(s).is_none(), "accepted {:?}", s);
    }
}
