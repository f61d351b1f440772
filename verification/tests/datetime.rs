use jartic_fetch::datetime::{parse, DT};

#[test]
fn yyyymmddhhmm() {
    assert_eq!(
        parse("202501020304"),
        Some(DT::YMDHM {
            string: "202501020304".into(),
            year: 2025,
            month: 1,
            day: 2,
            hour: 3,
            minute: 4
        })
    );
    assert_eq!(
        parse("202512312359"),
        Some(DT::YMDHM {
            string: "202512312359".into(),
            year: 2025,
            month: 12,
            day: 31,
            hour: 23,
            minute: 59
        })
    );
    assert!(parse("202501022400").is_none());
}

#[test]
fn yyyymmddhh() {
    assert_eq!(
        parse("2025010203"),
        Some(DT::YMDH {
            string: "2025010203".into(),
            year: 2025,
            month: 1,
            day: 2,
            hour: 3,
        })
    );
    assert_eq!(
        parse("2025123123"),
        Some(DT::YMDH {
            string: "2025123123".into(),
            year: 2025,
            month: 12,
            day: 31,
            hour: 23,
        })
    );
    assert!(parse("2025010224").is_none());
}

#[test]
fn yyyymmdd() {
    assert_eq!(
        parse("20250102"),
        Some(DT::YMD {
            string: "20250102".into(),
            year: 2025,
            month: 1,
            day: 2,
        })
    );
    assert_eq!(
        parse("20251231"),
        Some(DT::YMD {
            string: "20251231".into(),
            year: 2025,
            month: 12,
            day: 31,
        })
    );
    assert!(parse("20251301").is_none());
}

#[test]
fn datetime_invalid() {
    assert!(parse("202501023").is_none());
    assert!(parse("202512").is_none());
    assert!(parse("20251").is_none());
    assert!(parse("2025").is_none());
    assert!(parse("abc").is_none());
    assert!(parse("").is_none());
}

#[test]
fn leap_years() {
    assert!(parse("20240229").is_some());
    assert!(parse("20230229").is_none());
    assert!(parse("20240230").is_none());
    assert!(parse("20000229").is_some());
    assert!(parse("19000229").is_none());
    assert!(parse("20240131").is_some());
    assert!(parse("20240431").is_none());
}

#[test]
fn minute_bounds() {
    assert!(parse("202501020360").is_none());
    assert_eq!(
        parse("202501020000"),
        Some(DT::YMDHM {
            string: "202501020000".into(),
            year: 2025,
            month: 1,
            day: 2,
            hour: 0,
            minute: 0
        })
    );
}

#[test]
fn non_digit_lengths() {
    assert!(parse("2025010a").is_none());
    assert!(parse("20250102030405").is_none());
    assert!(parse("2025-01-02").is_none());
}
