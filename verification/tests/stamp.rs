use filedate::stamp::{stamp_path, stamp_path_with, stamp_str, stamp_with, DEFAULT_OFFSET_MINUTES};
use filedate::{
    current_time_per_zone, datetime_from_iso_string, datetime_from_string,
    datetime_to_iso_string, timestamp_at, StampError, Timestamp,
};
use std::path::{Path, MAIN_SEPARATOR};

#[test]
#[should_panic]
fn test_std_path_library() {
    // Path knows the last extension only: 'gz', not 'tar.gz'.
    let filename: &str = "myfile.tar.gz";
    assert_eq!(Path::new(&filename).extension().unwrap(), "tar.gz");
}

#[test]
fn suffix_test() {
    const DATETIME_STRING: &str = "1955-11-05T011011-0800";
    let some_datetime: Option<Timestamp> = datetime_from_string(DATETIME_STRING);
    let filenames = [
        "some_file_name",
        ".some_file_name",
        "some_file_name.gz",
        ".some_file_name.gz",
        "some_file_name.tar.gz",
    ];

    let expected = [
        "some_file_name_1955-11-05T011011-0800",
        ".some_file_name_1955-11-05T011011-0800",
        "some_file_name_1955-11-05T011011-0800.gz",
        ".some_file_name_1955-11-05T011011-0800.gz",
        "some_file_name_1955-11-05T011011-0800.tar.gz",
    ];

    for (i, x) in filenames.iter().enumerate() {
        assert_eq!(expected[i], stamp_str(x, &some_datetime).unwrap());
    }
}

#[test]
fn stamp_goes_behind_version_segments() {
    let t = datetime_from_string("1955-11-05T011011-0800").unwrap();
    assert_eq!(
        stamp_with("some_file_name_v1.7.5.tar.gz", &t).unwrap(),
        "some_file_name_v1.7.5_1955-11-05T011011-0800.tar.gz"
    );
    assert_eq!(stamp_with("", &t).unwrap(), "_1955-11-05T011011-0800");
    assert_eq!(stamp_with("name.", &t).unwrap(), "name._1955-11-05T011011-0800");
}

#[test]
fn stamping_refuses_the_single_dot() {
    let t = datetime_from_string("1955-11-05T011011-0800");
    assert_eq!(stamp_str(".", &t), Err(StampError::InvalidName));
    assert_eq!(stamp_str(".", &None), Err(StampError::InvalidName));
    assert_eq!(stamp_with(".", &t.unwrap()), Err(StampError::InvalidName));
}

#[test]
fn stamping_without_a_timestamp_takes_the_clock() {
    let before = current_time_per_zone(DEFAULT_OFFSET_MINUTES).unwrap();
    let stamped = stamp_str("some_file_name.tar.gz", &None).unwrap();
    let after = current_time_per_zone(DEFAULT_OFFSET_MINUTES).unwrap();
    assert!(stamped.starts_with("some_file_name_"));
    assert!(stamped.ends_with(".tar.gz"));
    assert_eq!(stamped.len(), "some_file_name_".len() + 22 + ".tar.gz".len());
    let text = &stamped["some_file_name_".len()..stamped.len() - ".tar.gz".len()];
    assert!(text.ends_with("+0000"));
    assert!(before.to_iso_string().as_str() <= text);
    assert!(text <= after.to_iso_string().as_str());
    assert_eq!(datetime_from_iso_string(text).unwrap().offset_minutes(), 0);
}

#[test]
fn text_of_the_current_time() {
    let before = current_time_per_zone(DEFAULT_OFFSET_MINUTES).unwrap().to_iso_string();
    let text = datetime_to_iso_string(&None).unwrap();
    let after = current_time_per_zone(DEFAULT_OFFSET_MINUTES).unwrap().to_iso_string();
    assert!(before <= text && text <= after);
}

#[test]
fn clock_follows_the_offset() {
    let utc = chrono::Utc::now();
    let here = current_time_per_zone(0).unwrap();
    let east = current_time_per_zone(330).unwrap();
    let west = current_time_per_zone(-480).unwrap();
    assert_eq!(here.offset_minutes(), 0);
    assert_eq!(east.offset_minutes(), 330);
    assert_eq!(west.offset_minutes(), -480);
    let theirs = utc.format("%Y-%m-%dT%H%M%S+0000").to_string();
    assert!(theirs <= here.to_iso_string());
    let east_utc = east.to_utc().unwrap().to_iso_string();
    let west_utc = west.to_utc().unwrap().to_iso_string();
    assert!(theirs <= east_utc && east_utc <= west_utc);
    assert!(here.year() >= 2024);
}

#[test]
fn instant_is_placed_at_the_offset() {
    assert_eq!(timestamp_at(0, 0), Timestamp::new(1970, 1, 1, 0, 0, 0, 0));
    assert_eq!(timestamp_at(0, -480), Timestamp::new(1969, 12, 31, 16, 0, 0, -480));
    assert_eq!(timestamp_at(0, 330), Timestamp::new(1970, 1, 1, 5, 30, 0, 330));
    assert_eq!(timestamp_at(-1, 0), Timestamp::new(1969, 12, 31, 23, 59, 59, 0));
    assert_eq!(
        timestamp_at(951_782_400, 1439),
        Timestamp::new(2000, 2, 29, 23, 59, 0, 1439)
    );
    let instant = chrono::TimeZone::with_ymd_and_hms(&chrono::Utc, 1955, 11, 5, 9, 10, 11)
        .unwrap()
        .timestamp();
    assert_eq!(
        timestamp_at(instant, -480),
        Timestamp::new(1955, 11, 5, 1, 10, 11, -480)
    );
    assert_eq!(
        timestamp_at(instant, 0).unwrap().to_iso_string(),
        "1955-11-05T091011+0000"
    );
}

#[test]
fn instant_out_of_range_has_no_timestamp() {
    // The last second of the year 9999 at UTC, and the one after it.
    assert_eq!(
        timestamp_at(253_402_300_799, 0),
        Timestamp::new(9999, 12, 31, 23, 59, 59, 0)
    );
    assert_eq!(timestamp_at(253_402_300_800, 0), None);
    assert_eq!(timestamp_at(253_402_300_799, 1), None);
    assert!(timestamp_at(253_402_300_800, -1).is_some());
    // The first second of the year 0 at UTC, and the one before it.
    assert_eq!(
        timestamp_at(-62_167_219_200, 0),
        Timestamp::new(0, 1, 1, 0, 0, 0, 0)
    );
    assert_eq!(timestamp_at(-62_167_219_201, 0), None);
    assert_eq!(timestamp_at(i64::MAX, 0), None);
    assert_eq!(timestamp_at(i64::MIN, 0), None);
    assert_eq!(timestamp_at(0, 1440), None);
    assert_eq!(timestamp_at(0, -1440), None);
    assert_eq!(timestamp_at(0, i32::MAX), None);
    assert_eq!(timestamp_at(0, i32::MIN), None);
}

#[test]
fn clock_agrees_with_the_instant() {
    let before = chrono::Utc::now().timestamp();
    let shown = current_time_per_zone(-480).unwrap();
    let after = chrono::Utc::now().timestamp();
    let text = shown.to_iso_string();
    assert!(timestamp_at(before, -480).unwrap().to_iso_string() <= text);
    assert!(text <= timestamp_at(after, -480).unwrap().to_iso_string());
}

#[test]
fn clock_refuses_an_offset_of_a_day() {
    assert_eq!(current_time_per_zone(1440), None);
    assert_eq!(current_time_per_zone(-1440), None);
    assert_eq!(current_time_per_zone(i32::MAX), None);
    assert_eq!(current_time_per_zone(i32::MIN), None);
    assert!(current_time_per_zone(1439).is_some());
    assert!(current_time_per_zone(-1439).is_some());
}

#[test]
fn path_keeps_its_parent() {
    let t = datetime_from_string("1955-11-05T011011-0800");
    let sep = MAIN_SEPARATOR;
    assert_eq!(
        stamp_path("some_file_name.tar.gz", &t).unwrap(),
        "some_file_name_1955-11-05T011011-0800.tar.gz"
    );
    assert_eq!(
        stamp_path(&format!("dir{}some_file_name.tar.gz", sep), &t).unwrap(),
        format!("dir{}some_file_name_1955-11-05T011011-0800.tar.gz", sep)
    );
    assert_eq!(
        stamp_path(&format!("{}a.d{}b.c{}.hidden.gz", sep, sep, sep), &t).unwrap(),
        format!("{}a.d{}b.c{}.hidden_1955-11-05T011011-0800.gz", sep, sep, sep)
    );
    assert_eq!(
        stamp_path_with(&format!("dir{}name", sep), &t.unwrap()).unwrap(),
        format!("dir{}name_1955-11-05T011011-0800", sep)
    );
}

#[test]
fn path_without_a_final_component_is_refused() {
    let t = datetime_from_string("1955-11-05T011011-0800");
    let sep = MAIN_SEPARATOR;
    assert_eq!(stamp_path("", &t), Err(StampError::NoFileName));
    assert_eq!(stamp_path("..", &t), Err(StampError::NoFileName));
    assert_eq!(stamp_path(&format!("dir{}..", sep), &t), Err(StampError::NoFileName));
    assert_eq!(stamp_path(&format!("{}", sep), &None), Err(StampError::NoFileName));
    assert_eq!(stamp_path_with("..", &t.unwrap()), Err(StampError::NoFileName));
}

#[test]
fn path_without_a_timestamp_takes_the_clock() {
    let sep = MAIN_SEPARATOR;
    let stamped = stamp_path(&format!("dir{}name.gz", sep), &None).unwrap();
    assert!(stamped.starts_with(&format!("dir{}name_", sep)));
    assert!(stamped.ends_with("+0000.gz"));
}

#[test]
fn error_messages() {
    assert_eq!(
        StampError::InvalidName.message(),
        "Invalid file name: single Unicode character U+002E (period, full stop)"
    );
    assert_eq!(
        StampError::NotStamped.message(),
        "Path does not contain an ISO 8601 datetime."
    );
    assert_eq!(StampError::NoFileName.message(), "Path has no file name.");
    assert_eq!(
        StampError::ClockOutOfRange.message(),
        "The clock shows a time before 1970 or a year beyond four digits."
    );
}
