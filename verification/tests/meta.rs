use filedate::meta::{metadata_source, DatedPathBuf, FileNameMeta, MetadataSource};
use filedate::paths::path_has_parent;
use filedate::{datetime_from_iso_string, StampError, Timestamp};
use std::path::MAIN_SEPARATOR;

#[test]
fn stamped_path_is_taken_apart() {
    let sep = MAIN_SEPARATOR;
    let path = format!("dir{}some_file_1955-11-05T011011-0800.tar.gz", sep);
    let meta = FileNameMeta::new_from_path(&path).unwrap();
    assert_eq!(meta.file_string, path);
    assert_eq!(meta.directory.as_deref(), Some("dir"));
    assert_eq!(
        meta.filename_full.as_deref(),
        Some("some_file_1955-11-05T011011-0800.tar.gz")
    );
    assert_eq!(meta.filename_prefix, format!("dir{}some_file_", sep));
    assert_eq!(meta.filename_datetime_string, "1955-11-05T011011-0800");
    assert_eq!(meta.file_name_suffix, ".tar.gz");
    assert_eq!(
        meta.orig_datetime,
        Timestamp::new(1955, 11, 5, 1, 10, 11, -480).unwrap()
    );
    assert_eq!(
        meta.utc_datetime,
        Some(Timestamp::new(1955, 11, 5, 9, 10, 11, 0).unwrap())
    );
}

#[test]
fn stamped_path_beyond_ascii_is_cut_between_characters() {
    let meta = FileNameMeta::new_from_path("café·1955-11-05T011011-0800·日本").unwrap();
    assert_eq!(meta.filename_prefix, "café·");
    assert_eq!(meta.filename_datetime_string, "1955-11-05T011011-0800");
    assert_eq!(meta.file_name_suffix, "·日本");
}

#[test]
fn stamp_alone_is_taken_apart() {
    let meta = FileNameMeta::new_from_path("2024-02-29T235959-2359").unwrap();
    assert_eq!(meta.filename_prefix, "");
    assert_eq!(meta.file_name_suffix, "");
    assert_eq!(meta.directory.as_deref(), Some(""));
    assert_eq!(
        meta.utc_datetime,
        Some(Timestamp::new(2024, 3, 1, 23, 58, 59, 0).unwrap())
    );
}

#[test]
fn path_without_a_readable_stamp_tells_nothing() {
    assert!(FileNameMeta::new_from_path("some_file_name.tar.gz").is_none());
    assert!(FileNameMeta::new_from_path("").is_none());
    // Found by the search, but in no compact spelling.
    assert!(FileNameMeta::new_from_path("a_19551105T011011-0800.gz").is_none());
    assert!(FileNameMeta::new_from_path("a_1955-11-05T01:10:11-08:00.gz").is_none());
    // In the compact spelling, but east of UTC: not found.
    assert!(FileNameMeta::new_from_path("a_1955-11-05T091011+0000.gz").is_none());
}

#[test]
fn calendar_decides_the_time_at_utc() {
    let leap = datetime_from_iso_string("2024-02-29T120000-0800").unwrap();
    assert_eq!(leap.to_utc(), Timestamp::new(2024, 2, 29, 20, 0, 0, 0));
    let east = datetime_from_iso_string("2024-01-01T003000+0530").unwrap();
    assert_eq!(east.to_utc(), Timestamp::new(2023, 12, 31, 19, 0, 0, 0));
    let same = datetime_from_iso_string("1955-11-05T091011+0000").unwrap();
    assert_eq!(same.to_utc(), Some(same));
    // A day that the month does not have.
    let no_day = datetime_from_iso_string("2023-02-30T120000-0800").unwrap();
    assert_eq!(no_day.to_utc(), None);
    let no_leap = datetime_from_iso_string("2023-02-29T120000+0000").unwrap();
    assert_eq!(no_leap.to_utc(), None);
    // The year at UTC is beyond four digits.
    let last = datetime_from_iso_string("9999-12-31T235959-0001").unwrap();
    assert_eq!(last.to_utc(), None);
}

#[test]
fn dated_path_must_hold_a_stamp() {
    let dated = DatedPathBuf::new_from_pathbuf("a_1955-11-05T011011-0800.gz".to_string());
    assert_eq!(dated.unwrap().as_str(), "a_1955-11-05T011011-0800.gz");
    assert!(matches!(
        DatedPathBuf::new_from_pathbuf("a.gz".to_string()),
        Err(StampError::NotStamped)
    ));
    assert!(matches!(
        DatedPathBuf::new_from_pathbuf("a_1955-11-05T091011+0000.gz".to_string()),
        Err(StampError::NotStamped)
    ));
}

#[test]
fn parent_of_a_path() {
    let sep = MAIN_SEPARATOR;
    assert!(path_has_parent(&format!("dir{}name", sep)));
    assert!(path_has_parent(&format!("{}name", sep)));
    assert!(!path_has_parent("name"));
    assert!(!path_has_parent(""));
    assert!(!path_has_parent(&format!("{}", sep)));
}

#[test]
fn source_of_metadata() {
    assert_eq!(metadata_source(true, false, false), MetadataSource::Missing);
    assert_eq!(metadata_source(true, false, true), MetadataSource::Missing);
    assert_eq!(metadata_source(true, true, true), MetadataSource::Directory);
    assert_eq!(metadata_source(false, true, true), MetadataSource::Directory);
    assert_eq!(metadata_source(true, true, false), MetadataSource::SingleName);
    assert_eq!(metadata_source(false, true, false), MetadataSource::SingleName);
    assert_eq!(metadata_source(false, false, false), MetadataSource::SingleName);
    assert_eq!(metadata_source(false, false, true), MetadataSource::SingleName);
}
