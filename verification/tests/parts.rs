use filedate::{parse_filename_parts, FileName, StampError};

#[test]
fn filename_components() {
    let filenames = [
        "some_file_name",
        ".some_file_name",
        "some_file_name.gz",
        ".some_file_name.gz",
        "some_file_name.tar.gz",
        "some_file_name_v1.7.5.tar.gz",
    ];

    let stem_expected = [
        "some_file_name",
        ".some_file_name",
        "some_file_name",
        ".some_file_name",
        "some_file_name",
        "some_file_name_v1.7.5",
    ];

    let extension_expected = [
        None,
        None,
        Some("gz"),
        Some("gz"),
        Some("tar.gz"),
        Some("tar.gz"),
    ];

    for (i, x) in filenames.iter().enumerate() {
        assert_eq!(stem_expected[i], parse_filename_parts(x).unwrap().0);
        assert_eq!(extension_expected[i], parse_filename_parts(x).unwrap().1);
    }
}

#[test]
fn filename_to_string() {
    let some_file_name: FileName = FileName::new("some_file_name.tar.gz").unwrap();
    assert_eq!("some_file_name.tar.gz", some_file_name.to_owned_str());
}

#[test]
fn single_dot_is_refused() {
    assert_eq!(parse_filename_parts("."), Err(StampError::InvalidName));
    assert!(matches!(FileName::new("."), Err(StampError::InvalidName)));
}

#[test]
fn empty_name_is_its_own_stem() {
    assert_eq!(parse_filename_parts(""), Ok(("", None)));
}

#[test]
fn digit_segments_stay_in_the_stem() {
    assert_eq!(parse_filename_parts("release.1.2"), Ok(("release.1.2", None)));
    assert_eq!(parse_filename_parts("v2.0"), Ok(("v2.0", None)));
    assert_eq!(parse_filename_parts("a.1b.c"), Ok(("a.1b", Some("c"))));
}

#[test]
fn skipped_segments_keep_their_dots() {
    // One character is lost per skipped segment where the dots are not counted.
    assert_eq!(
        parse_filename_parts("pkg.1.22.333.zip"),
        Ok(("pkg.1.22.333", Some("zip")))
    );
    assert_eq!(
        parse_filename_parts(".hidden.10.tar.gz"),
        Ok((".hidden.10", Some("tar.gz")))
    );
}

#[test]
fn empty_segments_stay_in_the_stem() {
    assert_eq!(parse_filename_parts("name."), Ok(("name.", None)));
    assert_eq!(parse_filename_parts(".."), Ok(("..", None)));
    assert_eq!(parse_filename_parts("a..gz"), Ok(("a.", Some("gz"))));
    assert_eq!(parse_filename_parts("..gz"), Ok((".", Some("gz"))));
}

#[test]
fn leading_dot_separates_nothing() {
    assert_eq!(parse_filename_parts(".bashrc"), Ok((".bashrc", None)));
    assert_eq!(parse_filename_parts(".config.toml"), Ok((".config", Some("toml"))));
}

#[test]
fn names_beyond_ascii_are_split_by_characters() {
    assert_eq!(parse_filename_parts("café.tar.gz"), Ok(("café", Some("tar.gz"))));
    assert_eq!(parse_filename_parts("日本語.テキスト"), Ok(("日本語", Some("テキスト"))));
    assert_eq!(parse_filename_parts("x.٣"), Ok(("x", Some("٣"))));
}

#[test]
fn stem_splits_into_itself() {
    for name in [
        "some_file_name_v1.7.5.tar.gz",
        ".some_file_name.gz",
        "a..gz",
        "plain",
        "x.1.y.2.z",
    ] {
        let (stem, _) = parse_filename_parts(name).unwrap();
        assert_eq!(parse_filename_parts(stem), Ok((stem, None)));
    }
}

#[test]
fn parts_make_up_the_name_again() {
    for name in [
        "some_file_name",
        "some_file_name.tar.gz",
        ".some_file_name.gz",
        "a.1.2",
        "name.",
        "a..gz",
        "",
    ] {
        assert_eq!(FileName::new(name).unwrap().to_owned_str(), name);
    }
}

#[test]
fn file_name_getters() {
    let name = FileName::new("dir/archive.tar.gz").unwrap();
    assert_eq!(name.stem(), "dir/archive");
    assert_eq!(name.extension(), Some("tar.gz"));
    assert_eq!(name.directory(), Some("dir"));
    let bare = FileName::new("archive").unwrap();
    assert_eq!(bare.extension(), None);
    assert_eq!(bare.directory(), Some(""));
    assert_eq!(FileName::new("").unwrap().directory(), None);
}
