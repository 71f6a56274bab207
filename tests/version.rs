use unic_ucd_gen::version::{
    read_unicode_version, run, version_from_captures, UnicodeVersion, VersionError,
};

#[test]
fn reads_version_header() {
    let text = "# Unicode Character Database\n# for Version 11.0.0 of the Unicode Standard.\n";
    assert_eq!(
        read_unicode_version(text),
        Ok(UnicodeVersion { major: 11, minor: 0, micro: 0 })
    );
    assert_eq!(
        read_unicode_version("for Version 16.2.31"),
        Ok(UnicodeVersion { major: 16, minor: 2, micro: 31 })
    );
}

#[test]
fn missing_version_is_an_error() {
    assert_eq!(read_unicode_version("no version here"), Err(VersionError::MissingVersion));
    assert_eq!(read_unicode_version("for Version 11.0"), Err(VersionError::MissingVersion));
    assert_eq!(read_unicode_version(""), Err(VersionError::MissingVersion));
}

#[test]
fn oversized_version_number_is_an_error() {
    assert_eq!(read_unicode_version("for Version 70000.0.0"), Err(VersionError::InvalidNumber));
}

#[test]
fn version_from_groups() {
    let g = vec![
        Some("for Version 1.2.3".to_string()),
        Some("1".to_string()),
        Some("2".to_string()),
        Some("3".to_string()),
    ];
    assert_eq!(version_from_captures(Some(g)), Ok(UnicodeVersion { major: 1, minor: 2, micro: 3 }));
    assert_eq!(version_from_captures(None), Err(VersionError::MissingVersion));
    let short = vec![Some("x".to_string()), Some("1".to_string())];
    assert_eq!(version_from_captures(Some(short)), Err(VersionError::InvalidNumber));
    let absent = vec![Some("x".to_string()), None, Some("2".to_string()), Some("3".to_string())];
    assert_eq!(version_from_captures(Some(absent)), Err(VersionError::InvalidNumber));
}

#[test]
fn run_renders_version_file() {
    assert_eq!(
        run("README for Version 11.0.0 ..."),
        Ok("// WARNING: Auto-generated by unic_ucd_gen. DO NOT EDIT MANUALLY!\nUnicodeVersion { major: 11, minor: 0, micro: 0 }\n".to_string())
    );
    assert_eq!(run("nothing"), Err(VersionError::MissingVersion));
}
