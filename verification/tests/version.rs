use chezmoi_modify_manager::version::{
    auto_source_version, parse_number, ChezmoiVersion, VersionError,
};

#[test]
fn test_chezmoi_version() {
    let version1 = ChezmoiVersion::from_env_var("2.46.0").unwrap();
    assert_eq!(version1, ChezmoiVersion(2, 46, 0));
    let version2 = ChezmoiVersion::from_version_output(
        "chezmoi version v2.46.1, built at 2024-01-26T07:31:10Z",
    )
    .unwrap();
    assert_eq!(version2, ChezmoiVersion(2, 46, 1));
    assert!(version1 < version2);
}

#[test]
fn version_order_goes_by_major_minor_patch() {
    assert!(ChezmoiVersion(2, 46, 0).older_than(&ChezmoiVersion(2, 46, 1)));
    assert!(ChezmoiVersion(2, 45, 9).older_than(&ChezmoiVersion(2, 46, 0)));
    assert!(ChezmoiVersion(1, 99, 99).older_than(&ChezmoiVersion(2, 0, 0)));
    assert!(!ChezmoiVersion(2, 46, 1).older_than(&ChezmoiVersion(2, 46, 1)));
    assert!(!ChezmoiVersion(3, 0, 0).older_than(&ChezmoiVersion(2, 99, 99)));
    assert_eq!(auto_source_version(), ChezmoiVersion(2, 46, 1));
}

#[test]
fn version_errors() {
    assert_eq!(
        ChezmoiVersion::from_env_var("v2.46.0"),
        Err(VersionError::NoVersion)
    );
    assert_eq!(
        ChezmoiVersion::from_env_var("2.46"),
        Err(VersionError::NoVersion)
    );
    assert_eq!(
        ChezmoiVersion::from_env_var("2.46.99999999999"),
        Err(VersionError::Number)
    );
    assert_eq!(
        ChezmoiVersion::from_version_output("no version here"),
        Err(VersionError::NoVersion)
    );
    assert_eq!(
        ChezmoiVersion::from_groups(&vec![Some("1".to_string()), None, Some("3".to_string())]),
        Err(VersionError::NoVersion)
    );
    assert_eq!(
        ChezmoiVersion::from_groups(&vec![
            Some("1".to_string()),
            Some("x".to_string()),
            Some("3".to_string())
        ]),
        Err(VersionError::Number)
    );
}

#[test]
fn numbers() {
    assert_eq!(parse_number("0"), Some(0));
    assert_eq!(parse_number("007"), Some(7));
    assert_eq!(parse_number("2147483647"), Some(i32::MAX));
    assert_eq!(parse_number("2147483648"), None);
    assert_eq!(parse_number(""), None);
    assert_eq!(parse_number("12a"), None);
    assert_eq!(parse_number("-1"), None);
}
