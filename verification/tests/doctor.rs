use chezmoi_modify_manager::doctor::{
    check_has_ignore, check_hooks, chezmoi_check, chezmoi_version_override_check, is_ignore_entry,
    judge_version, CheckLevel,
};
use chezmoi_modify_manager::version::{ChezmoiVersion, VersionError};

#[test]
fn version_is_shown_with_a_v() {
    assert_eq!(ChezmoiVersion(2, 46, 1).text(), "v2.46.1");
    assert_eq!(ChezmoiVersion(0, 0, 0).text(), "v0.0.0");
    assert_eq!(ChezmoiVersion(10, 107, 2147483647).text(), "v10.107.2147483647");
    assert_eq!(ChezmoiVersion(-1, -20, i32::MIN).text(), "v-1.-20.-2147483648");
}

#[test]
fn tool_version_is_judged() {
    let new = "chezmoi version v2.46.1, built at 2024-01-26T07:31:10Z";
    assert_eq!(
        chezmoi_check(new),
        Ok((CheckLevel::Fine, format!("Chezmoi found. Version: {new}")))
    );
    let old = "chezmoi version v2.45.9";
    assert_eq!(
        chezmoi_check(old),
        Ok((
            CheckLevel::Warning,
            format!(
                "Chezmoi found. Version is old and doesn't support \"source auto\" directive: {old}"
            )
        ))
    );
    assert_eq!(chezmoi_check("nothing"), Err(VersionError::NoVersion));
}

#[test]
fn override_is_judged() {
    assert_eq!(
        chezmoi_version_override_check(None),
        Ok((
            CheckLevel::Fine,
            "CHEZMOI_MODIFY_MANAGER_ASSUME_CHEZMOI_VERSION is not set".to_string()
        ))
    );
    assert_eq!(
        chezmoi_version_override_check(Some("2.40.3")),
        Ok((
            CheckLevel::Warning,
            "CHEZMOI_MODIFY_MANAGER_ASSUME_CHEZMOI_VERSION is set: v2.40.3".to_string()
        ))
    );
    assert_eq!(
        chezmoi_version_override_check(Some("v2.40.3")),
        Err(VersionError::NoVersion)
    );
}

#[test]
fn hooks_and_ignore_are_judged() {
    assert_eq!(
        check_hooks(&vec![]),
        (CheckLevel::Fine, "No legacy hook script found".to_string())
    );
    assert_eq!(
        check_hooks(&vec!["/s/a".to_string(), "/s/b".to_string()]),
        (
            CheckLevel::Error,
            "Legacy hook script(s) found:\n* /s/a\n* /s/b\nPlease read https://github.com/VorpalBlade/chezmoi_modify_manager/blob/main/doc/migration_3.md".to_string()
        )
    );
    assert!(is_ignore_entry("**/*.src.ini"));
    assert!(!is_ignore_entry("**/*.src.ini "));
    assert!(!is_ignore_entry("*.src.ini"));
    assert_eq!(
        check_has_ignore(true),
        (CheckLevel::Fine, "Ignore of **/*.src.ini found".to_string())
    );
    assert_eq!(
        check_has_ignore(false),
        (
            CheckLevel::Error,
            "Ignore of **/*.src.ini is missing from root .chezmoiignore".to_string()
        )
    );
}

#[test]
fn a_version_is_judged_by_its_age() {
    assert_eq!(
        judge_version(&ChezmoiVersion(2, 46, 1), "x"),
        (CheckLevel::Fine, "Chezmoi found. Version: x".to_string())
    );
    assert_eq!(
        judge_version(&ChezmoiVersion(2, 46, 0), "x").0,
        CheckLevel::Warning
    );
    assert_eq!(
        judge_version(&ChezmoiVersion(3, 0, 0), "").0,
        CheckLevel::Fine
    );
}
