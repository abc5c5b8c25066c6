//! What the checks of the environment report.
//!
//! Looking things up is left to the caller; what is found is judged here.

use crate::version::{
    older, regex_groups, spec_auto_source_version, version_of_match, version_text, ChezmoiVersion,
    VersionError, ENV_VERSION_PATTERN, OUTPUT_VERSION_PATTERN,
};
use vstd::prelude::*;
use vstd::string::StringExecFns;

verus! {

/// How a check came out.
#[derive(Debug, Clone, Copy, PartialEq, Eq, Structural)]
pub enum CheckLevel {
    Fine,
    Info,
    Warning,
    Error,
}

/// The variable by which the version of the tracking tool can be set from
/// outside.
pub const VERSION_OVERRIDE: &'static str = "CHEZMOI_MODIFY_MANAGER_ASSUME_CHEZMOI_VERSION";

/// The line of the ignore file that keeps the tracking tool away from data
/// files.
pub const IGNORE_ENTRY: &'static str = "**/*.src.ini";

/// What is said of a version of the tracking tool, as it was read out of
/// `output`: a warning where it is too old for `source auto`.
pub open spec fn version_verdict(version: ChezmoiVersion, output: Seq<char>) -> (
    CheckLevel,
    Seq<char>,
) {
    if older(version, spec_auto_source_version()) {
        (
            CheckLevel::Warning,
            "Chezmoi found. Version is old and doesn't support \"source auto\" directive: "@
                + output,
        )
    } else {
        (CheckLevel::Fine, "Chezmoi found. Version: "@ + output)
    }
}

/// What is said of what the tracking tool printed when asked for its
/// version.
pub open spec fn version_report(output: Seq<char>) -> Result<(CheckLevel, Seq<char>), VersionError> {
    match version_of_match(regex_groups(OUTPUT_VERSION_PATTERN@, output)) {
        Err(e) => Err(e),
        Ok(version) => Ok(version_verdict(version, output)),
    }
}

/// What is said of a version that was set from outside: a warning where one
/// is set.
pub open spec fn override_report(value: Option<Seq<char>>) -> Result<
    (CheckLevel, Seq<char>),
    VersionError,
> {
    match value {
        None => Ok((CheckLevel::Fine, VERSION_OVERRIDE@ + " is not set"@)),
        Some(text) => match version_of_match(regex_groups(ENV_VERSION_PATTERN@, text)) {
            Err(e) => Err(e),
            Ok(version) => Ok(
                (CheckLevel::Warning, VERSION_OVERRIDE@ + " is set: "@ + version_text(version)),
            ),
        },
    }
}

/// The hook scripts as a list, each on a line of its own after `* `.
pub open spec fn hook_list(paths: Seq<Seq<char>>) -> Seq<char>
    decreases paths.len(),
{
    if paths.len() == 0 {
        Seq::empty()
    } else {
        hook_list(paths.drop_last()) + "\n* "@ + paths.last()
    }
}

/// What is said of hook scripts of the old kind: an error where there is one.
pub open spec fn hook_report(paths: Seq<Seq<char>>) -> (CheckLevel, Seq<char>) {
    if paths.len() == 0 {
        (CheckLevel::Fine, "No legacy hook script found"@)
    } else {
        (
            CheckLevel::Error,
            "Legacy hook script(s) found:"@ + hook_list(paths)
                + "\nPlease read https://github.com/VorpalBlade/chezmoi_modify_manager/blob/main/doc/migration_3.md"@,
        )
    }
}

/// What is said of the ignore file: an error where no line of it keeps the
/// tracking tool away from data files.
pub open spec fn ignore_report(found: bool) -> (CheckLevel, Seq<char>) {
    if found {
        (CheckLevel::Fine, "Ignore of **/*.src.ini found"@)
    } else {
        (CheckLevel::Error, "Ignore of **/*.src.ini is missing from root .chezmoiignore"@)
    }
}

/// Judges a version of the tracking tool that was read out of `output`.
pub fn judge_version(version: &ChezmoiVersion, output: &str) -> (r: (CheckLevel, String))
    ensures
        version_verdict(*version, output@) == (r.0, r.1@),
{
    if version.older_than(&crate::version::auto_source_version()) {
        let mut text = String::from_str(
            "Chezmoi found. Version is old and doesn't support \"source auto\" directive: ",
        );
        text.append(output);
        (CheckLevel::Warning, text)
    } else {
        let mut text = String::from_str("Chezmoi found. Version: ");
        text.append(output);
        (CheckLevel::Fine, text)
    }
}

/// Judges what the tracking tool printed when asked for its version.
pub fn chezmoi_check(output: &str) -> (r: Result<(CheckLevel, String), VersionError>)
    ensures
        match r {
            Ok((level, text)) => version_report(output@) == Ok::<_, VersionError>((level, text@)),
            Err(e) => version_report(output@) == Err::<(CheckLevel, Seq<char>), _>(e),
        },
{
    match ChezmoiVersion::from_version_output(output) {
        Ok(version) => Ok(judge_version(&version, output)),
        Err(e) => Err(e),
    }
}

/// Judges the version that was set from outside, if one was.
pub fn chezmoi_version_override_check(value: Option<&str>) -> (r: Result<
    (CheckLevel, String),
    VersionError,
>)
    ensures
        match r {
            Ok((level, text)) => override_report(
                match value {
                    Some(v) => Some(v@),
                    None => None,
                },
            ) == Ok::<_, VersionError>((level, text@)),
            Err(e) => override_report(
                match value {
                    Some(v) => Some(v@),
                    None => None,
                },
            ) == Err::<(CheckLevel, Seq<char>), _>(e),
        },
{
    match value {
        None => {
            let mut text = String::from_str(VERSION_OVERRIDE);
            text.append(" is not set");
            Ok((CheckLevel::Fine, text))
        },
        Some(given) => match ChezmoiVersion::from_env_var(given) {
            Err(e) => Err(e),
            Ok(version) => {
                let mut text = String::from_str(VERSION_OVERRIDE);
                text.append(" is set: ");
                text.append(version.text().as_str());
                Ok((CheckLevel::Warning, text))
            },
        },
    }
}

/// Judges the hook scripts of the old kind that were found.
pub fn check_hooks(paths: &Vec<String>) -> (r: (CheckLevel, String))
    ensures
        hook_report(crate::lookup::texts(paths@)) == (r.0, r.1@),
{
    if paths.len() == 0 {
        assert(crate::lookup::texts(paths@).len() == 0);
        return (CheckLevel::Fine, String::from_str("No legacy hook script found"));
    }
    let ghost all = crate::lookup::texts(paths@);
    let mut text = String::from_str("Legacy hook script(s) found:");
    let mut i: usize = 0;
    while i < paths.len()
        invariant
            i <= paths@.len(),
            all == crate::lookup::texts(paths@),
            text@ == "Legacy hook script(s) found:"@ + hook_list(all.take(i as int)),
        decreases paths@.len() - i,
    {
        proof {
            assert(all.take(i + 1).drop_last() =~= all.take(i as int));
            assert(all.take(i + 1).last() == paths@[i as int]@);
            assert("Legacy hook script(s) found:"@ + hook_list(all.take(i as int)) + "\n* "@
                + paths@[i as int]@ =~= "Legacy hook script(s) found:"@ + hook_list(
                all.take(i + 1),
            ));
        }
        text.append("\n* ");
        text.append(paths[i].as_str());
        i = i + 1;
    }
    assert(all.take(paths@.len() as int) =~= all);
    text.append(
        "\nPlease read https://github.com/VorpalBlade/chezmoi_modify_manager/blob/main/doc/migration_3.md",
    );
    (CheckLevel::Error, text)
}

/// Whether a line of the ignore file, taken without the white space at its
/// end, keeps the tracking tool away from data files.
pub fn is_ignore_entry(line: &str) -> (r: bool)
    ensures
        r == (line@ == IGNORE_ENTRY@),
{
    line.eq(IGNORE_ENTRY)
}

/// Judges the ignore file, given whether such a line was found in it.
pub fn check_has_ignore(found: bool) -> (r: (CheckLevel, String))
    ensures
        ignore_report(found) == (r.0, r.1@),
{
    if found {
        (CheckLevel::Fine, String::from_str("Ignore of **/*.src.ini found"))
    } else {
        (
            CheckLevel::Error,
            String::from_str("Ignore of **/*.src.ini is missing from root .chezmoiignore"),
        )
    }
}

} // verus!
