//! Paths: where the data file of a script is, and where the tracked copy of a
//! file is.
//!
//! A directive script is named `modify_<name>` or `modify_<name>.tmpl`, and the
//! data file that it works on lies beside it as `<name>.src.ini`.

use crate::config::{Source, SourceView};
use crate::text::{chars_of, has_prefix_at, starts_with_at, substring};
use vstd::prelude::*;
use vstd::string::StringExecFns;

verus! {

/// What the name of a directive script starts with.
pub const MANAGED_PREFIX: &'static str = "modify_";

/// What the name of a script ends with where the script is a template.
pub const TEMPLATE_SUFFIX: &'static str = ".tmpl";

/// What the name of a data file ends with.
pub const DATA_SUFFIX: &'static str = ".src.ini";

/// Whether `s` starts with `prefix`.
pub open spec fn starts_with(s: Seq<char>, prefix: Seq<char>) -> bool {
    has_prefix_at(s, 0, prefix)
}

/// Whether `s` ends with `suffix`.
pub open spec fn ends_with(s: Seq<char>, suffix: Seq<char>) -> bool {
    suffix.len() <= s.len() && s.subrange(s.len() - suffix.len(), s.len() as int) == suffix
}

/// `s` without `prefix` at its start, if it starts with it.
pub open spec fn without_prefix(s: Seq<char>, prefix: Seq<char>) -> Seq<char> {
    if starts_with(s, prefix) {
        s.subrange(prefix.len() as int, s.len() as int)
    } else {
        s
    }
}

/// `s` without `suffix` at its end, if it ends with it.
pub open spec fn without_suffix(s: Seq<char>, suffix: Seq<char>) -> Seq<char> {
    if ends_with(s, suffix) {
        s.subrange(0, s.len() - suffix.len())
    } else {
        s
    }
}

/// The name of the data file that belongs to the script of the given name:
/// the name without `modify_` at its start and `.tmpl` at its end, and with
/// `.src.ini` after it.
pub open spec fn data_name(script_name: Seq<char>) -> Seq<char> {
    without_suffix(without_prefix(script_name, MANAGED_PREFIX@), TEMPLATE_SUFFIX@) + DATA_SUFFIX@
}

/// The name of the data file that is kept for the tracked file of the given
/// name.
pub open spec fn data_name_for(tracked_name: Seq<char>) -> Seq<char> {
    tracked_name + DATA_SUFFIX@
}

/// The name of the script that is kept for the tracked file of the given
/// name: a template or not.
pub open spec fn script_name_for(tracked_name: Seq<char>, template: bool) -> Seq<char> {
    if template {
        MANAGED_PREFIX@ + tracked_name + TEMPLATE_SUFFIX@
    } else {
        MANAGED_PREFIX@ + tracked_name
    }
}

/// The final component of a path, as `camino::Utf8Path::file_name` gives it
/// on the platform that the library is built for.
pub uninterp spec fn path_file_name(path: Seq<char>) -> Option<Seq<char>>;

/// A path without its final component, as `camino::Utf8Path::parent` gives
/// it.
pub uninterp spec fn path_parent(path: Seq<char>) -> Option<Seq<char>>;

/// A path with another adjoined, as `camino::Utf8Path::join` gives it.
pub uninterp spec fn path_join(base: Seq<char>, path: Seq<char>) -> Seq<char>;

/// A path with its file name replaced, as `camino::Utf8Path::with_file_name`
/// gives it.
pub uninterp spec fn path_with_file_name(path: Seq<char>, name: Seq<char>) -> Seq<char>;

/// `camino::Utf8Path::file_name`. Trusted: the result is the function
/// [`path_file_name`] of the path, which is to say that it depends on nothing
/// but the text of the path.
#[verifier::external_body]
pub(crate) fn file_name(path: &str) -> (r: Option<String>)
    ensures
        match r {
            Some(name) => path_file_name(path@) == Some(name@),
            None => path_file_name(path@) is None,
        },
{
    camino::Utf8Path::new(path).file_name().map(str::to_owned)
}

/// `camino::Utf8Path::parent`. Trusted: the result is the function
/// [`path_parent`] of the path.
#[verifier::external_body]
pub(crate) fn parent(path: &str) -> (r: Option<String>)
    ensures
        match r {
            Some(dir) => path_parent(path@) == Some(dir@),
            None => path_parent(path@) is None,
        },
{
    camino::Utf8Path::new(path).parent().map(|dir| dir.as_str().to_owned())
}

/// `camino::Utf8Path::join`. Trusted: the result is the function
/// [`path_join`] of the two paths.
#[verifier::external_body]
pub(crate) fn join(base: &str, path: &str) -> (r: String)
    ensures
        r@ == path_join(base@, path@),
{
    camino::Utf8Path::new(base).join(path).into_string()
}

/// `camino::Utf8Path::with_file_name`. Trusted: the result is the function
/// [`path_with_file_name`] of the path and the name.
#[verifier::external_body]
pub(crate) fn with_file_name(path: &str, name: &str) -> (r: String)
    ensures
        r@ == path_with_file_name(path@, name@),
{
    camino::Utf8Path::new(path).with_file_name(name).into_string()
}

/// Whether `input` ends with `suffix`.
fn ends_with_chars(input: &[char], suffix: &str) -> (r: bool)
    ensures
        r == ends_with(input@, suffix@),
{
    let n: usize = suffix.unicode_len();
    let len: usize = input.len();
    if n > len {
        false
    } else {
        starts_with_at(input, len - n, suffix)
    }
}

/// Whether `name` is the name of a directive script.
pub fn is_script_name(name: &str) -> (r: bool)
    ensures
        r == starts_with(name@, MANAGED_PREFIX@),
{
    let chars = chars_of(name);
    starts_with_at(chars.as_slice(), 0, MANAGED_PREFIX)
}

/// The name of the data file that belongs to the script of the given name.
pub fn data_file_name(script_name: &str) -> (name: String)
    ensures
        name@ == data_name(script_name@),
{
    let chars = chars_of(script_name);
    let from: usize = if starts_with_at(chars.as_slice(), 0, MANAGED_PREFIX) {
        MANAGED_PREFIX.unicode_len()
    } else {
        0
    };
    proof {
        assert(chars@.subrange(0, chars@.len() as int) == chars@);
    }
    let ghost middle = without_prefix(chars@, MANAGED_PREFIX@);
    let rest = substring(chars.as_slice(), from, chars.len());
    let rest_chars = chars_of(rest.as_str());
    let to: usize = if ends_with_chars(rest_chars.as_slice(), TEMPLATE_SUFFIX) {
        rest_chars.len() - TEMPLATE_SUFFIX.unicode_len()
    } else {
        rest_chars.len()
    };
    proof {
        assert(rest_chars@.subrange(0, rest_chars@.len() as int) == rest_chars@);
    }
    let mut name = substring(rest_chars.as_slice(), 0, to);
    name.append(DATA_SUFFIX);
    name
}

/// Why the tracked copy of a file could not be located.
#[derive(Debug, Clone, Copy, PartialEq, Eq, Structural)]
pub enum SourceError {
    /// The environment does not name the source directory.
    NoSourceDir,
    /// The environment does not name the source file: the tracking tool is
    /// too old for `source auto`.
    NoSourceFile,
    /// The path of the script has no file name.
    NoFileName,
}

/// What the tracking tool puts into the environment of a script that it
/// runs.
#[derive(Debug, Clone, PartialEq, Eq)]
pub struct SourceEnv {
    /// The root of the source state, if it is set.
    pub source_dir: Option<String>,
    /// The path of the script below that root, if it is set.
    pub source_file: Option<String>,
}

/// The data file that lies beside the script at `script_path`.
pub open spec fn data_path_beside(script_path: Seq<char>) -> Result<Seq<char>, SourceError> {
    match path_file_name(script_path) {
        Some(name) => Ok(path_with_file_name(script_path, data_name(name))),
        None => Err(SourceError::NoFileName),
    }
}

/// Where the tracked copy is: the path that was given; or the data file
/// beside the script that the environment names; or the data file beside the
/// script at `script_path`.
pub open spec fn source_path_of(
    source: SourceView,
    script_path: Seq<char>,
    source_dir: Option<Seq<char>>,
    source_file: Option<Seq<char>>,
) -> Result<Seq<char>, SourceError> {
    match source {
        SourceView::Path(path) => Ok(path),
        SourceView::AutoEnv => match source_dir {
            None => Err(SourceError::NoSourceDir),
            Some(dir) => match source_file {
                None => Err(SourceError::NoSourceFile),
                Some(file) => data_path_beside(path_join(dir, file)),
            },
        },
        SourceView::AutoPath => data_path_beside(script_path),
    }
}

/// The text of an optional string.
pub open spec fn text_view(text: Option<String>) -> Option<Seq<char>> {
    match text {
        Some(t) => Some(t@),
        None => None,
    }
}

/// The data file that lies beside the script at `script_path`.
pub fn resolve_relative_path(script_path: &str) -> (r: Result<String, SourceError>)
    ensures
        match r {
            Ok(path) => data_path_beside(script_path@) == Ok::<_, SourceError>(path@),
            Err(e) => data_path_beside(script_path@) == Err::<Seq<char>, _>(e),
        },
{
    match file_name(script_path) {
        Some(name) => {
            let data = data_file_name(name.as_str());
            Ok(with_file_name(script_path, data.as_str()))
        },
        None => Err(SourceError::NoFileName),
    }
}

/// Where the tracked copy is, for a script at `script_path` that runs in the
/// environment `env`. Nothing is looked up before this is called: a source
/// that is found automatically depends on where the script is.
pub fn source_path(source: &Source, script_path: &str, env: &SourceEnv) -> (r: Result<
    String,
    SourceError,
>)
    ensures
        match r {
            Ok(path) => source_path_of(
                source@,
                script_path@,
                text_view(env.source_dir),
                text_view(env.source_file),
            ) == Ok::<_, SourceError>(path@),
            Err(e) => source_path_of(
                source@,
                script_path@,
                text_view(env.source_dir),
                text_view(env.source_file),
            ) == Err::<Seq<char>, _>(e),
        },
{
    match source {
        Source::Path(path) => Ok(path.clone()),
        Source::AutoEnv => {
            let dir = match &env.source_dir {
                Some(dir) => dir,
                None => {
                    return Err(SourceError::NoSourceDir);
                },
            };
            let file = match &env.source_file {
                Some(file) => file,
                None => {
                    return Err(SourceError::NoSourceFile);
                },
            };
            let script = join(dir.as_str(), file.as_str());
            resolve_relative_path(script.as_str())
        },
        Source::AutoPath => resolve_relative_path(script_path),
    }
}

} // verus!
