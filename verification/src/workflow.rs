//! Capturing a file: what state the tracked copy is in, and what is done
//! about it.
//!
//! The library touches neither files nor the tracking tool. It runs a
//! machine: each step takes what the world answered to the last action and
//! gives the next action. Whoever drives the machine performs the actions.

use crate::capture::{CaptureError, CaptureFault};
use crate::paths::{
    data_file_name, data_name, data_name_for, file_name, is_script_name, join, parent,
    path_file_name, path_join, path_parent, path_with_file_name, script_name_for, starts_with,
    with_file_name, DATA_SUFFIX, MANAGED_PREFIX, TEMPLATE_SUFFIX,
};
use crate::script::{shebang_path, template, template_text, ScriptStyle, Style};
use crate::version::{auto_source_version, older, spec_auto_source_version, ChezmoiVersion};
use vstd::prelude::*;
use vstd::slice::slice_to_vec;
use vstd::string::StringExecFns;
use vstd::string::StringSliceAdditionalSpecFns;
use vstd::utf8::encode_utf8;

verus! {

/// How a file is captured.
#[derive(Debug, Clone, Copy, PartialEq, Eq, Structural)]
pub enum Mode {
    /// Put the file under a directive script, making one if there is none.
    Normal,
    /// Leave a file without a script to the tracking tool alone.
    Smart,
}

/// The state of a file in the repository of the tracking tool.
#[derive(Debug, Clone, PartialEq, Eq)]
pub enum ChezmoiState {
    /// The tool does not know the file.
    NotTracked,
    /// The tool tracks the file as it is, at `data_path`.
    TrackedPlain { data_path: String },
    /// The tool tracks a directive script for the file, at `script_path`,
    /// which works on the data file at `data_path`.
    TrackedManaged { script_path: String, data_path: String },
}

/// A [`ChezmoiState`] as a mathematical value.
pub enum ChezmoiStateView {
    NotTracked,
    TrackedPlain { data_path: Seq<char> },
    TrackedManaged { script_path: Seq<char>, data_path: Seq<char> },
}

impl View for ChezmoiState {
    type V = ChezmoiStateView;

    open spec fn view(&self) -> ChezmoiStateView {
        match self {
            ChezmoiState::NotTracked => ChezmoiStateView::NotTracked,
            ChezmoiState::TrackedPlain { data_path } => ChezmoiStateView::TrackedPlain {
                data_path: data_path@,
            },
            ChezmoiState::TrackedManaged { script_path, data_path } => {
                ChezmoiStateView::TrackedManaged {
                    script_path: script_path@,
                    data_path: data_path@,
                }
            },
        }
    }
}

/// What is done about a file.
#[derive(Debug, Clone, PartialEq, Eq)]
pub enum Plan {
    /// Hand the file to the tracking tool; no script is made.
    PlainTrack,
    /// Hand the file to the tracking tool, turn what it stored into a data
    /// file, and make a script unless there is one. `known` is where the
    /// tool stored the file before, if it did.
    NewScript { known: Option<String> },
    /// Write the live file into the data file, through the filter of the
    /// script.
    Refilter { script_path: String, data_path: String },
}

/// A [`Plan`] as a mathematical value.
pub enum PlanView {
    PlainTrack,
    NewScript { known: Option<Seq<char>> },
    Refilter { script_path: Seq<char>, data_path: Seq<char> },
}

impl View for Plan {
    type V = PlanView;

    open spec fn view(&self) -> PlanView {
        match self {
            Plan::PlainTrack => PlanView::PlainTrack,
            Plan::NewScript { known } => PlanView::NewScript {
                known: match known {
                    Some(path) => Some(path@),
                    None => None,
                },
            },
            Plan::Refilter { script_path, data_path } => PlanView::Refilter {
                script_path: script_path@,
                data_path: data_path@,
            },
        }
    }
}

/// Why a file was not captured.
#[derive(Debug, Clone, PartialEq, Eq)]
pub enum AddError {
    /// The path is no regular file.
    NotRegularFile(String),
    /// A plain script was asked for, and the tracking tool is too old for
    /// `source auto`.
    StyleNeedsNewerChezmoi,
    /// A hook script of the old kind lies in the repository. The old way of
    /// filtering and this one must not both run.
    LegacyHook,
    /// The tracked path has no file name.
    NoFileName(String),
    /// The tracked path has no directory.
    NoDirectory(String),
    /// There is a script, but no data file where it should be.
    MissingDataFile(String),
    /// The tracking tool took the file and then did not know it.
    AddedFileNotFound,
    /// The file could not be filtered.
    Capture(CaptureError),
    /// An action failed; in the words of whoever performed it.
    External(String),
    /// The answer does not fit the action that was asked for.
    Protocol,
}

/// An [`AddError`] as a mathematical value.
pub enum AddFault {
    NotRegularFile(Seq<char>),
    StyleNeedsNewerChezmoi,
    LegacyHook,
    NoFileName(Seq<char>),
    NoDirectory(Seq<char>),
    MissingDataFile(Seq<char>),
    AddedFileNotFound,
    Capture(CaptureFault),
    External(Seq<char>),
    Protocol,
}

impl View for AddError {
    type V = AddFault;

    open spec fn view(&self) -> AddFault {
        match self {
            AddError::NotRegularFile(path) => AddFault::NotRegularFile(path@),
            AddError::StyleNeedsNewerChezmoi => AddFault::StyleNeedsNewerChezmoi,
            AddError::LegacyHook => AddFault::LegacyHook,
            AddError::NoFileName(path) => AddFault::NoFileName(path@),
            AddError::NoDirectory(path) => AddFault::NoDirectory(path@),
            AddError::MissingDataFile(path) => AddFault::MissingDataFile(path@),
            AddError::AddedFileNotFound => AddFault::AddedFileNotFound,
            AddError::Capture(e) => AddFault::Capture(e@),
            AddError::External(text) => AddFault::External(text@),
            AddError::Protocol => AddFault::Protocol,
        }
    }
}

/// What the table of capturing says: a file with a script is always written
/// through the script's filter, whatever the mode; a file without one goes
/// to the tracking tool alone in smart mode, and gets a script in normal
/// mode.
pub open spec fn plan_of(state: ChezmoiStateView, mode: Mode) -> PlanView {
    match state {
        ChezmoiStateView::TrackedManaged { script_path, data_path } => PlanView::Refilter {
            script_path,
            data_path,
        },
        ChezmoiStateView::NotTracked => match mode {
            Mode::Smart => PlanView::PlainTrack,
            Mode::Normal => PlanView::NewScript { known: None },
        },
        ChezmoiStateView::TrackedPlain { data_path } => match mode {
            Mode::Smart => PlanView::PlainTrack,
            Mode::Normal => PlanView::NewScript { known: Some(data_path) },
        },
    }
}

/// What is done about a file in the given state, in the given mode.
pub fn plan(state: ChezmoiState, mode: Mode) -> (r: Plan)
    ensures
        r@ == plan_of(state@, mode),
{
    match state {
        ChezmoiState::TrackedManaged { script_path, data_path } => Plan::Refilter {
            script_path,
            data_path,
        },
        ChezmoiState::NotTracked => match mode {
            Mode::Smart => Plan::PlainTrack,
            Mode::Normal => Plan::NewScript { known: None },
        },
        ChezmoiState::TrackedPlain { data_path } => match mode {
            Mode::Smart => Plan::PlainTrack,
            Mode::Normal => Plan::NewScript { known: Some(data_path) },
        },
    }
}

/// The state that the tracked path of a file shows, before anything was
/// looked up on disk: no path, no tracking; a path whose file name starts
/// with `modify_` is a script, and its data file is the one of the name that
/// the script's name gives, in the same directory; any other path is the
/// file itself.
pub open spec fn state_of(src_path: Option<Seq<char>>) -> Result<ChezmoiStateView, AddFault> {
    match src_path {
        None => Ok(ChezmoiStateView::NotTracked),
        Some(path) => match path_file_name(path) {
            None => Err(AddFault::NoFileName(path)),
            Some(name) => if starts_with(name, MANAGED_PREFIX@) {
                match path_parent(path) {
                    None => Err(AddFault::NoDirectory(path)),
                    Some(dir) => Ok(
                        ChezmoiStateView::TrackedManaged {
                            script_path: path,
                            data_path: path_join(dir, data_name(name)),
                        },
                    ),
                }
            } else {
                Ok(ChezmoiStateView::TrackedPlain { data_path: path })
            },
        },
    }
}

/// Finds the state that the tracked path of a file shows. Whether the data
/// file of a script is there is for the caller to look up.
pub fn classify_chezmoi_state(src_path: Option<String>) -> (r: Result<ChezmoiState, AddError>)
    ensures
        match r {
            Ok(state) => state_of(
                match src_path {
                    Some(p) => Some(p@),
                    None => None,
                },
            ) == Ok::<_, AddFault>(state@),
            Err(e) => state_of(
                match src_path {
                    Some(p) => Some(p@),
                    None => None,
                },
            ) matches Err(fault) && fault == e@,
        },
{
    let path = match src_path {
        Some(path) => path,
        None => {
            return Ok(ChezmoiState::NotTracked);
        },
    };
    let name = match file_name(path.as_str()) {
        Some(name) => name,
        None => {
            return Err(AddError::NoFileName(path));
        },
    };
    if is_script_name(name.as_str()) {
        let dir = match parent(path.as_str()) {
            Some(dir) => dir,
            None => {
                return Err(AddError::NoDirectory(path));
            },
        };
        let data = data_file_name(name.as_str());
        let data_path = join(dir.as_str(), data.as_str());
        Ok(ChezmoiState::TrackedManaged { script_path: path, data_path })
    } else {
        Ok(ChezmoiState::TrackedPlain { data_path: path })
    }
}

/// Whether a plain script is asked of a tracking tool that is known to be too
/// old for `source auto`.
pub open spec fn too_old(style: Style, version: Option<ChezmoiVersion>) -> bool {
    style == Style::InPath && version is Some && older(version->0, spec_auto_source_version())
}

/// What the checks before capturing say, as far as the facts are known: the
/// path must be a regular file, a plain script needs a tracking tool that
/// knows `source auto`, and no hook script of the old kind may lie in the
/// repository. The version of the tool matters to a plain script only, and
/// need not be known for any other style.
pub open spec fn sanity(
    path: Seq<char>,
    is_file: bool,
    style: Style,
    version: Option<ChezmoiVersion>,
    hooks: int,
) -> Result<(), AddFault> {
    if !is_file {
        Err(AddFault::NotRegularFile(path))
    } else if too_old(style, version) {
        Err(AddFault::StyleNeedsNewerChezmoi)
    } else if hooks > 0 {
        Err(AddFault::LegacyHook)
    } else {
        Ok(())
    }
}

/// Checks file and environment before anything is touched.
pub fn sanity_check(
    path: &str,
    is_file: bool,
    style: Style,
    version: Option<ChezmoiVersion>,
    hooks: usize,
) -> (r: Result<(), AddError>)
    ensures
        match r {
            Ok(_) => sanity(path@, is_file, style, version, hooks as int) == Ok::<_, AddFault>(()),
            Err(e) => sanity(path@, is_file, style, version, hooks as int) matches Err(fault)
                && fault == e@,
        },
{
    let old = match version {
        Some(v) => style == Style::InPath && v.older_than(&auto_source_version()),
        None => false,
    };
    if !is_file {
        Err(AddError::NotRegularFile(String::from_str(path)))
    } else if old {
        Err(AddError::StyleNeedsNewerChezmoi)
    } else if hooks > 0 {
        Err(AddError::LegacyHook)
    } else {
        Ok(())
    }
}

/// Whether a script of the given style is a template.
pub open spec fn is_template(style: ScriptStyle) -> bool {
    !(style == ScriptStyle::InPath)
}

/// Where data file and script of a newly captured file go, given where the
/// tracking tool stored the file: both beside it, the data file under the
/// file's name with `.src.ini` after it, the script under the file's name
/// with `modify_` before it, and `.tmpl` after it where it is a template.
pub open spec fn new_paths(src_path: Seq<char>, style: ScriptStyle) -> Result<
    (Seq<char>, Seq<char>),
    AddFault,
> {
    match path_file_name(src_path) {
        None => Err(AddFault::NoFileName(src_path)),
        Some(name) => Ok(
            (
                path_with_file_name(src_path, data_name_for(name)),
                path_with_file_name(src_path, script_name_for(name, is_template(style))),
            ),
        ),
    }
}

/// The name of the data file that is kept for the tracked file of the given
/// name.
pub fn data_file_name_for(tracked_name: &str) -> (name: String)
    ensures
        name@ == data_name_for(tracked_name@),
{
    let mut name = String::from_str(tracked_name);
    name.append(DATA_SUFFIX);
    name
}

/// The name of the script that is kept for the tracked file of the given
/// name.
pub fn script_file_name_for(tracked_name: &str, style: ScriptStyle) -> (name: String)
    ensures
        name@ == script_name_for(tracked_name@, is_template(style)),
{
    let mut name = String::from_str(MANAGED_PREFIX);
    name.append(tracked_name);
    match style {
        ScriptStyle::InPath => {},
        _ => {
            name.append(TEMPLATE_SUFFIX);
        },
    }
    name
}

/// Where data file and script of a newly captured file go: the pair of data
/// path and script path.
pub fn script_paths(src_path: &str, style: ScriptStyle) -> (r: Result<(String, String), AddError>)
    ensures
        match r {
            Ok((data_path, script_path)) => new_paths(src_path@, style) == Ok::<_, AddFault>(
                (data_path@, script_path@),
            ),
            Err(e) => new_paths(src_path@, style) matches Err(fault) && fault == e@,
        },
{
    let name = match file_name(src_path) {
        Some(name) => name,
        None => {
            return Err(AddError::NoFileName(String::from_str(src_path)));
        },
    };
    let data_name = data_file_name_for(name.as_str());
    let script_name = script_file_name_for(name.as_str(), style);
    Ok(
        (
            with_file_name(src_path, data_name.as_str()),
            with_file_name(src_path, script_name.as_str()),
        ),
    )
}

/// The bytes of a new script of the given style.
pub open spec fn script_bytes(style: ScriptStyle, version: ChezmoiVersion) -> Seq<u8> {
    encode_utf8(template_text(shebang_path(style), version))
}

/// The bytes of a new script, unless there is a script already: one that is
/// there is never written over.
pub fn maybe_create_script(exists: bool, style: ScriptStyle, version: &ChezmoiVersion) -> (r:
    Option<Vec<u8>>)
    ensures
        match r {
            Some(bytes) => !exists && bytes@ == script_bytes(style, *version),
            None => exists,
        },
{
    if exists {
        None
    } else {
        let text = template(style.shebang(), version);
        Some(slice_to_vec(text.as_str().as_bytes()))
    }
}

} // verus!
