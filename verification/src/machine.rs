//! The machine that captures one file.
//!
//! A run starts with [`Event::Begin`] and ends with [`Action::Finish`] or
//! [`Action::Fail`]. In between, the driver performs each action that a step
//! gives and answers with the matching event: a flag for a question, the path
//! for a lookup, the bytes or the text for a read, [`Event::Done`] for a
//! change, and [`Event::Failed`] where the action could not be performed.
//!
//! The version of the tracking tool is asked for where it is first needed,
//! and then kept: at once where the style is `Auto`, after the path was found
//! to be a file where a plain script is asked for, and before a new script is
//! made. A file that has a script is captured without it.

use crate::capture::{prepare_data, prepared, with_final_newline, ensure_final_newline, LINE_FEED};
use crate::script::{resolved_style, settled_style, style_of, Style};
use crate::version::ChezmoiVersion;
use crate::workflow::{
    classify_chezmoi_state, maybe_create_script, new_paths, plan, plan_of, sanity, sanity_check,
    script_bytes, script_paths, state_of, AddError, AddFault, ChezmoiState, ChezmoiStateView,
    Mode, Plan, PlanView,
};
use vstd::prelude::*;
use vstd::string::StringExecFns;

verus! {

/// How far a run has come: which answer the machine waits for.
#[derive(Debug, Clone, Copy, PartialEq, Eq, Structural)]
pub enum Phase {
    /// Nothing was asked yet.
    Start,
    /// The version of the tracking tool, to decide what `Auto` means.
    AskingVersion,
    /// Whether the path is a regular file.
    CheckingFile,
    /// The version of the tracking tool, to see whether it knows
    /// `source auto`.
    CheckingVersion,
    /// How many hook scripts of the old kind there are.
    CheckingHooks,
    /// Where the tracking tool keeps the file.
    Locating,
    /// Whether the data file of the script is there.
    CheckingData,
    /// That the tracking tool took the file, which ends the run.
    TrackingPlain,
    /// That the tracking tool took the file, which is then given a script.
    Tracking,
    /// Where the tracking tool put the file that it just took.
    LocatingAdded,
    /// The bytes of what the tracking tool stored.
    ReadingAdded,
    /// That the data file was written.
    WritingData,
    /// That what the tracking tool stored was removed.
    RemovingAdded,
    /// The version of the tracking tool, to write a script for it.
    AskingScriptVersion,
    /// Whether the script is there.
    CheckingScript,
    /// That the script was written.
    WritingScript,
    /// The bytes of the live file.
    ReadingLive,
    /// The text of the script.
    ReadingScript,
    /// That the filtered data file was written.
    WritingFiltered,
    /// The run is over.
    Finished,
}

/// What the world answered.
#[derive(Debug, Clone, PartialEq, Eq)]
pub enum Event {
    /// Nothing yet: the run starts.
    Begin,
    /// The answer to a question.
    Flag(bool),
    /// The number of things found.
    Count(usize),
    /// The version of the tracking tool.
    Version(ChezmoiVersion),
    /// The tracked path of a file, if it has one.
    Path(Option<String>),
    /// The bytes of a file.
    Bytes(Vec<u8>),
    /// The text of a file.
    Text(String),
    /// The change was made.
    Done,
    /// The action could not be performed.
    Failed(String),
}

/// An [`Event`] as a mathematical value.
pub enum EventView {
    Begin,
    Flag(bool),
    Count(int),
    Version(ChezmoiVersion),
    Path(Option<Seq<char>>),
    Bytes(Seq<u8>),
    Text(Seq<char>),
    Done,
    Failed(Seq<char>),
}

impl View for Event {
    type V = EventView;

    open spec fn view(&self) -> EventView {
        match self {
            Event::Begin => EventView::Begin,
            Event::Flag(b) => EventView::Flag(*b),
            Event::Count(n) => EventView::Count(*n as int),
            Event::Version(v) => EventView::Version(*v),
            Event::Path(path) => EventView::Path(
                match path {
                    Some(p) => Some(p@),
                    None => None,
                },
            ),
            Event::Bytes(bytes) => EventView::Bytes(bytes@),
            Event::Text(text) => EventView::Text(text@),
            Event::Done => EventView::Done,
            Event::Failed(text) => EventView::Failed(text@),
        }
    }
}

/// What the driver is to do next.
#[derive(Debug, Clone, PartialEq, Eq)]
pub enum Action {
    /// Ask the tracking tool for its version: answer with a version.
    Version,
    /// Say whether the path is a regular file: answer with a flag.
    IsFile(String),
    /// Count the hook scripts of the old kind in the repository: answer with
    /// a count. That the repository cannot be found is a failure.
    FindHooks,
    /// Ask the tracking tool for the tracked path of the file: answer with a
    /// path.
    SourcePath(String),
    /// Say whether the path exists: answer with a flag.
    Exists(String),
    /// Have the tracking tool take the file.
    Track(String),
    /// Read the file: answer with its bytes.
    Read(String),
    /// Read the file: answer with its text.
    ReadText(String),
    /// Write the bytes to the file.
    Write(String, Vec<u8>),
    /// Remove the file.
    Remove(String),
    /// Nothing: the file is captured.
    Finish,
    /// Nothing: the file is not captured, for this reason.
    Fail(AddError),
}

/// An [`Action`] as a mathematical value.
pub enum ActionView {
    Version,
    IsFile(Seq<char>),
    FindHooks,
    SourcePath(Seq<char>),
    Exists(Seq<char>),
    Track(Seq<char>),
    Read(Seq<char>),
    ReadText(Seq<char>),
    Write(Seq<char>, Seq<u8>),
    Remove(Seq<char>),
    Finish,
    Fail(AddFault),
}

impl View for Action {
    type V = ActionView;

    open spec fn view(&self) -> ActionView {
        match self {
            Action::Version => ActionView::Version,
            Action::IsFile(path) => ActionView::IsFile(path@),
            Action::FindHooks => ActionView::FindHooks,
            Action::SourcePath(path) => ActionView::SourcePath(path@),
            Action::Exists(path) => ActionView::Exists(path@),
            Action::Track(path) => ActionView::Track(path@),
            Action::Read(path) => ActionView::Read(path@),
            Action::ReadText(path) => ActionView::ReadText(path@),
            Action::Write(path, bytes) => ActionView::Write(path@, bytes@),
            Action::Remove(path) => ActionView::Remove(path@),
            Action::Finish => ActionView::Finish,
            Action::Fail(e) => ActionView::Fail(e@),
        }
    }
}

/// What the user is told along the way.
#[derive(Debug, Clone, PartialEq, Eq)]
pub enum Note {
    StateNew,
    StatePlain,
    StateManaged,
    ActionPlain,
    ActionNew,
    ActionConvert,
    ActionUpdate(String),
    Filtering,
    Writing,
    NewScript(String),
}

/// A [`Note`] as a mathematical value.
pub enum NoteView {
    StateNew,
    StatePlain,
    StateManaged,
    ActionPlain,
    ActionNew,
    ActionConvert,
    ActionUpdate(Seq<char>),
    Filtering,
    Writing,
    NewScript(Seq<char>),
}

impl View for Note {
    type V = NoteView;

    open spec fn view(&self) -> NoteView {
        match self {
            Note::StateNew => NoteView::StateNew,
            Note::StatePlain => NoteView::StatePlain,
            Note::StateManaged => NoteView::StateManaged,
            Note::ActionPlain => NoteView::ActionPlain,
            Note::ActionNew => NoteView::ActionNew,
            Note::ActionConvert => NoteView::ActionConvert,
            Note::ActionUpdate(path) => NoteView::ActionUpdate(path@),
            Note::Filtering => NoteView::Filtering,
            Note::Writing => NoteView::Writing,
            Note::NewScript(path) => NoteView::NewScript(path@),
        }
    }
}

/// The views of a list of notes, in order.
pub open spec fn note_views(notes: Seq<Note>) -> Seq<NoteView> {
    Seq::new(notes.len(), |i: int| notes[i]@)
}

/// The line that tells the user of a note.
pub open spec fn note_text(note: NoteView) -> Seq<char> {
    match note {
        NoteView::StateNew => "State: New (to chezmoi) file"@,
        NoteView::StatePlain => "State: Managed by chezmoi, but not a modify script."@,
        NoteView::StateManaged => "State: Managed by chezmoi and is a modify script."@,
        NoteView::ActionPlain => "Action: Adding as plain chezmoi (since we are in smart mode)."@,
        NoteView::ActionNew => "Action: Adding & setting up new modify_ script."@,
        NoteView::ActionConvert => "Action: Converting & setting up new modify_ script."@,
        NoteView::ActionUpdate(path) => "Action: Updating existing .src.ini file for "@ + path
            + "."@,
        NoteView::Filtering => "Has existing modify script, parsing to check for filtering..."@,
        NoteView::Writing => "Writing out file data"@,
        NoteView::NewScript(path) => "New script at "@ + path,
    }
}

impl Note {
    /// The line that tells the user of this note.
    pub fn text(&self) -> (line: String)
        ensures
            line@ == note_text(self@),
    {
        match self {
            Note::StateNew => String::from_str("State: New (to chezmoi) file"),
            Note::StatePlain => String::from_str(
                "State: Managed by chezmoi, but not a modify script.",
            ),
            Note::StateManaged => String::from_str(
                "State: Managed by chezmoi and is a modify script.",
            ),
            Note::ActionPlain => String::from_str(
                "Action: Adding as plain chezmoi (since we are in smart mode).",
            ),
            Note::ActionNew => String::from_str("Action: Adding & setting up new modify_ script."),
            Note::ActionConvert => String::from_str(
                "Action: Converting & setting up new modify_ script.",
            ),
            Note::ActionUpdate(path) => {
                let mut line = String::from_str("Action: Updating existing .src.ini file for ");
                line.append(path.as_str());
                line.append(".");
                line
            },
            Note::Filtering => String::from_str(
                "Has existing modify script, parsing to check for filtering...",
            ),
            Note::Writing => String::from_str("Writing out file data"),
            Note::NewScript(path) => {
                let mut line = String::from_str("New script at ");
                line.append(path.as_str());
                line
            },
        }
    }
}

/// The machine: what was asked for, and how far the run has come.
#[derive(Debug, Clone, PartialEq, Eq)]
pub struct AddMachine {
    /// The file to capture.
    pub path: String,
    pub mode: Mode,
    /// The style of a new script: as it was asked for, and with `Auto`
    /// decided once the version of the tracking tool is known.
    pub style: Style,
    /// The version of the tracking tool, once it was asked for.
    pub version: Option<ChezmoiVersion>,
    pub phase: Phase,
    /// Whether the tracked path was known before the tool took the file.
    pub located: bool,
    /// Where the tracking tool keeps the file, once that is known.
    pub src_path: String,
    /// The data file, once that is known.
    pub data_path: String,
    /// The script, once that is known.
    pub script_path: String,
    /// The bytes of the live file, once they were read.
    pub contents: Vec<u8>,
}

/// An [`AddMachine`] as a mathematical value.
pub struct MachineView {
    pub path: Seq<char>,
    pub mode: Mode,
    pub style: Style,
    pub version: Option<ChezmoiVersion>,
    pub phase: Phase,
    pub located: bool,
    pub src_path: Seq<char>,
    pub data_path: Seq<char>,
    pub script_path: Seq<char>,
    pub contents: Seq<u8>,
}

impl View for AddMachine {
    type V = MachineView;

    open spec fn view(&self) -> MachineView {
        MachineView {
            path: self.path@,
            mode: self.mode,
            style: self.style,
            version: self.version,
            phase: self.phase,
            located: self.located,
            src_path: self.src_path@,
            data_path: self.data_path@,
            script_path: self.script_path@,
            contents: self.contents@,
        }
    }
}

/// What a step gives: the machine after it, what to tell the user, and what
/// to do next.
#[derive(Debug, Clone, PartialEq, Eq)]
pub struct Step {
    pub machine: AddMachine,
    pub notes: Vec<Note>,
    pub action: Action,
}

/// A [`Step`] as a mathematical value.
pub struct StepView {
    pub machine: MachineView,
    pub notes: Seq<NoteView>,
    pub action: ActionView,
}

impl View for Step {
    type V = StepView;

    open spec fn view(&self) -> StepView {
        StepView { machine: self.machine@, notes: note_views(self.notes@), action: self.action@ }
    }
}

/// The machine at the start of a run.
pub open spec fn initial(path: Seq<char>, mode: Mode, style: Style) -> MachineView {
    MachineView {
        path,
        mode,
        style,
        version: None,
        phase: Phase::Start,
        located: false,
        src_path: Seq::empty(),
        data_path: Seq::empty(),
        script_path: Seq::empty(),
        contents: Seq::empty(),
    }
}

/// The step that ends the run with a failure.
pub open spec fn fail(m: MachineView, fault: AddFault) -> StepView {
    StepView {
        machine: MachineView { phase: Phase::Finished, ..m },
        notes: Seq::empty(),
        action: ActionView::Fail(fault),
    }
}

/// The step that ends the run with success, after telling `notes`.
pub open spec fn finish(m: MachineView, notes: Seq<NoteView>) -> StepView {
    StepView {
        machine: MachineView { phase: Phase::Finished, ..m },
        notes,
        action: ActionView::Finish,
    }
}

/// The step that asks for `action` and then waits in `phase`.
pub open spec fn ask(m: MachineView, phase: Phase, notes: Seq<NoteView>, action: ActionView) -> StepView {
    StepView { machine: MachineView { phase, ..m }, notes, action }
}

/// What the user is told of the state that was found.
pub open spec fn state_note(state: ChezmoiStateView) -> NoteView {
    match state {
        ChezmoiStateView::NotTracked => NoteView::StateNew,
        ChezmoiStateView::TrackedPlain { .. } => NoteView::StatePlain,
        ChezmoiStateView::TrackedManaged { .. } => NoteView::StateManaged,
    }
}

/// The step that follows once the state of the file is known: the user is
/// told state and plan, and the plan is set about.
pub open spec fn decide(m: MachineView, state: ChezmoiStateView) -> StepView {
    match plan_of(state, m.mode) {
        PlanView::PlainTrack => ask(
            m,
            Phase::TrackingPlain,
            seq![state_note(state), NoteView::ActionPlain],
            ActionView::Track(m.path),
        ),
        PlanView::NewScript { known: None } => ask(
            MachineView { located: false, ..m },
            Phase::Tracking,
            seq![state_note(state), NoteView::ActionNew],
            ActionView::Track(m.path),
        ),
        PlanView::NewScript { known: Some(src_path) } => ask(
            MachineView { located: true, src_path, ..m },
            Phase::Tracking,
            seq![state_note(state), NoteView::ActionConvert],
            ActionView::Track(m.path),
        ),
        PlanView::Refilter { script_path, data_path } => ask(
            MachineView { script_path, data_path, ..m },
            Phase::ReadingLive,
            seq![state_note(state), NoteView::ActionUpdate(script_path)],
            ActionView::Read(m.path),
        ),
    }
}

/// The step that follows once it is known where the tracking tool stored the
/// file that it took: the places of data file and script are worked out, and
/// what was stored is read.
pub open spec fn convert(m: MachineView, src_path: Seq<char>) -> StepView {
    match settled_style(m.style) {
        None => fail(m, AddFault::Protocol),
        Some(style) => match new_paths(src_path, style) {
            Err(fault) => fail(m, fault),
            Ok((data_path, script_path)) => ask(
                MachineView { src_path, data_path, script_path, ..m },
                Phase::ReadingAdded,
                Seq::empty(),
                ActionView::Read(src_path),
            ),
        },
    }
}

/// The machine once the tracking tool has told its version: the version is
/// kept, and `Auto` is decided by it.
pub open spec fn with_version(m: MachineView, version: ChezmoiVersion) -> MachineView {
    MachineView {
        style: style_of(resolved_style(m.style, version)),
        version: Some(version),
        ..m
    }
}

/// One step of the machine.
pub open spec fn next(m: MachineView, e: EventView) -> StepView {
    if let EventView::Failed(text) = e {
        fail(m, AddFault::External(text))
    } else {
        match (m.phase, e) {
            (Phase::Start, EventView::Begin) => if m.style == Style::Auto {
                ask(m, Phase::AskingVersion, Seq::empty(), ActionView::Version)
            } else {
                ask(m, Phase::CheckingFile, Seq::empty(), ActionView::IsFile(m.path))
            },
            (Phase::AskingVersion, EventView::Version(version)) => ask(
                with_version(m, version),
                Phase::CheckingFile,
                Seq::empty(),
                ActionView::IsFile(m.path),
            ),
            (Phase::CheckingFile, EventView::Flag(is_file)) => match sanity(
                m.path,
                is_file,
                m.style,
                m.version,
                0,
            ) {
                Err(fault) => fail(m, fault),
                Ok(_) => if m.style == Style::InPath && m.version is None {
                    ask(m, Phase::CheckingVersion, Seq::empty(), ActionView::Version)
                } else {
                    ask(m, Phase::CheckingHooks, Seq::empty(), ActionView::FindHooks)
                },
            },
            (Phase::CheckingVersion, EventView::Version(version)) => match sanity(
                m.path,
                true,
                m.style,
                Some(version),
                0,
            ) {
                Err(fault) => fail(with_version(m, version), fault),
                Ok(_) => ask(
                    with_version(m, version),
                    Phase::CheckingHooks,
                    Seq::empty(),
                    ActionView::FindHooks,
                ),
            },
            (Phase::CheckingHooks, EventView::Count(hooks)) => match sanity(
                m.path,
                true,
                m.style,
                m.version,
                hooks,
            ) {
                Err(fault) => fail(m, fault),
                Ok(_) => ask(m, Phase::Locating, Seq::empty(), ActionView::SourcePath(m.path)),
            },
            (Phase::Locating, EventView::Path(src_path)) => match state_of(src_path) {
                Err(fault) => fail(m, fault),
                Ok(ChezmoiStateView::TrackedManaged { script_path, data_path }) => ask(
                    MachineView { script_path, data_path, ..m },
                    Phase::CheckingData,
                    Seq::empty(),
                    ActionView::Exists(data_path),
                ),
                Ok(state) => decide(m, state),
            },
            (Phase::CheckingData, EventView::Flag(exists)) => if exists {
                decide(
                    m,
                    ChezmoiStateView::TrackedManaged {
                        script_path: m.script_path,
                        data_path: m.data_path,
                    },
                )
            } else {
                fail(m, AddFault::MissingDataFile(m.data_path))
            },
            (Phase::TrackingPlain, EventView::Done) => finish(m, Seq::empty()),
            (Phase::Tracking, EventView::Done) => if m.located {
                convert(m, m.src_path)
            } else {
                ask(m, Phase::LocatingAdded, Seq::empty(), ActionView::SourcePath(m.path))
            },
            (Phase::LocatingAdded, EventView::Path(src_path)) => match src_path {
                None => fail(m, AddFault::AddedFileNotFound),
                Some(path) => convert(m, path),
            },
            (Phase::ReadingAdded, EventView::Bytes(bytes)) => ask(
                m,
                Phase::WritingData,
                seq![NoteView::Writing],
                ActionView::Write(m.data_path, with_final_newline(bytes)),
            ),
            (Phase::WritingData, EventView::Done) => ask(
                m,
                Phase::RemovingAdded,
                Seq::empty(),
                ActionView::Remove(m.src_path),
            ),
            (Phase::RemovingAdded, EventView::Done) => if m.version is None {
                ask(m, Phase::AskingScriptVersion, Seq::empty(), ActionView::Version)
            } else {
                ask(m, Phase::CheckingScript, Seq::empty(), ActionView::Exists(m.script_path))
            },
            (Phase::AskingScriptVersion, EventView::Version(version)) => ask(
                with_version(m, version),
                Phase::CheckingScript,
                Seq::empty(),
                ActionView::Exists(m.script_path),
            ),
            (Phase::CheckingScript, EventView::Flag(exists)) => if exists {
                finish(m, Seq::empty())
            } else if settled_style(m.style) is Some && m.version is Some {
                ask(
                    m,
                    Phase::WritingScript,
                    Seq::empty(),
                    ActionView::Write(
                        m.script_path,
                        script_bytes(settled_style(m.style)->0, m.version->0),
                    ),
                )
            } else {
                fail(m, AddFault::Protocol)
            },
            (Phase::WritingScript, EventView::Done) => finish(
                m,
                seq![NoteView::NewScript(m.script_path)],
            ),
            (Phase::ReadingLive, EventView::Bytes(bytes)) => ask(
                MachineView { contents: bytes, ..m },
                Phase::ReadingScript,
                seq![NoteView::Filtering],
                ActionView::ReadText(m.script_path),
            ),
            (Phase::ReadingScript, EventView::Text(text)) => match prepared(
                Some(text),
                m.contents,
            ) {
                Err(fault) => fail(m, AddFault::Capture(fault)),
                Ok(bytes) => ask(
                    m,
                    Phase::WritingFiltered,
                    seq![NoteView::Writing],
                    ActionView::Write(m.data_path, bytes),
                ),
            },
            (Phase::WritingFiltered, EventView::Done) => finish(m, Seq::empty()),
            _ => fail(m, AddFault::Protocol),
        }
    }
}

/// Whether an action changes anything in the world.
pub open spec fn changes(action: ActionView) -> bool {
    action is Track || action is Write || action is Remove
}

/// Nothing is touched before the checks have passed.
///
/// Up to the answer on hook scripts no step asks for a change. A step only
/// goes on to count the hook scripts where the path is a regular file and the
/// style suits the version of the tracking tool, which is known by then
/// where a plain script is asked for; and it only goes on to locate the file
/// where no hook script of the old kind was found. Every other answer ends
/// the run.
pub proof fn lemma_checks_come_first(m: MachineView, e: EventView)
    requires
        m.phase == Phase::Start || m.phase == Phase::AskingVersion || m.phase
            == Phase::CheckingFile || m.phase == Phase::CheckingVersion || m.phase
            == Phase::CheckingHooks,
    ensures
        !changes(next(m, e).action),
        next(m, e).machine.phase == Phase::AskingVersion || next(m, e).machine.phase
            == Phase::CheckingFile || next(m, e).machine.phase == Phase::CheckingVersion || next(
            m,
            e,
        ).machine.phase == Phase::CheckingHooks || next(m, e).machine.phase == Phase::Locating
            || next(m, e).machine.phase == Phase::Finished,
        next(m, e).machine.phase == Phase::CheckingHooks ==> sanity(
            m.path,
            true,
            next(m, e).machine.style,
            next(m, e).machine.version,
            0,
        ) is Ok && (next(m, e).machine.style == Style::InPath ==> next(m, e).machine.version
            is Some),
        next(m, e).machine.phase == Phase::Locating ==> (e matches EventView::Count(hooks)
            && hooks <= 0),
        next(m, e).machine.phase == Phase::Finished ==> next(m, e).action is Fail,
{
}

/// The tracking tool is asked for its version only where the version is
/// needed and not known: at the start where the style is `Auto`, after the
/// path was found to be a file where a plain script is asked for, and before
/// a new script is made. A run that writes a file through its script, or
/// hands it to the tracking tool alone, never asks for it after the checks.
pub proof fn lemma_version_is_asked_where_needed(m: MachineView, e: EventView)
    requires
        next(m, e).action is Version,
    ensures
        m.version is None || m.phase == Phase::Start,
        (m.phase == Phase::Start && m.style == Style::Auto) || (m.phase == Phase::CheckingFile
            && m.style == Style::InPath) || m.phase == Phase::RemovingAdded,
{
}

/// A script is written only where there is none, and what is written is the
/// template; every other write is a data file that ends in a line feed.
pub proof fn lemma_writes(m: MachineView, e: EventView)
    requires
        next(m, e).action is Write,
    ensures
        ({
            let target = next(m, e).action->Write_0;
            let bytes = next(m, e).action->Write_1;
            if m.phase == Phase::CheckingScript {
                e == EventView::Flag(false) && target == m.script_path && settled_style(m.style)
                    is Some && m.version is Some && bytes == script_bytes(
                    settled_style(m.style)->0,
                    m.version->0,
                )
            } else {
                target == m.data_path && bytes.len() > 0 && bytes.last() == LINE_FEED
            }
        }),
{
    if m.phase == Phase::ReadingScript {
        if let EventView::Text(text) = e {
            crate::capture::lemma_final_newline(
                crate::capture::filtered(text, m.contents)->Ok_0,
            );
        }
    }
    if m.phase == Phase::ReadingAdded {
        if let EventView::Bytes(bytes) = e {
            crate::capture::lemma_final_newline(bytes);
        }
    }
}

/// Once a file has a script, the mode does not matter: two machines that
/// differ in nothing but the mode take the same step on the answer that the
/// data file is there.
pub proof fn lemma_managed_ignores_mode(m: MachineView, other: Mode, e: EventView)
    requires
        m.phase == Phase::CheckingData,
    ensures
        next(MachineView { mode: other, ..m }, e).action == next(m, e).action,
        next(MachineView { mode: other, ..m }, e).notes == next(m, e).notes,
        next(MachineView { mode: other, ..m }, e).machine.phase == next(m, e).machine.phase,
{
}

/// How far a phase is from the start of a run.
pub open spec fn rank(phase: Phase) -> nat {
    match phase {
        Phase::Start => 0,
        Phase::AskingVersion => 1,
        Phase::CheckingFile => 2,
        Phase::CheckingVersion => 3,
        Phase::CheckingHooks => 4,
        Phase::Locating => 5,
        Phase::CheckingData => 6,
        Phase::TrackingPlain => 7,
        Phase::Tracking => 7,
        Phase::ReadingLive => 7,
        Phase::LocatingAdded => 8,
        Phase::ReadingScript => 8,
        Phase::ReadingAdded => 9,
        Phase::WritingFiltered => 9,
        Phase::WritingData => 10,
        Phase::RemovingAdded => 11,
        Phase::AskingScriptVersion => 12,
        Phase::CheckingScript => 13,
        Phase::WritingScript => 14,
        Phase::Finished => 15,
    }
}

/// Every run comes to an end, and passes through no phase twice.
///
/// A step from a phase other than the last leads to a phase that is further
/// from the start, and a step ends the run exactly when it gives no action to
/// perform. So a run takes fifteen steps at most, and asks at most once
/// whether the script is there.
pub proof fn lemma_every_step_advances(m: MachineView, e: EventView)
    ensures
        m.phase != Phase::Finished ==> rank(next(m, e).machine.phase) > rank(m.phase),
        m.phase == Phase::Finished ==> next(m, e).machine.phase == Phase::Finished,
        next(m, e).machine.phase == Phase::Finished <==> (next(m, e).action is Finish || next(
            m,
            e,
        ).action is Fail),
        next(m, e).machine.path == m.path,
        next(m, e).machine.mode == m.mode,
        m.version is Some && !(e is Version) ==> next(m, e).machine.version == m.version,
{
    if m.phase == Phase::Locating || m.phase == Phase::CheckingData {
        if let EventView::Path(src_path) = e {
            if let Ok(state) = state_of(src_path) {
                lemma_decide_advances(m, state);
            }
        }
        lemma_decide_advances(
            m,
            ChezmoiStateView::TrackedManaged { script_path: m.script_path, data_path: m.data_path },
        );
    } else if m.phase == Phase::Tracking || m.phase == Phase::LocatingAdded {
        lemma_convert_advances(m, m.src_path);
        if let EventView::Path(Some(path)) = e {
            lemma_convert_advances(m, path);
        }
    }
}

proof fn lemma_decide_advances(m: MachineView, state: ChezmoiStateView)
    ensures
        rank(decide(m, state).machine.phase) == 7,
        changes(decide(m, state).action) || decide(m, state).action is Read,
        decide(m, state).machine.path == m.path,
        decide(m, state).machine.mode == m.mode,
        decide(m, state).machine.version == m.version,
{
}

proof fn lemma_convert_advances(m: MachineView, src_path: Seq<char>)
    ensures
        convert(m, src_path).machine.phase == Phase::ReadingAdded || convert(
            m,
            src_path,
        ).machine.phase == Phase::Finished,
        convert(m, src_path).machine.phase == Phase::Finished <==> convert(m, src_path).action
            is Fail,
        convert(m, src_path).machine.phase == Phase::ReadingAdded <==> convert(m, src_path).action
            is Read,
        convert(m, src_path).machine.path == m.path,
        convert(m, src_path).machine.mode == m.mode,
        convert(m, src_path).machine.version == m.version,
{
}

fn state_note_of(state: &ChezmoiState) -> (note: Note)
    ensures
        note@ == state_note(state@),
{
    match state {
        ChezmoiState::NotTracked => Note::StateNew,
        ChezmoiState::TrackedPlain { .. } => Note::StatePlain,
        ChezmoiState::TrackedManaged { .. } => Note::StateManaged,
    }
}

fn no_notes() -> (notes: Vec<Note>)
    ensures
        note_views(notes@) == Seq::<NoteView>::empty(),
{
    let notes: Vec<Note> = Vec::new();
    assert(note_views(notes@) =~= Seq::<NoteView>::empty());
    notes
}

fn one_note(note: Note) -> (notes: Vec<Note>)
    ensures
        note_views(notes@) == seq![note@],
{
    let mut notes: Vec<Note> = Vec::new();
    notes.push(note);
    assert(note_views(notes@) =~= seq![note@]);
    notes
}

fn two_notes(first: Note, second: Note) -> (notes: Vec<Note>)
    ensures
        note_views(notes@) == seq![first@, second@],
{
    let mut notes: Vec<Note> = Vec::new();
    notes.push(first);
    notes.push(second);
    assert(note_views(notes@) =~= seq![first@, second@]);
    notes
}

impl AddMachine {
    /// The machine for capturing the file at `path`, at the start of its
    /// run.
    pub fn new(path: String, mode: Mode, style: Style) -> (m: AddMachine)
        ensures
            m@ == initial(path@, mode, style),
    {
        AddMachine {
            path,
            mode,
            style,
            version: None,
            phase: Phase::Start,
            located: false,
            src_path: String::new(),
            data_path: String::new(),
            script_path: String::new(),
            contents: Vec::new(),
        }
    }

    /// Whether the run is over.
    pub fn is_finished(&self) -> (r: bool)
        ensures
            r == (self@.phase == Phase::Finished),
    {
        self.phase == Phase::Finished
    }

    fn fail(self, error: AddError) -> (s: Step)
        ensures
            s@ == fail(self@, error@),
    {
        Step {
            machine: AddMachine { phase: Phase::Finished, ..self },
            notes: no_notes(),
            action: Action::Fail(error),
        }
    }

    fn finish(self, notes: Vec<Note>) -> (s: Step)
        ensures
            s@ == finish(self@, note_views(notes@)),
    {
        Step { machine: AddMachine { phase: Phase::Finished, ..self }, notes, action: Action::Finish }
    }

    fn ask(self, phase: Phase, notes: Vec<Note>, action: Action) -> (s: Step)
        ensures
            s@ == ask(self@, phase, note_views(notes@), action@),
    {
        Step { machine: AddMachine { phase, ..self }, notes, action }
    }

    fn decide(self, state: ChezmoiState) -> (s: Step)
        ensures
            s@ == decide(self@, state@),
    {
        let told = state_note_of(&state);
        let path = self.path.clone();
        match plan(state, self.mode) {
            Plan::PlainTrack => self.ask(
                Phase::TrackingPlain,
                two_notes(told, Note::ActionPlain),
                Action::Track(path),
            ),
            Plan::NewScript { known: None } => {
                let m = AddMachine { located: false, ..self };
                m.ask(Phase::Tracking, two_notes(told, Note::ActionNew), Action::Track(path))
            },
            Plan::NewScript { known: Some(src_path) } => {
                let m = AddMachine { located: true, src_path, ..self };
                m.ask(Phase::Tracking, two_notes(told, Note::ActionConvert), Action::Track(path))
            },
            Plan::Refilter { script_path, data_path } => {
                let notes = two_notes(told, Note::ActionUpdate(script_path.clone()));
                let m = AddMachine { script_path, data_path, ..self };
                m.ask(Phase::ReadingLive, notes, Action::Read(path))
            },
        }
    }

    fn convert(self, src_path: String) -> (s: Step)
        ensures
            s@ == convert(self@, src_path@),
    {
        let style = match self.style.settled() {
            Some(style) => style,
            None => {
                return self.fail(AddError::Protocol);
            },
        };
        match script_paths(src_path.as_str(), style) {
            Err(e) => self.fail(e),
            Ok((data_path, script_path)) => {
                let action = Action::Read(src_path.clone());
                let m = AddMachine { src_path, data_path, script_path, ..self };
                m.ask(Phase::ReadingAdded, no_notes(), action)
            },
        }
    }

    fn with_version(self, version: ChezmoiVersion) -> (m: AddMachine)
        ensures
            m@ == with_version(self@, version),
    {
        let style = self.style.resolve(&version).as_style();
        AddMachine { style, version: Some(version), ..self }
    }

    /// Takes one step: given what the world answered to the last action,
    /// says what to do next.
    pub fn step(self, event: Event) -> (s: Step)
        ensures
            s@ == next(self@, event@),
    {
        let phase = self.phase;
        match (phase, event) {
            (_, Event::Failed(text)) => self.fail(AddError::External(text)),
            (Phase::Start, Event::Begin) => {
                match self.style {
                    Style::Auto => self.ask(Phase::AskingVersion, no_notes(), Action::Version),
                    _ => {
                        let action = Action::IsFile(self.path.clone());
                        self.ask(Phase::CheckingFile, no_notes(), action)
                    },
                }
            },
            (Phase::AskingVersion, Event::Version(version)) => {
                let action = Action::IsFile(self.path.clone());
                self.with_version(version).ask(Phase::CheckingFile, no_notes(), action)
            },
            (Phase::CheckingFile, Event::Flag(is_file)) => {
                match sanity_check(self.path.as_str(), is_file, self.style, self.version, 0) {
                    Err(e) => self.fail(e),
                    Ok(_) => {
                        if self.style == Style::InPath && self.version.is_none() {
                            self.ask(Phase::CheckingVersion, no_notes(), Action::Version)
                        } else {
                            self.ask(Phase::CheckingHooks, no_notes(), Action::FindHooks)
                        }
                    },
                }
            },
            (Phase::CheckingVersion, Event::Version(version)) => {
                match sanity_check(self.path.as_str(), true, self.style, Some(version), 0) {
                    Err(e) => self.with_version(version).fail(e),
                    Ok(_) => self.with_version(version).ask(
                        Phase::CheckingHooks,
                        no_notes(),
                        Action::FindHooks,
                    ),
                }
            },
            (Phase::CheckingHooks, Event::Count(hooks)) => {
                match sanity_check(self.path.as_str(), true, self.style, self.version, hooks) {
                    Err(e) => self.fail(e),
                    Ok(_) => {
                        let action = Action::SourcePath(self.path.clone());
                        self.ask(Phase::Locating, no_notes(), action)
                    },
                }
            },
            (Phase::Locating, Event::Path(src_path)) => {
                match classify_chezmoi_state(src_path) {
                    Err(e) => self.fail(e),
                    Ok(ChezmoiState::TrackedManaged { script_path, data_path }) => {
                        let action = Action::Exists(data_path.clone());
                        let m = AddMachine { script_path, data_path, ..self };
                        m.ask(Phase::CheckingData, no_notes(), action)
                    },
                    Ok(state) => self.decide(state),
                }
            },
            (Phase::CheckingData, Event::Flag(exists)) => {
                if exists {
                    let state = ChezmoiState::TrackedManaged {
                        script_path: self.script_path.clone(),
                        data_path: self.data_path.clone(),
                    };
                    self.decide(state)
                } else {
                    let error = AddError::MissingDataFile(self.data_path.clone());
                    self.fail(error)
                }
            },
            (Phase::TrackingPlain, Event::Done) => self.finish(no_notes()),
            (Phase::Tracking, Event::Done) => {
                if self.located {
                    let src_path = self.src_path.clone();
                    self.convert(src_path)
                } else {
                    let action = Action::SourcePath(self.path.clone());
                    self.ask(Phase::LocatingAdded, no_notes(), action)
                }
            },
            (Phase::LocatingAdded, Event::Path(src_path)) => {
                match src_path {
                    None => self.fail(AddError::AddedFileNotFound),
                    Some(path) => self.convert(path),
                }
            },
            (Phase::ReadingAdded, Event::Bytes(bytes)) => {
                let action = Action::Write(self.data_path.clone(), ensure_final_newline(bytes));
                self.ask(Phase::WritingData, one_note(Note::Writing), action)
            },
            (Phase::WritingData, Event::Done) => {
                let action = Action::Remove(self.src_path.clone());
                self.ask(Phase::RemovingAdded, no_notes(), action)
            },
            (Phase::RemovingAdded, Event::Done) => {
                if self.version.is_none() {
                    self.ask(Phase::AskingScriptVersion, no_notes(), Action::Version)
                } else {
                    let action = Action::Exists(self.script_path.clone());
                    self.ask(Phase::CheckingScript, no_notes(), action)
                }
            },
            (Phase::AskingScriptVersion, Event::Version(version)) => {
                let action = Action::Exists(self.script_path.clone());
                self.with_version(version).ask(Phase::CheckingScript, no_notes(), action)
            },
            (Phase::CheckingScript, Event::Flag(exists)) => {
                match (self.style.settled(), self.version) {
                    (Some(style), Some(version)) => {
                        match maybe_create_script(exists, style, &version) {
                            None => self.finish(no_notes()),
                            Some(bytes) => {
                                let action = Action::Write(self.script_path.clone(), bytes);
                                self.ask(Phase::WritingScript, no_notes(), action)
                            },
                        }
                    },
                    _ => {
                        if exists {
                            self.finish(no_notes())
                        } else {
                            self.fail(AddError::Protocol)
                        }
                    },
                }
            },
            (Phase::WritingScript, Event::Done) => {
                let notes = one_note(Note::NewScript(self.script_path.clone()));
                self.finish(notes)
            },
            (Phase::ReadingLive, Event::Bytes(bytes)) => {
                let action = Action::ReadText(self.script_path.clone());
                let m = AddMachine { contents: bytes, ..self };
                m.ask(Phase::ReadingScript, one_note(Note::Filtering), action)
            },
            (Phase::ReadingScript, Event::Text(text)) => {
                let contents = self.contents.clone();
                match prepare_data(Some(text.as_str()), contents) {
                    Err(e) => self.fail(AddError::Capture(e)),
                    Ok(bytes) => {
                        let action = Action::Write(self.data_path.clone(), bytes);
                        self.ask(Phase::WritingFiltered, one_note(Note::Writing), action)
                    },
                }
            },
            (Phase::WritingFiltered, Event::Done) => self.finish(no_notes()),
            (_, _) => self.fail(AddError::Protocol),
        }
    }
}

} // verus!
