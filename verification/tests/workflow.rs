//! The scenarios of capturing a file, run against a world that lives in
//! memory.
//!
//! | Previous source state | Command | Expected state                 |
//! | --------------------- | ------- | ------------------------------ |
//! | Missing               | Normal  | chezmoi add and convert/create |
//! | Missing               | Smart   | chezmoi add                    |
//! | Existing (basic)      | Normal  | chezmoi add and convert/create |
//! | Existing (basic)      | Smart   | chezmoi add                    |
//! | Existing (modify_)    | Normal  | Update data file               |
//! | Existing (modify_)    | Smart   | Update data file               |

use chezmoi_modify_manager::capture::CaptureError;
use chezmoi_modify_manager::config::CompileError;
use chezmoi_modify_manager::machine::{Action, AddMachine, Event, Note, Phase};
use chezmoi_modify_manager::script::ScriptStyle;
use chezmoi_modify_manager::version::{auto_source_version, ChezmoiVersion};
use chezmoi_modify_manager::workflow::{
    classify_chezmoi_state, data_file_name_for, maybe_create_script, plan, sanity_check,
    script_file_name_for, script_paths, AddError, ChezmoiState, Mode, Plan,
};
use chezmoi_modify_manager::Style;
use std::collections::BTreeMap;

const DUMMY_FILE_NAME_PREFIX: &str = "dummy_file";

/// A very simple tracking tool and file system.
struct DummyChezmoi {
    files: BTreeMap<String, Vec<u8>>,
    input_dir: String,
    src_dir: String,
    dummy_file0_name: String,
    dummy_file0_path: String,
    dummy_file0_source_path: String,
    version: ChezmoiVersion,
    changes: usize,
    version_asked: usize,
}

impl DummyChezmoi {
    fn new() -> Self {
        let input_dir = "/tmp/input".to_string();
        let src_dir = "/tmp/source".to_string();
        let dummy_file0_name = format!("{DUMMY_FILE_NAME_PREFIX}0");
        let dummy_file1_name = format!("{DUMMY_FILE_NAME_PREFIX}1");
        let dummy_file0_path = format!("{input_dir}/{dummy_file0_name}");
        let dummy_file1_path = format!("{input_dir}/{dummy_file1_name}");
        let mut files = BTreeMap::new();
        files.insert(dummy_file0_path.clone(), b"[a]\nb=c".to_vec());
        files.insert(dummy_file1_path, b"[a]\nb=c".to_vec());
        let dummy_file0_source_path = format!("{src_dir}/{dummy_file0_name}");
        Self {
            files,
            input_dir,
            src_dir,
            dummy_file0_name,
            dummy_file0_path,
            dummy_file0_source_path,
            version: auto_source_version(),
            changes: 0,
            version_asked: 0,
        }
    }

    fn in_src(&self, name: &str) -> String {
        format!("{}/{}", self.src_dir, name)
    }

    fn has(&self, path: &str) -> bool {
        self.files.contains_key(path)
    }

    fn basic_source_path(&self, path: &str) -> String {
        let rel = path.strip_prefix(&format!("{}/", self.input_dir)).unwrap();
        self.in_src(rel)
    }

    fn make_script_path(&self, file_name: &str, style: Style) -> String {
        match style {
            Style::Auto => unreachable!("not used in these tests"),
            Style::InPath => self.in_src(&format!("modify_{file_name}")),
            Style::InPathTmpl | Style::InSrc => self.in_src(&format!("modify_{file_name}.tmpl")),
        }
    }

    fn source_path(&self, path: &str) -> Option<String> {
        let normal_path = self.basic_source_path(path);
        let name = normal_path.rsplit('/').next().unwrap().to_string();
        let script_path_tmpl = self.in_src(&format!("modify_{name}.tmpl"));
        let script_path_plain = self.in_src(&format!("modify_{name}"));
        if self.has(&script_path_tmpl) {
            Some(script_path_tmpl)
        } else if self.has(&script_path_plain) {
            Some(script_path_plain)
        } else if self.has(&normal_path) {
            Some(normal_path)
        } else {
            None
        }
    }

    fn hooks(&self) -> usize {
        let hook = self.in_src(".chezmoi_modify_manager.add_hook");
        self.files
            .keys()
            .filter(|k| **k == hook || k.starts_with(&format!("{hook}.")))
            .count()
    }

    /// Performs one action and says what came of it.
    fn perform(&mut self, action: &Action) -> Event {
        match action {
            Action::Version => {
                self.version_asked += 1;
                Event::Version(self.version)
            }
            Action::IsFile(path) => Event::Flag(self.has(path)),
            Action::FindHooks => Event::Count(self.hooks()),
            Action::SourcePath(path) => Event::Path(self.source_path(path)),
            Action::Exists(path) => Event::Flag(self.has(path)),
            Action::Track(path) => {
                let target = self.basic_source_path(path);
                let data = self.files[path].clone();
                self.files.insert(target, data);
                self.changes += 1;
                Event::Done
            }
            Action::Read(path) => match self.files.get(path) {
                Some(data) => Event::Bytes(data.clone()),
                None => Event::Failed(format!("cannot read {path}")),
            },
            Action::ReadText(path) => match self.files.get(path) {
                Some(data) => Event::Text(String::from_utf8(data.clone()).unwrap()),
                None => Event::Failed(format!("cannot read {path}")),
            },
            Action::Write(path, data) => {
                self.files.insert(path.clone(), data.clone());
                self.changes += 1;
                Event::Done
            }
            Action::Remove(path) => {
                self.files.remove(path);
                self.changes += 1;
                Event::Done
            }
            Action::Finish | Action::Fail(_) => unreachable!("the run is over"),
        }
    }
}

/// Runs the machine to its end.
fn add(
    chezmoi: &mut DummyChezmoi,
    mode: Mode,
    style: Style,
    path: &str,
    status_out: &mut Vec<String>,
) -> Result<(), AddError> {
    let mut machine = AddMachine::new(path.to_string(), mode, style);
    let mut event = Event::Begin;
    for _ in 0..100 {
        let step = machine.step(event);
        for note in &step.notes {
            status_out.push(note.text());
        }
        machine = step.machine;
        match step.action {
            Action::Finish => {
                assert!(machine.is_finished());
                return Ok(());
            }
            Action::Fail(e) => {
                assert!(machine.is_finished());
                return Err(e);
            }
            action => event = chezmoi.perform(&action),
        }
    }
    panic!("the machine does not come to an end");
}

fn assert_default_script(chezmoi: &DummyChezmoi, style: Style, dummy_file_name: &str) {
    let file_data = &chezmoi.files[&chezmoi.in_src(&format!("{dummy_file_name}.src.ini"))];
    assert_eq!(file_data.strip_suffix(b"\n").unwrap(), b"[a]\nb=c");

    let file_data = chezmoi.files[&chezmoi.make_script_path(dummy_file_name, style)].clone();
    let file_data = String::from_utf8(file_data).unwrap();
    assert!(file_data.starts_with("#!/usr/bin/env chezmoi_modify_manager\n"));

    // No dummy basic file should exist
    assert!(!chezmoi.has(&chezmoi.in_src(dummy_file_name)));
}

fn assert_unchanged_script(chezmoi: &DummyChezmoi, style: Style, dummy_file_name: &str) {
    let file_data = &chezmoi.files[&chezmoi.in_src(&format!("{dummy_file_name}.src.ini"))];
    assert_eq!(file_data.strip_suffix(b"\n").unwrap(), b"[a]\nb=c");

    let file_data = chezmoi.files[&chezmoi.make_script_path(dummy_file_name, style)].clone();
    let file_data = String::from_utf8(file_data).unwrap();
    assert!(
        file_data.starts_with("#!/usr/bin/env chezmoi_modify_manager\n#UNTOUCHED\nsource auto")
    );

    // No dummy basic file should exist
    assert!(!chezmoi.has(&chezmoi.in_src(dummy_file_name)));
}

fn assert_default_basic(chezmoi: &DummyChezmoi, dummy_file_name: &str) {
    let file_data = &chezmoi.files[&chezmoi.in_src(dummy_file_name)];
    assert_eq!(file_data, b"[a]\nb=c");

    // No modify script should exist
    assert!(!chezmoi.has(&chezmoi.in_src(&format!("{dummy_file_name}.src.ini"))));
    assert!(!chezmoi.has(&chezmoi.in_src(&format!("modify_{dummy_file_name}"))));
    assert!(!chezmoi.has(&chezmoi.in_src(&format!("modify_{dummy_file_name}.tmpl"))));
}

fn assert_nothing_added(chezmoi: &DummyChezmoi, dummy_file_name: &str) {
    // No files added
    assert!(!chezmoi.has(&chezmoi.in_src(dummy_file_name)));
    assert!(!chezmoi.has(&chezmoi.in_src(&format!("{dummy_file_name}.src.ini"))));
    assert!(!chezmoi.has(&chezmoi.in_src(&format!("modify_{dummy_file_name}"))));
    assert!(!chezmoi.has(&chezmoi.in_src(&format!("modify_{dummy_file_name}.tmpl"))));
    assert_eq!(chezmoi.changes, 0);
}

#[test]
fn check_error_on_old_chezmoi() {
    // Check that --style path errors on old chezmoi
    let mut chezmoi = DummyChezmoi::new();
    chezmoi.version.1 -= 1;

    let mut stdout: Vec<String> = vec![];
    let path = chezmoi.dummy_file0_path.clone();

    let error = add(&mut chezmoi, Mode::Normal, Style::InPath, &path, &mut stdout);
    assert!(error.is_err());
    assert_eq!(error, Err(AddError::StyleNeedsNewerChezmoi));

    assert_nothing_added(&chezmoi, chezmoi.dummy_file0_name.as_str());
}

#[test]
fn tests_check_add_normal_missing() {
    for style in [Style::InPathTmpl, Style::InPath] {
        let mut chezmoi = DummyChezmoi::new();
        let mut stdout: Vec<String> = vec![];
        let path = chezmoi.dummy_file0_path.clone();

        add(&mut chezmoi, Mode::Normal, style, &path, &mut stdout).unwrap();

        assert_default_script(&chezmoi, style, chezmoi.dummy_file0_name.as_str());
        assert_eq!(
            stdout,
            vec![
                "State: New (to chezmoi) file".to_string(),
                "Action: Adding & setting up new modify_ script.".to_string(),
                "Writing out file data".to_string(),
                format!(
                    "New script at {}",
                    chezmoi.make_script_path(&chezmoi.dummy_file0_name, style)
                ),
            ]
        );
    }
}

#[test]
fn tests_check_add_smart_missing() {
    for style in [Style::InPathTmpl, Style::InPath] {
        let mut chezmoi = DummyChezmoi::new();
        let mut stdout: Vec<String> = vec![];
        let path = chezmoi.dummy_file0_path.clone();

        add(&mut chezmoi, Mode::Smart, style, &path, &mut stdout).unwrap();

        assert_default_basic(&chezmoi, chezmoi.dummy_file0_name.as_str());
    }
}

#[test]
fn tests_check_add_normal_basic() {
    for style in [Style::InPathTmpl, Style::InPath] {
        let mut chezmoi = DummyChezmoi::new();
        let mut stdout: Vec<String> = vec![];
        let path = chezmoi.dummy_file0_path.clone();

        chezmoi.files.insert(
            chezmoi.dummy_file0_source_path.clone(),
            b"old_contents".to_vec(),
        );

        add(&mut chezmoi, Mode::Normal, style, &path, &mut stdout).unwrap();

        assert_default_script(&chezmoi, style, chezmoi.dummy_file0_name.as_str());
        assert_eq!(
            stdout[..2],
            [
                "State: Managed by chezmoi, but not a modify script.".to_string(),
                "Action: Converting & setting up new modify_ script.".to_string(),
            ]
        );
    }
}

#[test]
fn tests_check_add_smart_basic() {
    for style in [Style::InPathTmpl, Style::InPath] {
        let mut chezmoi = DummyChezmoi::new();
        let mut stdout: Vec<String> = vec![];
        let path = chezmoi.dummy_file0_path.clone();

        chezmoi.files.insert(
            chezmoi.dummy_file0_source_path.clone(),
            b"old_contents".to_vec(),
        );

        add(&mut chezmoi, Mode::Smart, style, &path, &mut stdout).unwrap();

        assert_default_basic(&chezmoi, chezmoi.dummy_file0_name.as_str());
    }
}

fn with_untouched_script(style: Style) -> DummyChezmoi {
    let mut chezmoi = DummyChezmoi::new();
    let filename = chezmoi.dummy_file0_name.clone();
    chezmoi.files.insert(
        chezmoi.in_src(&format!("{filename}.src.ini")),
        b"old_contents".to_vec(),
    );
    chezmoi.files.insert(
        chezmoi.make_script_path(&filename, style),
        b"#!/usr/bin/env chezmoi_modify_manager\n#UNTOUCHED\nsource auto".to_vec(),
    );
    chezmoi
}

#[test]
fn tests_check_add_normal_script() {
    for style in [Style::InPathTmpl, Style::InPath] {
        let mut chezmoi = with_untouched_script(style);
        let mut stdout: Vec<String> = vec![];
        let path = chezmoi.dummy_file0_path.clone();
        let filename = chezmoi.dummy_file0_name.clone();

        add(&mut chezmoi, Mode::Normal, style, &path, &mut stdout).unwrap();

        assert_unchanged_script(&chezmoi, style, &filename);
    }
}

#[test]
fn tests_check_add_smart_script() {
    for style in [Style::InPathTmpl, Style::InPath] {
        let mut chezmoi = with_untouched_script(style);
        let mut stdout: Vec<String> = vec![];
        let path = chezmoi.dummy_file0_path.clone();
        let filename = chezmoi.dummy_file0_name.clone();

        add(&mut chezmoi, Mode::Smart, style, &path, &mut stdout).unwrap();

        assert_unchanged_script(&chezmoi, style, &filename);
        assert_eq!(
            stdout,
            vec![
                "State: Managed by chezmoi and is a modify script.".to_string(),
                format!(
                    "Action: Updating existing .src.ini file for {}.",
                    chezmoi.make_script_path(&filename, style)
                ),
                "Has existing modify script, parsing to check for filtering...".to_string(),
                "Writing out file data".to_string(),
            ]
        );
    }
}

#[test]
fn fresh_add_scenario() {
    // A plain file `a.ini` with `[a]\nb=c`, nothing tracked, normal mode.
    let mut chezmoi = DummyChezmoi::new();
    chezmoi
        .files
        .insert("/tmp/input/a.ini".to_string(), b"[a]\nb=c".to_vec());
    let mut stdout = vec![];
    add(
        &mut chezmoi,
        Mode::Normal,
        Style::InSrc,
        "/tmp/input/a.ini",
        &mut stdout,
    )
    .unwrap();
    assert_eq!(chezmoi.files["/tmp/source/a.ini.src.ini"], b"[a]\nb=c\n");
    let script = String::from_utf8(chezmoi.files["/tmp/source/modify_a.ini.tmpl"].clone()).unwrap();
    assert!(script.starts_with(
        "#!{{ .chezmoi.sourceDir }}/.utils/chezmoi_modify_manager-{{ .chezmoi.os }}-{{ .chezmoi.arch }}\n"
    ));
    assert!(!chezmoi.has("/tmp/source/a.ini"));
}

#[test]
fn managed_readd_scenario() {
    let mut chezmoi = DummyChezmoi::new();
    chezmoi.files.insert(
        "/tmp/input/a.ini".to_string(),
        b"[a]\nb=secret\nc=d".to_vec(),
    );
    chezmoi.files.insert(
        "/tmp/source/modify_a.ini".to_string(),
        b"source auto\nadd:hide \"a\" \"b\"\n".to_vec(),
    );
    chezmoi
        .files
        .insert("/tmp/source/a.ini.src.ini".to_string(), b"old".to_vec());
    for mode in [Mode::Normal, Mode::Smart] {
        let mut stdout = vec![];
        add(
            &mut chezmoi,
            mode,
            Style::Auto,
            "/tmp/input/a.ini",
            &mut stdout,
        )
        .unwrap();
        assert_eq!(
            String::from_utf8(chezmoi.files["/tmp/source/a.ini.src.ini"].clone()).unwrap(),
            "[a]\nb=HIDDEN\nc=d\n"
        );
    }
}

#[test]
fn script_synthesis_is_idempotent() {
    for style in [Style::Auto, Style::InPath, Style::InPathTmpl, Style::InSrc] {
        let mut chezmoi = DummyChezmoi::new();
        let path = chezmoi.dummy_file0_path.clone();
        let mut stdout = vec![];
        add(&mut chezmoi, Mode::Normal, style, &path, &mut stdout).unwrap();
        let after_first = chezmoi.files.clone();
        let mut stdout = vec![];
        add(&mut chezmoi, Mode::Normal, style, &path, &mut stdout).unwrap();
        assert_eq!(chezmoi.files, after_first);
        assert!(!stdout.iter().any(|line| line.starts_with("New script")));
    }
}

#[test]
fn an_existing_script_is_never_written_over() {
    // The file is tracked as it is, and a script lies where the new one
    // would go, though the tool does not report it: the script stays.
    let mut machine = AddMachine::new("/in/a".to_string(), Mode::Normal, Style::InPath);
    let answers = vec![
        Event::Begin,
        Event::Flag(true),
        Event::Version(auto_source_version()),
        Event::Count(0),
        Event::Path(Some("/src/a".to_string())),
        Event::Done,
        Event::Bytes(b"x".to_vec()),
        Event::Done,
        Event::Done,
        Event::Flag(true),
    ];
    let mut actions = vec![];
    for event in answers {
        let step = machine.step(event);
        machine = step.machine;
        actions.push(step.action);
    }
    assert_eq!(
        actions,
        vec![
            Action::IsFile("/in/a".to_string()),
            Action::Version,
            Action::FindHooks,
            Action::SourcePath("/in/a".to_string()),
            Action::Track("/in/a".to_string()),
            Action::Read("/src/a".to_string()),
            Action::Write("/src/a.src.ini".to_string(), b"x\n".to_vec()),
            Action::Remove("/src/a".to_string()),
            Action::Exists("/src/modify_a".to_string()),
            Action::Finish,
        ]
    );
    assert_eq!(maybe_create_script(true, ScriptStyle::InPath, &auto_source_version()), None);
    let made = maybe_create_script(false, ScriptStyle::InPath, &auto_source_version()).unwrap();
    assert!(made.starts_with(b"#!/usr/bin/env chezmoi_modify_manager\n\nsource auto\n"));
}

#[test]
fn refusals() {
    // Not a regular file.
    let mut chezmoi = DummyChezmoi::new();
    let mut stdout = vec![];
    assert_eq!(
        add(&mut chezmoi, Mode::Normal, Style::Auto, "/tmp/input/none", &mut stdout),
        Err(AddError::NotRegularFile("/tmp/input/none".to_string()))
    );
    assert_eq!(chezmoi.changes, 0);
    // A hook script of the old kind.
    let path = chezmoi.dummy_file0_path.clone();
    chezmoi.files.insert(
        "/tmp/source/.chezmoi_modify_manager.add_hook".to_string(),
        vec![],
    );
    assert_eq!(
        add(&mut chezmoi, Mode::Smart, Style::Auto, &path, &mut stdout),
        Err(AddError::LegacyHook)
    );
    assert_eq!(chezmoi.changes, 0);
    // A script without its data file.
    let mut chezmoi = DummyChezmoi::new();
    chezmoi.files.insert(
        "/tmp/source/modify_dummy_file0.tmpl".to_string(),
        b"source auto\n".to_vec(),
    );
    assert_eq!(
        add(&mut chezmoi, Mode::Smart, Style::Auto, &path, &mut stdout),
        Err(AddError::MissingDataFile(
            "/tmp/source/dummy_file0.src.ini".to_string()
        ))
    );
    assert_eq!(chezmoi.changes, 0);
    // A script that does not compile.
    chezmoi.files.insert(
        "/tmp/source/modify_dummy_file0.tmpl".to_string(),
        b"add:hide \"a\" \"b\"\n".to_vec(),
    );
    chezmoi.files.insert(
        "/tmp/source/dummy_file0.src.ini".to_string(),
        b"old".to_vec(),
    );
    assert_eq!(
        add(&mut chezmoi, Mode::Normal, Style::Auto, &path, &mut stdout),
        Err(AddError::Capture(CaptureError::Compile(
            CompileError::MissingSource
        )))
    );
    assert_eq!(chezmoi.files["/tmp/source/dummy_file0.src.ini"], b"old");
}

#[test]
fn machine_answers_that_do_not_fit() {
    let machine = AddMachine::new("/in/a".to_string(), Mode::Normal, Style::Auto);
    let step = machine.clone().step(Event::Done);
    assert_eq!(step.action, Action::Fail(AddError::Protocol));
    assert_eq!(step.machine.phase, Phase::Finished);
    let step = step.machine.step(Event::Begin);
    assert_eq!(step.action, Action::Fail(AddError::Protocol));
    let step = machine.clone().step(Event::Failed("boom".to_string()));
    assert_eq!(
        step.action,
        Action::Fail(AddError::External("boom".to_string()))
    );
    // The tool took the file and then does not know it.
    let mut machine = machine;
    let mut last = None;
    for event in [
        Event::Begin,
        Event::Version(auto_source_version()),
        Event::Flag(true),
        Event::Count(0),
        Event::Path(None),
        Event::Done,
        Event::Path(None),
    ] {
        let step = machine.step(event);
        machine = step.machine;
        last = Some(step.action);
    }
    assert_eq!(last, Some(Action::Fail(AddError::AddedFileNotFound)));
    assert_eq!(
        Note::ActionUpdate("/s/modify_a".to_string()).text(),
        "Action: Updating existing .src.ini file for /s/modify_a."
    );
}

#[test]
fn transition_table() {
    let plain = ChezmoiState::TrackedPlain {
        data_path: "/s/a".to_string(),
    };
    let managed = ChezmoiState::TrackedManaged {
        script_path: "/s/modify_a".to_string(),
        data_path: "/s/a.src.ini".to_string(),
    };
    let refilter = Plan::Refilter {
        script_path: "/s/modify_a".to_string(),
        data_path: "/s/a.src.ini".to_string(),
    };
    assert_eq!(plan(ChezmoiState::NotTracked, Mode::Smart), Plan::PlainTrack);
    assert_eq!(
        plan(ChezmoiState::NotTracked, Mode::Normal),
        Plan::NewScript { known: None }
    );
    assert_eq!(plan(plain.clone(), Mode::Smart), Plan::PlainTrack);
    assert_eq!(
        plan(plain, Mode::Normal),
        Plan::NewScript {
            known: Some("/s/a".to_string())
        }
    );
    assert_eq!(plan(managed.clone(), Mode::Smart), refilter);
    assert_eq!(plan(managed, Mode::Normal), refilter);
}

#[test]
fn classification() {
    assert_eq!(classify_chezmoi_state(None), Ok(ChezmoiState::NotTracked));
    assert_eq!(
        classify_chezmoi_state(Some("/s/dot_config/a.ini".to_string())),
        Ok(ChezmoiState::TrackedPlain {
            data_path: "/s/dot_config/a.ini".to_string()
        })
    );
    assert_eq!(
        classify_chezmoi_state(Some("/s/dot_config/modify_a.ini.tmpl".to_string())),
        Ok(ChezmoiState::TrackedManaged {
            script_path: "/s/dot_config/modify_a.ini.tmpl".to_string(),
            data_path: "/s/dot_config/a.ini.src.ini".to_string()
        })
    );
    assert_eq!(
        classify_chezmoi_state(Some("/s/modify_a.ini".to_string())),
        Ok(ChezmoiState::TrackedManaged {
            script_path: "/s/modify_a.ini".to_string(),
            data_path: "/s/a.ini.src.ini".to_string()
        })
    );
    assert_eq!(
        classify_chezmoi_state(Some("/".to_string())),
        Err(AddError::NoFileName("/".to_string()))
    );
}

#[test]
fn checks_and_paths() {
    let new = auto_source_version();
    let old = ChezmoiVersion(2, 46, 0);
    assert_eq!(sanity_check("/a", true, Style::InPath, Some(new), 0), Ok(()));
    assert_eq!(
        sanity_check("/a", false, Style::InPath, Some(old), 3),
        Err(AddError::NotRegularFile("/a".to_string()))
    );
    assert_eq!(
        sanity_check("/a", true, Style::InPath, Some(old), 3),
        Err(AddError::StyleNeedsNewerChezmoi)
    );
    // While the version is not known, nothing is held against it.
    assert_eq!(sanity_check("/a", true, Style::InPath, None, 0), Ok(()));
    assert_eq!(
        sanity_check("/a", true, Style::InPathTmpl, Some(old), 3),
        Err(AddError::LegacyHook)
    );
    assert_eq!(sanity_check("/a", true, Style::InSrc, Some(old), 0), Ok(()));
    assert_eq!(sanity_check("/a", true, Style::InSrc, None, 0), Ok(()));
    assert_eq!(Style::Auto.settled(), None);
    assert_eq!(Style::InSrc.settled(), Some(ScriptStyle::InSrc));
    assert_eq!(ScriptStyle::InPathTmpl.as_style(), Style::InPathTmpl);
    assert_eq!(
        script_paths("/s/d/a.ini", ScriptStyle::InPath),
        Ok((
            "/s/d/a.ini.src.ini".to_string(),
            "/s/d/modify_a.ini".to_string()
        ))
    );
    assert_eq!(
        script_paths("/s/d/a.ini", ScriptStyle::InPathTmpl),
        Ok((
            "/s/d/a.ini.src.ini".to_string(),
            "/s/d/modify_a.ini.tmpl".to_string()
        ))
    );
    assert_eq!(
        script_paths("/s/d/a.ini", ScriptStyle::InSrc),
        Ok((
            "/s/d/a.ini.src.ini".to_string(),
            "/s/d/modify_a.ini.tmpl".to_string()
        ))
    );
    assert_eq!(
        script_paths("/", ScriptStyle::InSrc),
        Err(AddError::NoFileName("/".to_string()))
    );
}

#[test]
fn names_of_new_files() {
    assert_eq!(data_file_name_for("a.ini"), "a.ini.src.ini");
    assert_eq!(
        script_file_name_for("a.ini", ScriptStyle::InPath),
        "modify_a.ini"
    );
    assert_eq!(
        script_file_name_for("a.ini", ScriptStyle::InPathTmpl),
        "modify_a.ini.tmpl"
    );
    assert_eq!(
        script_file_name_for("a.ini", ScriptStyle::InSrc),
        "modify_a.ini.tmpl"
    );
}

#[test]
fn version_is_asked_only_where_it_is_needed() {
    // A file with a script, and a style that is no matter of the version:
    // the tool is never asked.
    for mode in [Mode::Normal, Mode::Smart] {
        let mut chezmoi = with_untouched_script(Style::InPathTmpl);
        let path = chezmoi.dummy_file0_path.clone();
        add(&mut chezmoi, mode, Style::InPathTmpl, &path, &mut vec![]).unwrap();
        assert_eq!(chezmoi.version_asked, 0);
    }
    // A plain file in smart mode with a template style: never either.
    let mut chezmoi = DummyChezmoi::new();
    let path = chezmoi.dummy_file0_path.clone();
    add(&mut chezmoi, Mode::Smart, Style::InSrc, &path, &mut vec![]).unwrap();
    assert_eq!(chezmoi.version_asked, 0);
    // A new script needs it, once, whatever the style.
    for style in [Style::Auto, Style::InPath, Style::InPathTmpl, Style::InSrc] {
        let mut chezmoi = DummyChezmoi::new();
        let path = chezmoi.dummy_file0_path.clone();
        add(&mut chezmoi, Mode::Normal, style, &path, &mut vec![]).unwrap();
        assert_eq!(chezmoi.version_asked, 1, "{style:?}");
    }
    // `Auto` asks first of all, a plain script once the path is a file.
    let step = AddMachine::new("/in/a".to_string(), Mode::Smart, Style::Auto).step(Event::Begin);
    assert_eq!(step.action, Action::Version);
    let step = AddMachine::new("/in/a".to_string(), Mode::Smart, Style::InPath).step(Event::Begin);
    assert_eq!(step.action, Action::IsFile("/in/a".to_string()));
    assert_eq!(step.machine.step(Event::Flag(true)).action, Action::Version);
    // Under an old tool `Auto` comes to a template.
    let step = AddMachine::new("/in/a".to_string(), Mode::Normal, Style::Auto)
        .step(Event::Begin)
        .machine
        .step(Event::Version(ChezmoiVersion(2, 46, 0)));
    assert_eq!(step.machine.style, Style::InPathTmpl);
    assert_eq!(step.machine.version, Some(ChezmoiVersion(2, 46, 0)));
}
