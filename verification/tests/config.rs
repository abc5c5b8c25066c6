use chezmoi_modify_manager::config::{
    compile_directives_for_add, compile_directives_for_merge, compile_for_add, compile_for_merge,
    make_transformer, CompileError, Source, HIDDEN,
};
use chezmoi_modify_manager::directive::{Directive, Matcher, TransformArgs};
use chezmoi_modify_manager::table::{
    CaptureAction, EntryAction, FilterRule, MergeRule, SectionAction, TransformSpec,
};
use chezmoi_modify_manager::transforms::{ConstructError, Transform};

fn args(pairs: &[(&str, &str)]) -> TransformArgs {
    let mut out = TransformArgs::new();
    for (key, value) in pairs {
        out = out.with((*key).to_string(), (*value).to_string());
    }
    out
}

const EXAMPLE: &str = r#"#!/path
source auto

ignore section "c"
ignore "a" "b"
transform "d" "e" unsorted-list separator=","
transform "a" "b" kde-shortcut
set "s" "k" "v"
set "s" "k2" "v2" separator="="
remove "r" "k"
remove section "gone"

ignore regex "a.*" "b.*"
transform regex "d.*" "e.*" kde-shortcut
# Random comment

# Test adding
add:hide "f g" "h"
add:remove regex "quux.*" "eh?"
add:remove section "very secret"
add:hide section "somewhat secret"
"#;

#[test]
fn merge_table_takes_merge_directives_only() {
    let config = compile_for_merge(EXAMPLE).unwrap();
    assert_eq!(config.source, Source::AutoEnv);
    assert!(config.table.warn_on_multiple_matches);
    assert_eq!(
        config.table.rules,
        vec![
            MergeRule::Section {
                section: "c".into(),
                action: SectionAction::Ignore
            },
            MergeRule::Literal {
                section: "a".into(),
                key: "b".into(),
                action: EntryAction::Ignore
            },
            MergeRule::Literal {
                section: "d".into(),
                key: "e".into(),
                action: EntryAction::Transform(TransformSpec {
                    kind: Transform::UnsortedLists,
                    args: args(&[("separator", ",")])
                })
            },
            MergeRule::Literal {
                section: "a".into(),
                key: "b".into(),
                action: EntryAction::Transform(TransformSpec {
                    kind: Transform::KdeShortcut,
                    args: TransformArgs::new()
                })
            },
            MergeRule::Setter {
                section: "s".into(),
                key: "k".into(),
                value: "v".into(),
                separator: " = ".into()
            },
            MergeRule::Setter {
                section: "s".into(),
                key: "k2".into(),
                value: "v2".into(),
                separator: "=".into()
            },
            MergeRule::Literal {
                section: "r".into(),
                key: "k".into(),
                action: EntryAction::Delete
            },
            MergeRule::Section {
                section: "gone".into(),
                action: SectionAction::Delete
            },
            MergeRule::Regex {
                section: "a.*".into(),
                key: "b.*".into(),
                action: EntryAction::Ignore
            },
            MergeRule::Regex {
                section: "d.*".into(),
                key: "e.*".into(),
                action: EntryAction::Transform(TransformSpec {
                    kind: Transform::KdeShortcut,
                    args: TransformArgs::new()
                })
            },
        ]
    );
}

#[test]
fn filter_table_takes_add_directives_and_ignores() {
    let config = compile_for_add(EXAMPLE).unwrap();
    assert_eq!(config.source, Source::AutoEnv);
    assert_eq!(HIDDEN, "HIDDEN");
    assert_eq!(
        config.table.rules,
        vec![
            FilterRule::Section {
                section: "c".into(),
                action: CaptureAction::Remove
            },
            FilterRule::Literal {
                section: "a".into(),
                key: "b".into(),
                action: CaptureAction::Remove
            },
            FilterRule::Regex {
                section: "a.*".into(),
                key: "b.*".into(),
                action: CaptureAction::Remove
            },
            FilterRule::Literal {
                section: "f g".into(),
                key: "h".into(),
                action: CaptureAction::Replace("HIDDEN")
            },
            FilterRule::Regex {
                section: "quux.*".into(),
                key: "eh?".into(),
                action: CaptureAction::Remove
            },
            FilterRule::Section {
                section: "very secret".into(),
                action: CaptureAction::Remove
            },
            FilterRule::Section {
                section: "somewhat secret".into(),
                action: CaptureAction::Replace("HIDDEN")
            },
        ]
    );
}

#[test]
fn explicit_source_path() {
    let config = compile_for_merge("source \"/repo/a.src.ini\"\n").unwrap();
    assert_eq!(config.source, Source::Path("/repo/a.src.ini".into()));
    let config = compile_for_add("source \"/repo/a.src.ini\"\n").unwrap();
    assert_eq!(config.source, Source::Path("/repo/a.src.ini".into()));
}

#[test]
fn two_sources_are_refused_in_both_modes() {
    for text in [
        "source auto\nsource auto\n",
        "source \"a\"\n\nsource auto\n",
        "source auto\nignore section \"x\"\nsource \"b\"\n",
        "source \"a\"\r\nsource \"b\"\r\n",
    ] {
        assert_eq!(
            compile_for_merge(text).err(),
            Some(CompileError::DuplicateSource),
            "{text:?}"
        );
        assert_eq!(
            compile_for_add(text).err(),
            Some(CompileError::DuplicateSource),
            "{text:?}"
        );
    }
    let directives = vec![Directive::SourceAuto, Directive::SourceAutoPath];
    assert_eq!(
        compile_directives_for_merge(&directives).err(),
        Some(CompileError::DuplicateSource)
    );
    assert_eq!(
        compile_directives_for_add(&directives).err(),
        Some(CompileError::DuplicateSource)
    );
}

#[test]
fn no_source_is_refused_in_both_modes() {
    for text in ["", "# nothing\n", "ignore section \"x\"\nadd:hide \"a\" \"b\"\n"] {
        assert_eq!(
            compile_for_merge(text).err(),
            Some(CompileError::MissingSource),
            "{text:?}"
        );
        assert_eq!(
            compile_for_add(text).err(),
            Some(CompileError::MissingSource),
            "{text:?}"
        );
    }
}

#[test]
fn a_faulty_transform_is_reported_before_a_later_source() {
    let text = "source auto\ntransform \"a\" \"b\" no-such-transform\nsource auto\n";
    assert_eq!(
        compile_for_merge(text).err(),
        Some(CompileError::UnknownTransform("no-such-transform".into()))
    );
    // Capturing does not look at transforms.
    assert_eq!(
        compile_for_add(text).err(),
        Some(CompileError::DuplicateSource)
    );
}

#[test]
fn transform_faults() {
    assert_eq!(
        compile_for_merge("source auto\ntransform \"a\" \"b\" nope").err(),
        Some(CompileError::UnknownTransform("nope".into()))
    );
    assert_eq!(
        compile_for_merge("source auto\ntransform \"a\" \"b\" keyring service=\"s\" user=\"u\"")
            .err(),
        Some(CompileError::UnsupportedTransform("keyring".into()))
    );
    match compile_for_merge("source auto\ntransform \"a\" \"b\" unsorted-list").err() {
        Some(CompileError::TransformArguments(name, _)) => assert_eq!(name, "unsorted-list"),
        other => panic!("unexpected {other:?}"),
    }
    match compile_for_merge("source auto\ntransform \"a\" \"b\" unsorted-list separator=\",,\"")
        .err()
    {
        Some(CompileError::TransformArguments(name, _)) => assert_eq!(name, "unsorted-list"),
        other => panic!("unexpected {other:?}"),
    }
    match compile_for_merge("source auto\ntransform \"a\" \"b\" kde-shortcut x=\"y\"").err() {
        Some(CompileError::TransformArguments(name, _)) => assert_eq!(name, "kde-shortcut"),
        other => panic!("unexpected {other:?}"),
    }
    // Other arguments beside the separator are passed over.
    assert!(
        compile_for_merge("source auto\ntransform \"a\" \"b\" unsorted-list separator=\";\" x=\"y\"")
            .is_ok()
    );
    // All of these compile for capturing.
    assert!(compile_for_add("source auto\ntransform \"a\" \"b\" nope").is_ok());
}

#[test]
fn transform_on_a_section_is_refused() {
    let directives = vec![
        Directive::SourceAuto,
        Directive::Transform(
            Matcher::Section("s".into()),
            "kde-shortcut".into(),
            TransformArgs::new(),
        ),
    ];
    assert_eq!(
        compile_directives_for_merge(&directives).err(),
        Some(CompileError::SectionTransform)
    );
    // The name and the arguments are looked at first.
    let directives = vec![
        Directive::SourceAuto,
        Directive::Transform(Matcher::Section("s".into()), "nope".into(), TransformArgs::new()),
    ];
    assert_eq!(
        compile_directives_for_merge(&directives).err(),
        Some(CompileError::UnknownTransform("nope".into()))
    );
    assert!(compile_directives_for_add(&directives).is_ok());
}

#[test]
fn bad_regex_is_refused() {
    match compile_for_merge("source auto\nignore regex \"(\" \"x\"").err() {
        Some(CompileError::Regex(_)) => {}
        other => panic!("unexpected {other:?}"),
    }
    match compile_for_add("source auto\nadd:remove regex \"a\" \"[\"").err() {
        Some(CompileError::Regex(_)) => {}
        other => panic!("unexpected {other:?}"),
    }
    // A missing source comes first.
    assert_eq!(
        compile_for_merge("ignore regex \"(\" \"x\"").err(),
        Some(CompileError::MissingSource)
    );
}

#[test]
fn syntax_errors_come_first() {
    match compile_for_merge("source auto\nsource auto\nbogus").err() {
        Some(CompileError::Syntax(e)) => assert_eq!((e.line, e.column), (3, 1)),
        other => panic!("unexpected {other:?}"),
    }
    match compile_for_add("bogus").err() {
        Some(CompileError::Syntax(e)) => assert_eq!((e.line, e.column), (1, 1)),
        other => panic!("unexpected {other:?}"),
    }
}

#[test]
fn no_warn_directive_clears_the_flag() {
    let directives = vec![
        Directive::SourceAutoPath,
        Directive::NoWarnMultipleKeyMatches,
        Directive::Ignore(Matcher::Regex("a".into(), "b".into())),
    ];
    let merge = compile_directives_for_merge(&directives).unwrap();
    assert_eq!(merge.source, Source::AutoPath);
    assert!(!merge.table.warn_on_multiple_matches);
    assert_eq!(merge.table.rules.len(), 1);
    let add = compile_directives_for_add(&directives).unwrap();
    assert!(!add.table.warn_on_multiple_matches);
    assert_eq!(add.table.rules.len(), 1);
}

#[test]
fn transforms_are_made_from_their_names() {
    assert!(make_transformer("unsorted-list", &args(&[("separator", ",")])).is_ok());
    assert!(make_transformer("kde-shortcut", &TransformArgs::new()).is_ok());
    assert_eq!(
        Transform::Keyring.construct(&TransformArgs::new()).err(),
        Some(ConstructError::Unsupported)
    );
    for t in [
        Transform::UnsortedLists,
        Transform::KdeShortcut,
        Transform::Keyring,
    ] {
        assert_eq!(Transform::from_name(t.name()), Some(t));
    }
    assert_eq!(Transform::from_name("unsorted-lists"), None);
    let help = Transform::help();
    assert!(help.starts_with(
        "Supported transforms:\n====================\n\nunsorted-list\n-------------\nCompare the value as an unsorted list.\n"
    ));
    assert!(help.contains("\n\nkde-shortcut\n------------\nSpecialised transform"));
    assert!(help.contains("\n\nkeyring\n-------\nGet the value"));
    assert!(help.ends_with("username \"user-name\"\n\n"));
}

fn merge(config: &chezmoi_modify_manager::config::MergeConfig, target: &str, source: &str) -> Vec<String> {
    let mut target = target.as_bytes();
    let mut source = source.as_bytes();
    ini_merge::merge::merge_ini(&mut target, &mut source, &config.mutations).unwrap()
}

#[test]
fn merge_table_reaches_the_engine() {
    let config = compile_for_merge(
        "source auto\n\
         ignore \"a\" \"keep\"\n\
         remove \"a\" \"gone\"\n\
         set \"a\" \"forced\" \"1\" separator=\"=\"\n\
         ignore section \"s\"\n\
         remove section \"dead\"\n\
         ignore regex \"r.*\" \"x.*\"\n\
         transform \"l\" \"list\" unsorted-list separator=\",\"\n",
    )
    .unwrap();
    let target = "[a]\nkeep=live\ngone=live\nother=live\n[s]\nx=live\n[dead]\ny=live\n[rr]\nxy=live\nz=live\n[l]\nlist=b,a\n";
    let source = "[a]\nkeep=src\ngone=src\nother=src\n[s]\nx=src\n[dead]\ny=src\n[rr]\nxy=src\nz=src\n[l]\nlist=a,b\n";
    assert_eq!(
        merge(&config, target, source),
        vec![
            "[a]",
            "keep=live",
            "other=src",
            "forced=1",
            "[s]",
            "x=live",
            "[rr]",
            "xy=live",
            "z=src",
            "[l]",
            "list=b,a",
        ]
    );
}

#[test]
fn overlapping_transforms_compile_and_the_first_applies() {
    for quiet in [false, true] {
        let mut directives = vec![Directive::SourceAuto];
        if quiet {
            directives.push(Directive::NoWarnMultipleKeyMatches);
        }
        // The first keeps the live line where the lists hold the same; the
        // second would do so only for KDE shortcuts.
        directives.push(Directive::Transform(
            Matcher::Regex("s".into(), "k.*".into()),
            "unsorted-list".into(),
            args(&[("separator", ",")]),
        ));
        directives.push(Directive::Transform(
            Matcher::Regex("s".into(), "ke.*".into()),
            "kde-shortcut".into(),
            TransformArgs::new(),
        ));
        let config = compile_directives_for_merge(&directives).unwrap();
        assert_eq!(config.table.warn_on_multiple_matches, !quiet);
        assert_eq!(
            merge(&config, "[s]\nkey=b,a\n", "[s]\nkey=a,b\n"),
            vec!["[s]", "key=b,a"]
        );
    }
}

#[test]
fn plainest_script_compiles() {
    for text in ["source auto", "source auto\n", "# c\nsource \"a.ini\"\n\n"] {
        let merge = compile_for_merge(text).unwrap();
        assert!(merge.table.rules.is_empty());
        assert!(merge.table.warn_on_multiple_matches);
        let add = compile_for_add(text).unwrap();
        assert!(add.table.rules.is_empty());
        assert!(add.table.warn_on_multiple_matches);
    }
}

#[test]
fn merge_directives_leave_nothing_to_filter() {
    let text = "# only for merging\n\
                set \"a\" \"b\" \"c\"\n\
                source auto\n\
                transform \"d\" \"e\" no-such-transform x=\"y\"\n\
                remove regex \"(\" \"[\"\n\
                remove section \"s\"\n\n";
    let config = compile_for_add(text).unwrap();
    assert_eq!(config.source, Source::AutoEnv);
    assert!(config.table.rules.is_empty());
    let input = "[a]\nb=1\n[d]\ne=2\n[s]\nx=3";
    let out = chezmoi_modify_manager::capture::internal_filter(text, input.as_bytes()).unwrap();
    assert_eq!(String::from_utf8(out).unwrap(), input);
}

#[test]
fn merging_passes_over_capture_directives() {
    let pairs = [
        (
            "source auto\nadd:hide \"a\" \"b\"\nignore \"c\" \"d\"\nadd:remove section \"s\"\nset \"x\" \"y\" \"z\"\n",
            "source auto\n\nignore \"c\" \"d\"\n\nset \"x\" \"y\" \"z\"\n",
        ),
        (
            "add:hide regex \"(\" \"[\"\nsource auto\nremove regex \"a\" \"b\"\n",
            "\nsource auto\nremove regex \"a\" \"b\"\n",
        ),
    ];
    for (with, without) in pairs {
        let a = compile_for_merge(with).unwrap();
        let b = compile_for_merge(without).unwrap();
        assert_eq!(a.source, b.source);
        assert_eq!(a.table, b.table);
    }
    // The same error, too.
    let a = compile_for_merge("add:hide \"a\" \"b\"\nsource auto\nadd:remove \"a\" \"b\"\nsource auto");
    let b = compile_for_merge("\nsource auto\n\nsource auto");
    assert_eq!(a.err(), Some(CompileError::DuplicateSource));
    assert_eq!(b.err(), Some(CompileError::DuplicateSource));
}

#[test]
fn capturing_takes_ignore_for_add_remove() {
    let with_ignore = "source auto\nignore section \"s\"\nignore \"a\" \"b\"\nignore regex \"r.*\" \"k.*\"\nadd:hide \"h\" \"k\"\n";
    let with_add_remove = "source auto\nadd:remove section \"s\"\nadd:remove \"a\" \"b\"\nadd:remove regex \"r.*\" \"k.*\"\nadd:hide \"h\" \"k\"\n";
    let a = compile_for_add(with_ignore).unwrap();
    let b = compile_for_add(with_add_remove).unwrap();
    assert_eq!(a.source, b.source);
    assert_eq!(a.table, b.table);
    assert_eq!(
        a.table.rules,
        vec![
            FilterRule::Section {
                section: "s".into(),
                action: CaptureAction::Remove
            },
            FilterRule::Literal {
                section: "a".into(),
                key: "b".into(),
                action: CaptureAction::Remove
            },
            FilterRule::Regex {
                section: "r.*".into(),
                key: "k.*".into(),
                action: CaptureAction::Remove
            },
            FilterRule::Literal {
                section: "h".into(),
                key: "k".into(),
                action: CaptureAction::Replace("HIDDEN")
            },
        ]
    );
}

#[test]
fn ignore_is_kept_when_merging_and_never_deleted() {
    let config =
        compile_for_merge("source auto\nignore section \"S\"\nignore \"T\" \"K\"\n").unwrap();
    assert_eq!(
        config.table.rules,
        vec![
            MergeRule::Section {
                section: "S".into(),
                action: SectionAction::Ignore
            },
            MergeRule::Literal {
                section: "T".into(),
                key: "K".into(),
                action: EntryAction::Ignore
            },
        ]
    );
}
