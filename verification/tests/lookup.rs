use chezmoi_modify_manager::config::{compile_directives_for_merge, compile_for_add, compile_for_merge};
use chezmoi_modify_manager::directive::{Directive, Matcher, TransformArgs};
use chezmoi_modify_manager::lookup::{
    entry_name_of, entry_pattern_of, find_rule, find_rule_with_hits, Found, RuleKey,
};
use chezmoi_modify_manager::table::{EntryAction, MergeRule};

#[test]
fn literal_directive_wins_over_regex_directive() {
    // Whichever comes first.
    for text in [
        "source auto\nignore \"s\" \"key\"\nremove regex \"s\" \"k.*\"\n",
        "source auto\nremove regex \"s\" \"k.*\"\nignore \"s\" \"key\"\n",
    ] {
        let config = compile_for_merge(text).unwrap();
        let found = config.table.find_action("s", "key").unwrap();
        assert_eq!(found.hits, 0);
        let rule = &config.table.rules[found.rule.unwrap()];
        assert_eq!(
            *rule,
            MergeRule::Literal {
                section: "s".into(),
                key: "key".into(),
                action: EntryAction::Ignore
            }
        );
        assert!(!config.table.reports(&found));
        // Another key of the section falls to the pattern.
        let found = config.table.find_action("s", "kxy").unwrap();
        assert_eq!(found.hits, 1);
        assert!(matches!(
            config.table.rules[found.rule.unwrap()],
            MergeRule::Regex { .. }
        ));
        // And one that nothing matches finds nothing.
        assert_eq!(
            config.table.find_action("s", "zzz"),
            Some(Found { rule: None, hits: 0 })
        );
    }
}

#[test]
fn of_two_exact_rules_the_last_stands() {
    let config =
        compile_for_merge("source auto\nignore \"s\" \"k\"\nset \"s\" \"k\" \"v\"\n").unwrap();
    let found = config.table.find_action("s", "k").unwrap();
    assert_eq!(found.rule, Some(1));
    let config = compile_for_add("source auto\nadd:hide \"s\" \"k\"\nadd:remove \"s\" \"k\"\n")
        .unwrap();
    assert_eq!(config.table.find_action("s", "k").unwrap().rule, Some(1));
}

#[test]
fn section_rule_comes_before_all() {
    let config = compile_for_merge(
        "source auto\nignore \"s\" \"k\"\nignore regex \"s\" \"k\"\nremove section \"s\"\n",
    )
    .unwrap();
    assert_eq!(
        config.table.find_action("s", "k"),
        Some(Found { rule: Some(2), hits: 0 })
    );
    assert_eq!(
        config.table.find_action("s", "other"),
        Some(Found { rule: Some(2), hits: 0 })
    );
}

fn two_overlapping_transforms(quiet: bool) -> Vec<Directive> {
    let mut directives = vec![Directive::SourceAuto];
    if quiet {
        directives.push(Directive::NoWarnMultipleKeyMatches);
    }
    directives.push(Directive::Transform(
        Matcher::Regex("s".into(), "ke.*".into()),
        "kde-shortcut".into(),
        TransformArgs::new(),
    ));
    directives.push(Directive::Transform(
        Matcher::Regex("s".into(), "k.*".into()),
        "unsorted-list".into(),
        TransformArgs::new().with("separator".into(), ",".into()),
    ));
    directives
}

#[test]
fn ambiguous_regex_match() {
    // Without the directive the overlap is reported when the key is looked up.
    let config = compile_directives_for_merge(&two_overlapping_transforms(false)).unwrap();
    let found = config.table.find_action("s", "key").unwrap();
    assert_eq!(found.hits, 2);
    assert!(config.table.reports(&found));
    let first = found.rule.unwrap();
    assert!(matches!(
        &config.table.rules[first],
        MergeRule::Regex { key, .. } if key == "ke.*"
    ));
    // With it, nothing is reported, and the first pattern still stands.
    let config = compile_directives_for_merge(&two_overlapping_transforms(true)).unwrap();
    let found = config.table.find_action("s", "key").unwrap();
    assert_eq!(found.hits, 2);
    assert!(!config.table.reports(&found));
    assert_eq!(found.rule, Some(first));
    // A key that only one of them matches is not ambiguous.
    let found = config.table.find_action("s", "kxy").unwrap();
    assert_eq!(found.hits, 1);
    assert!(!config.table.reports(&found));
}

#[test]
fn keys_and_patterns() {
    assert_eq!(entry_name_of("sec", "key"), "sec\0key");
    assert_eq!(entry_pattern_of("s.*", "k|j"), "(?:s.*)\0(?:k|j)");
    let keys = vec![
        RuleKey::Pattern("(".to_string()),
        RuleKey::Entry("s\0k".to_string()),
    ];
    // The patterns are not needed for an entry that is named exactly.
    assert_eq!(
        find_rule(&keys, "s", "k"),
        Some(Found { rule: Some(1), hits: 0 })
    );
    // Where they are needed and do not compile, nothing can be said.
    assert_eq!(find_rule(&keys, "s", "other"), None);
    let config = compile_for_merge("source auto\nignore regex \"a\" \"b\"\nset \"s\" \"k\" \"v\"\n")
        .unwrap();
    assert_eq!(
        config.table.keys(),
        vec![
            RuleKey::Pattern("(?:a)\0(?:b)".to_string()),
            RuleKey::Entry("s\0k".to_string())
        ]
    );
}

#[test]
fn lookup_with_given_matches() {
    let keys = vec![
        RuleKey::Pattern("x0".to_string()),
        RuleKey::Section("sec".to_string()),
        RuleKey::Pattern("x1".to_string()),
        RuleKey::Entry("s\0k".to_string()),
        RuleKey::Pattern("x2".to_string()),
        RuleKey::Entry("s\0k".to_string()),
    ];
    // The second and the third pattern match: the second stands.
    assert_eq!(
        find_rule_with_hits(&keys, "s", "other", &vec![1, 2]),
        Found { rule: Some(2), hits: 2 }
    );
    assert_eq!(
        find_rule_with_hits(&keys, "s", "other", &vec![2]),
        Found { rule: Some(4), hits: 1 }
    );
    assert_eq!(
        find_rule_with_hits(&keys, "s", "other", &vec![]),
        Found { rule: None, hits: 0 }
    );
    // The last rule for the exact entry stands, whatever matches.
    assert_eq!(
        find_rule_with_hits(&keys, "s", "k", &vec![0, 1, 2]),
        Found { rule: Some(5), hits: 0 }
    );
    // And the rule for the section before all.
    assert_eq!(
        find_rule_with_hits(&keys, "sec", "k", &vec![0]),
        Found { rule: Some(1), hits: 0 }
    );
}
