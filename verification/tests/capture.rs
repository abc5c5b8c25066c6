use chezmoi_modify_manager::capture::{
    ensure_final_newline, internal_filter, join_lines, prepare_data, CaptureError,
};
use chezmoi_modify_manager::config::CompileError;

struct FilterTest {
    cfg: &'static str,
    input: &'static str,
    expected: &'static str,
}

const FILTER_TESTS: &[FilterTest] = &[
    FilterTest {
        cfg: r#"source "{{ .chezmoi.sourceDir }}/{{ .chezmoi.sourceFile | trimSuffix ".tmpl" | replace "modify_" "" }}.src.ini"

add:hide "a" "b"
add:remove "a" "c"
ignore "quux" "e"
"#,
        input: "[a]\nb=foo\nc=bar\nd=quux\n\n[quux]\ne=f\ng=h\n",
        expected: "[a]\nb=HIDDEN\nd=quux\n\n[quux]\ng=h\n",
    },
    FilterTest {
        cfg: r#"source "{{ .chezmoi.sourceDir }}/{{ .chezmoi.sourceFile | trimSuffix ".tmpl" | replace "modify_" "" }}.src.ini"

{{ if (chezmoi templating) }}
set "a" "b" "c"
{{ endif }}
add:remove "a" "b"
"#,
        input: "[a]\nb=c\nd=e\n",
        expected: "[a]\nd=e\n",
    },
];

#[test]
fn check_filtering() {
    for test_case in FILTER_TESTS {
        let result = internal_filter(test_case.cfg, test_case.input.as_bytes());
        let result = result.unwrap();
        assert_eq!(
            String::from_utf8(result).unwrap().trim_end(),
            test_case.expected.trim_end()
        );
    }
}

#[test]
fn managed_readd_hides_and_keeps() {
    let script = "source auto\nadd:hide \"a\" \"b\"\n";
    let live = b"[a]\nb=secret\nc=d".to_vec();
    let written = prepare_data(Some(script), live).unwrap();
    assert_eq!(String::from_utf8(written).unwrap(), "[a]\nb=HIDDEN\nc=d\n");
}

#[test]
fn fresh_add_gets_one_final_newline() {
    let written = prepare_data(None, b"[a]\nb=c".to_vec()).unwrap();
    assert_eq!(written, b"[a]\nb=c\n");
    let again = prepare_data(None, written.clone()).unwrap();
    assert_eq!(again, written);
    assert_eq!(ensure_final_newline(Vec::new()), b"\n");
    assert_eq!(ensure_final_newline(b"\n".to_vec()), b"\n");
    assert_eq!(ensure_final_newline(b"a\n\n".to_vec()), b"a\n\n");
    assert_eq!(ensure_final_newline(b"a\r".to_vec()), b"a\r\n");
}

#[test]
fn literal_rule_wins_over_pattern() {
    let script = "source auto\nadd:remove regex \"a\" \"b.*\"\nadd:hide \"a\" \"b\"\n";
    let out = internal_filter(script, b"[a]\nb=x\nbc=y\nd=z\n").unwrap();
    assert_eq!(String::from_utf8(out).unwrap(), "[a]\nb=HIDDEN\nd=z");
}

#[test]
fn first_pattern_wins_among_patterns() {
    let script = "source auto\nadd:hide regex \"a\" \"b.*\"\nadd:remove regex \"a\" \"bc.*\"\n";
    let out = internal_filter(script, b"[a]\nbcd=x\nd=z\n").unwrap();
    assert_eq!(String::from_utf8(out).unwrap(), "[a]\nbcd=HIDDEN\nd=z");
}

#[test]
fn filter_errors() {
    assert_eq!(
        internal_filter("add:hide \"a\" \"b\"\n", b"[a]\nb=c\n").err(),
        Some(CaptureError::Compile(CompileError::MissingSource))
    );
    assert_eq!(
        internal_filter("source auto\n", &[0xff, 0xfe]).err(),
        Some(CaptureError::NotUtf8)
    );
    assert_eq!(
        prepare_data(Some("source auto\nsource auto\n"), b"x".to_vec()).err(),
        Some(CaptureError::Compile(CompileError::DuplicateSource))
    );
}

#[test]
fn lines_are_joined_by_line_feeds() {
    assert_eq!(join_lines(&vec![]), "");
    assert_eq!(join_lines(&vec!["a".to_string()]), "a");
    assert_eq!(
        join_lines(&vec!["a".to_string(), "".to_string(), "b".to_string()]),
        "a\n\nb"
    );
}
