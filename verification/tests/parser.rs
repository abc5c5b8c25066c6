use chezmoi_modify_manager::directive::{Directive, Matcher, TransformArgs};
use chezmoi_modify_manager::grammar::Expected;
use chezmoi_modify_manager::parser::{
    matcher, offending_line, parse_config, source, transform, transform_arg, ParseError,
};
use chezmoi_modify_manager::quoted::{quoted_string, quoted_string_nl};

fn chars(text: &str) -> Vec<char> {
    text.chars().collect()
}

fn rest(input: &[char], pos: usize) -> String {
    input[pos..].iter().collect()
}

fn args(pairs: &[(&str, &str)]) -> TransformArgs {
    let mut out = TransformArgs::new();
    for (key, value) in pairs {
        out = out.with((*key).to_string(), (*value).to_string());
    }
    out
}

fn without_ws(directives: Vec<Directive>) -> Vec<Directive> {
    directives
        .into_iter()
        .filter(|v| *v != Directive::WS)
        .collect()
}

#[test]
fn check_quoted_string() {
    let input = chars("\"test \\\" \\\\input\"");
    let (out, end) = quoted_string(&input, 0).unwrap();
    assert_eq!(rest(&input, end), "");
    assert_eq!(out, "test \" \\input");

    let res = quoted_string(&chars("\"invalid"), 0);
    assert!(res.is_none());
}

#[test]
fn check_quoted_string_nl() {
    let input = chars("\"test \\\" \\\\input\"\n");
    let (out, end) = quoted_string_nl(&input, 0).unwrap();
    assert_eq!(rest(&input, end), "");
    assert_eq!(out, "test \" \\input");

    let input = chars("\"a \" b\"\n");
    let (out, end) = quoted_string_nl(&input, 0).unwrap();
    assert_eq!(rest(&input, end), "");
    assert_eq!(out, "a \" b");

    let res = quoted_string_nl(&chars("\"invalid"), 0);
    assert!(res.is_none());
}

#[test]
fn check_chezmoi_raw_source() {
    let text = format!(
        "{}{}",
        r#"source "{{ .chezmoi.sourceDir }}/{{ .chezmoi.sourceFile | trimSuffix ".tmpl" | replace "modify_" "" }}.src.ini""#,
        "\n"
    );
    let input = chars(&text);
    let (out, end) = source(&input, 0).unwrap();
    assert_eq!(rest(&input, end), "");
    assert!(
        matches!(out, Directive::Source(s) if s == r#"{{ .chezmoi.sourceDir }}/{{ .chezmoi.sourceFile | trimSuffix ".tmpl" | replace "modify_" "" }}.src.ini"#)
    );

    // Trailing WS should be OK too
    let text = format!(
        "{}{}",
        r#"source "{{ .chezmoi.sourceDir }}/{{ .chezmoi.sourceFile | trimSuffix ".tmpl" | replace "modify_" "" }}.src.ini"  "#,
        "\t  \n"
    );
    let input = chars(&text);
    let (out, end) = source(&input, 0).unwrap();
    assert_eq!(rest(&input, end), "");
    assert!(
        matches!(out, Directive::Source(s) if s == r#"{{ .chezmoi.sourceDir }}/{{ .chezmoi.sourceFile | trimSuffix ".tmpl" | replace "modify_" "" }}.src.ini"#)
    );
}

#[test]
fn check_matcher() {
    let input = chars("section \"my-section\"");
    let (out, end) = matcher(&input, 0).unwrap();
    assert_eq!(rest(&input, end), "");
    assert!(matches!(out, Matcher::Section(s) if s == "my-section"));

    let input = chars("\"my-section\" \"my-key\"");
    let (out, end) = matcher(&input, 0).unwrap();
    assert_eq!(rest(&input, end), "");
    assert!(matches!(out, Matcher::Literal(s, k) if s == "my-section" && k == "my-key"));

    let input = chars("regex \"my-section.*\" \"my-key.*\"");
    let (out, end) = matcher(&input, 0).unwrap();
    assert_eq!(rest(&input, end), "");
    assert!(matches!(out, Matcher::Regex(s, k) if s == "my-section.*" && k == "my-key.*"));
}

#[test]
fn check_transform_arg() {
    let input = chars("aaa=\"bbb\"");
    let (key, value, end) = transform_arg(&input, 0).unwrap();
    assert_eq!(rest(&input, end), "");
    assert_eq!(key, "aaa");
    assert_eq!(value, "bbb");
}

#[test]
fn check_transform() {
    let input = chars("transform regex \"s.*\" \"k.*\" transform-name arg1=\"a\" arg2=\"b\"");
    let (out, end) = transform(&input, 0).unwrap();

    assert_eq!(rest(&input, end), "");
    assert_eq!(
        out,
        Directive::Transform(
            Matcher::Regex("s.*".into(), "k.*".into()),
            "transform-name".into(),
            args(&[("arg1", "a"), ("arg2", "b")]),
        )
    );
}

#[test]
fn check_transform_no_args() {
    let input = chars("transform regex \"s.*\" \"k.*\" transform-name");
    let (out, end) = transform(&input, 0).unwrap();

    assert_eq!(rest(&input, end), "");
    assert_eq!(
        out,
        Directive::Transform(
            Matcher::Regex("s.*".into(), "k.*".into()),
            "transform-name".into(),
            TransformArgs::new(),
        )
    );
}

const FULL_EXAMPLE: &str = r#"#!/path
source auto

ignore section "c"
ignore "a" "b"
transform "d" "e" unsorted-list separator=","
transform "f g" "h" keyring service="srv" user="usr"
transform "a" "b" kde-shortcut

ignore regex "a.*" "b.*"
transform regex "d.*" "e.*" kde-shortcut
# Random comment

# Test adding
add:hide "f g" "h"
add:remove regex "quux.*" "eh?"
add:remove section "very secret"
add:hide section "somewhat secret"
"#;

#[test]
fn test_parse() {
    let out = parse_config(FULL_EXAMPLE).unwrap();

    // Get rid of whitespace, we don't care about those
    let out = without_ws(out);

    assert_eq!(
        out,
        vec![
            Directive::SourceAuto,
            Directive::Ignore(Matcher::Section("c".into())),
            Directive::Ignore(Matcher::Literal("a".into(), "b".into())),
            Directive::Transform(
                Matcher::Literal("d".into(), "e".into()),
                "unsorted-list".into(),
                args(&[("separator", ",")])
            ),
            Directive::Transform(
                Matcher::Literal("f g".into(), "h".into()),
                "keyring".into(),
                args(&[("service", "srv"), ("user", "usr")])
            ),
            Directive::Transform(
                Matcher::Literal("a".into(), "b".into()),
                "kde-shortcut".into(),
                TransformArgs::new()
            ),
            Directive::Ignore(Matcher::Regex("a.*".into(), "b.*".into())),
            Directive::Transform(
                Matcher::Regex("d.*".into(), "e.*".into()),
                "kde-shortcut".into(),
                TransformArgs::new()
            ),
            Directive::AddHide(Matcher::Literal("f g".into(), "h".into())),
            Directive::AddRemove(Matcher::Regex("quux.*".into(), "eh?".into())),
            Directive::AddRemove(Matcher::Section("very secret".into())),
            Directive::AddHide(Matcher::Section("somewhat secret".into())),
        ]
    )
}

#[test]
fn test_parse_newlines() {
    let out = parse_config(
        "source auto\rsource \"foo\"\r\nignore section \"bar\"\nignore section \"quux\"\r\n",
    )
    .unwrap();

    // Get rid of whitespace, we don't care about those
    let out = without_ws(out);

    assert_eq!(
        out,
        vec![
            Directive::SourceAuto,
            Directive::Source("foo".into()),
            Directive::Ignore(Matcher::Section("bar".into())),
            Directive::Ignore(Matcher::Section("quux".into()))
        ]
    )
}

#[test]
fn parse_keeps_one_directive_for_each_line() {
    let out = parse_config("# c\n\nsource auto\n").unwrap();
    assert_eq!(
        out,
        vec![
            Directive::WS,
            Directive::WS,
            Directive::SourceAuto,
            Directive::WS
        ]
    );
    assert_eq!(parse_config("").unwrap(), vec![Directive::WS]);
}

#[test]
fn source_path_may_be_followed_by_a_directive() {
    let out = parse_config("source \"a.ini\"\nignore section \"s\"").unwrap();
    assert_eq!(
        out,
        vec![
            Directive::Source("a.ini".into()),
            Directive::Ignore(Matcher::Section("s".into()))
        ]
    );
}

#[test]
fn source_path_without_line_break() {
    let out = parse_config("source \"a.ini\"").unwrap();
    assert_eq!(out, vec![Directive::Source("a.ini".into())]);
    // Without a line break a quote ends the path.
    assert!(parse_config("source \"a\" \"b\"").is_err());
}

#[test]
fn comment_may_be_indented() {
    let out = parse_config("  \t# indented\nsource auto").unwrap();
    assert_eq!(out, vec![Directive::WS, Directive::SourceAuto]);
}

#[test]
fn template_fragment_is_passed_over() {
    let out = parse_config("{{ if (chezmoi templating) }}\nset \"a\" \"b\" \"c\"\n{{ endif }}").unwrap();
    assert_eq!(
        out,
        vec![
            Directive::WS,
            Directive::Setter {
                section: "a".into(),
                key: "b".into(),
                value: "c".into(),
                separator: None
            },
            Directive::WS
        ]
    );
    assert!(parse_config("{{ never closed").is_err());
}

#[test]
fn set_with_separator() {
    let out = parse_config("set \"a\" \"b\" \"c\" separator=\"=\"").unwrap();
    assert_eq!(
        out,
        vec![Directive::Setter {
            section: "a".into(),
            key: "b".into(),
            value: "c".into(),
            separator: Some("=".into())
        }]
    );
}

#[test]
fn escapes_are_resolved() {
    let input = chars("\"a\\\\b\\\"c\\nd\"");
    let (out, end) = quoted_string(&input, 0).unwrap();
    assert_eq!(end, input.len());
    assert_eq!(out, "a\\b\"c\nd");
    // Any other escape is refused.
    assert!(quoted_string(&chars("\"a\\tb\""), 0).is_none());
    // The empty string.
    let (out, end) = quoted_string(&chars("\"\" x"), 0).unwrap();
    assert_eq!((out.as_str(), end), ("", 2));
}

#[test]
fn transform_takes_no_section_matcher() {
    assert!(transform(&chars("transform section \"a\" name"), 0).is_none());
    assert!(parse_config("source auto\ntransform section \"a\" name").is_err());
}

#[test]
fn transform_arguments_last_wins() {
    let input = chars("transform \"s\" \"k\" t a=\"1\" b=\"2\" a=\"3\"");
    let (out, end) = transform(&input, 0).unwrap();
    assert_eq!(end, input.len());
    match out {
        Directive::Transform(_, name, found) => {
            assert_eq!(name, "t");
            assert_eq!(found.len(), 2);
            assert_eq!(found.get("a").map(String::as_str), Some("3"));
            assert_eq!(found.get("b").map(String::as_str), Some("2"));
            assert_eq!(found.get("c"), None);
            assert_eq!(found, args(&[("a", "3"), ("b", "2")]));
        }
        other => panic!("unexpected directive {other:?}"),
    }
}

#[test]
fn errors_name_the_place() {
    // A line that is no directive.
    let e = parse_config("source auto\nbogus line\n").unwrap_err();
    assert_eq!(
        e,
        ParseError {
            offset: 12,
            line: 2,
            column: 1,
            expected: Expected::Directive
        }
    );
    // A directive with something after it.
    let e = parse_config("source auto\r\n\r\nignore section \"a\" x").unwrap_err();
    assert_eq!(
        e,
        ParseError {
            offset: 33,
            line: 3,
            column: 19,
            expected: Expected::LineEnd
        }
    );
    // A line of spaces only is no directive either.
    assert!(parse_config("source auto\n  \n").is_err());
}

#[test]
fn errors_come_with_their_line() {
    let text = "source auto\r\nignore section \"a\" x\nremove \"a\" \"b\"";
    let e = parse_config(text).unwrap_err();
    assert_eq!(offending_line(text, e.offset), "ignore section \"a\" x");
    assert_eq!(offending_line(text, 0), "source auto");
    assert_eq!(offending_line(text, 11), "source auto");
    assert_eq!(offending_line(text, 12), "");
    assert_eq!(offending_line(text, text.chars().count()), "remove \"a\" \"b\"");
    assert_eq!(offending_line(text, 1000), "");
    assert_eq!(offending_line("", 0), "");
}
