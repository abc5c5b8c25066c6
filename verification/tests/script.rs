use chezmoi_modify_manager::script::{template, ScriptStyle, IN_PATH, IN_SRC};
use chezmoi_modify_manager::version::ChezmoiVersion;
use bpaf::short;
use bpaf::Parser;
use chezmoi_modify_manager::Style;

fn complete_style(input: &String) -> Vec<(&'static str, Option<&'static str>)> {
    Style::all()
        .into_iter()
        .filter(|x| x.completes(input))
        .map(|x| (x.name(), Some(x.documentation())))
        .collect()
}

/// The option that sets the style, made of what the library gives for it.
fn style() -> impl Parser<Style> {
    short('t')
        .long("style")
        .help(Style::help_message().as_str())
        .argument::<String>("STYLE")
        .complete(complete_style)
        .parse(|x| Style::from_name(&x).ok_or("Matching variant not found"))
        .fallback(Style::Auto)
}

#[test]
fn check_options() {
    style().to_options().check_invariants(false);
    // The option takes each name, and falls back to `auto`.
    let options = style().to_options();
    assert_eq!(options.run_inner(&["--style", "path-tmpl"]).unwrap(), Style::InPathTmpl);
    assert_eq!(options.run_inner(&["-t", "src"]).unwrap(), Style::InSrc);
    assert_eq!(options.run_inner(&[]).unwrap(), Style::Auto);
    assert!(options.run_inner(&["--style", "nope"]).is_err());
}

#[test]
fn style_names_are_told_apart() {
    // Every style can be chosen by its name, and by no other.
    for style in Style::all() {
        assert_eq!(Style::from_name(style.name()), Some(style));
        assert!(!style.documentation().is_empty());
    }
    assert_eq!(Style::from_name("auto"), Some(Style::Auto));
    assert_eq!(Style::from_name("path"), Some(Style::InPath));
    assert_eq!(Style::from_name("path-tmpl"), Some(Style::InPathTmpl));
    assert_eq!(Style::from_name("src"), Some(Style::InSrc));
    assert_eq!(Style::from_name("Path"), None);
    assert_eq!(Style::from_name(""), None);
}

#[test]
fn auto_style_goes_by_version() {
    let old = ChezmoiVersion(2, 46, 0);
    let new = ChezmoiVersion(2, 46, 1);
    assert_eq!(Style::Auto.resolve(&old), ScriptStyle::InPathTmpl);
    assert_eq!(Style::Auto.resolve(&new), ScriptStyle::InPath);
    assert_eq!(Style::InPath.resolve(&old), ScriptStyle::InPath);
    assert_eq!(Style::InSrc.resolve(&new), ScriptStyle::InSrc);
    assert_eq!(ScriptStyle::InPath.shebang(), IN_PATH);
    assert_eq!(ScriptStyle::InPathTmpl.shebang(), IN_PATH);
    assert_eq!(ScriptStyle::InSrc.shebang(), IN_SRC);
}

#[test]
fn template_for_new_tool() {
    let text = template(IN_PATH, &ChezmoiVersion(2, 46, 1));
    assert_eq!(
        text,
        "#!/usr/bin/env chezmoi_modify_manager\n\nsource auto\n\n# Add your ignores and transforms here\n#ignore section \"my-section\"\n#ignore \"exact section name without brackets\" \"exact key name\"\n#ignore regex \"section.*\" \"key_prefix_.*\"\n#transform \"section\" \"key\" transform_name read=\"the docs\" for=\"more detail on transforms\"\n"
    );
}

#[test]
fn template_for_old_tool() {
    let text = template(IN_SRC, &ChezmoiVersion(2, 40, 0));
    assert!(text.starts_with(
        "#!{{ .chezmoi.sourceDir }}/.utils/chezmoi_modify_manager-{{ .chezmoi.os }}-{{ .chezmoi.arch }}\n\n# This is needed"
    ));
    assert!(text.contains(
        "\nsource \"{{ .chezmoi.sourceDir }}/{{ .chezmoi.sourceFile | trimSuffix \".tmpl\" | replace \"modify_\" \"\" }}.src.ini\"\n\n# Add your ignores"
    ));
}

#[test]
fn style_help_and_completion() {
    assert_eq!(
        Style::help_message(),
        "Style of newly generated modify script [auto (default), path, path-tmpl, src]"
    );
    assert_eq!(
        Style::Auto.footer(),
        " * auto: Selects between path and path-tmpl based on detected chezmoi version\n"
    );
    assert_eq!(
        Style::InSrc.footer(),
        " * src: Program is in .utils of chezmoi source state\n   (modify_ script is always templated)\n"
    );
    let typed = |input: &str| -> Vec<&'static str> {
        Style::all()
            .into_iter()
            .filter(|s| s.completes(input))
            .map(|s| s.name())
            .collect()
    };
    assert_eq!(typed(""), vec!["auto", "path", "path-tmpl", "src"]);
    assert_eq!(typed("pa"), vec!["path", "path-tmpl"]);
    assert_eq!(typed("path-"), vec!["path-tmpl"]);
    assert_eq!(typed("x"), Vec::<&str>::new());
    assert_eq!(typed("autos"), Vec::<&str>::new());
}
