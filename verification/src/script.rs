//! The style of a directive script and the text of a newly made one.

use crate::version::{older, spec_auto_source_version, ChezmoiVersion};
use vstd::prelude::*;
use vstd::string::StringExecFns;

verus! {

/// How a newly made directive script calls the program.
#[derive(Debug, Eq, PartialEq, Clone, Copy, Structural)]
pub enum Style {
    /// One of the next two, by the version of the tracking tool.
    Auto,
    /// The program is looked up in `PATH`; the script is no template.
    InPath,
    /// The program is looked up in `PATH`; the script is a template.
    InPathTmpl,
    /// The program lies in the source state; the script is always a template.
    InSrc,
}

/// A [`Style`] once `Auto` has been decided.
#[derive(Debug, Eq, PartialEq, Clone, Copy, Structural)]
pub enum ScriptStyle {
    InPath,
    InPathTmpl,
    InSrc,
}

/// What stands after `#!` when the program is looked up in `PATH`.
pub const IN_PATH: &'static str = "/usr/bin/env chezmoi_modify_manager";

/// What stands after `#!` when the program lies in the source state.
pub const IN_SRC: &'static str =
    "{{ .chezmoi.sourceDir }}/.utils/chezmoi_modify_manager-{{ .chezmoi.os }}-{{ .chezmoi.arch }}";

/// The source line of a new script under a tool that knows `source auto`.
pub const SOURCE_NEW: &'static str = "source auto";

/// The source lines of a new script under an older tool, which has to be told
/// where the tracked copy is.
pub const SOURCE_OLD: &'static str =
    "# This is needed to figure out where the source file is on older Chezmoi versions.\n# See https://github.com/twpayne/chezmoi/issues/2934\nsource \"{{ .chezmoi.sourceDir }}/{{ .chezmoi.sourceFile | trimSuffix \".tmpl\" | replace \"modify_\" \"\" }}.src.ini\"";

/// The first two characters of a script.
pub const SHEBANG: &'static str = "#!";

/// What parts the first line of a script from its source line.
pub const BLANK_LINE: &'static str = "\n\n";

/// The rest of a new script: examples of directives, each commented out.
pub const SKELETON: &'static str =
    "\n\n# Add your ignores and transforms here\n#ignore section \"my-section\"\n#ignore \"exact section name without brackets\" \"exact key name\"\n#ignore regex \"section.*\" \"key_prefix_.*\"\n#transform \"section\" \"key\" transform_name read=\"the docs\" for=\"more detail on transforms\"\n";

/// The name by which a style is chosen.
pub open spec fn style_name(style: Style) -> Seq<char> {
    match style {
        Style::Auto => "auto"@,
        Style::InPath => "path"@,
        Style::InPathTmpl => "path-tmpl"@,
        Style::InSrc => "src"@,
    }
}

/// What a user is told of a style.
pub open spec fn style_documentation(style: Style) -> Seq<char> {
    match style {
        Style::Auto => "Selects between path and path-tmpl based on detected chezmoi version"@,
        Style::InPath =>
            "chezmoi_modify_manager is searched for in PATH\n   (modify_ script is not templated for best performance)\n"@,
        Style::InPathTmpl =>
            "chezmoi_modify_manager is searched for in PATH\n   (modify_ script is templated for your convenience)\n"@,
        Style::InSrc =>
            "Program is in .utils of chezmoi source state\n   (modify_ script is always templated)\n"@,
    }
}

/// How a style is listed among the choices: by its name, with a mark on the
/// one that is taken where none is named.
pub open spec fn style_choice(style: Style) -> Seq<char> {
    if style == Style::Auto {
        style_name(style) + " (default)"@
    } else {
        style_name(style)
    }
}

/// What the user is told of the option that sets the style.
pub open spec fn style_help_text() -> Seq<char> {
    "Style of newly generated modify script ["@ + style_choice(Style::Auto) + ", "@ + style_choice(
        Style::InPath,
    ) + ", "@ + style_choice(Style::InPathTmpl) + ", "@ + style_choice(Style::InSrc) + "]"@
}

/// The line of the help that explains one style. It always ends in a line
/// feed.
pub open spec fn footer_line(style: Style) -> Seq<char> {
    let text = " * "@ + style_name(style) + ": "@ + style_documentation(style);
    if text.last() == '\n' {
        text
    } else {
        text.push('\n')
    }
}

/// Whether `name` starts with `typed`.
pub open spec fn completes(name: Seq<char>, typed: Seq<char>) -> bool {
    typed.len() <= name.len() && name.subrange(0, typed.len() as int) == typed
}

/// The style that a request for `style` comes to under `version`: `Auto`
/// means a template under a tool too old for `source auto`, and a plain
/// script otherwise.
pub open spec fn resolved_style(style: Style, version: ChezmoiVersion) -> ScriptStyle {
    match style {
        Style::Auto => if older(version, spec_auto_source_version()) {
            ScriptStyle::InPathTmpl
        } else {
            ScriptStyle::InPath
        },
        Style::InPath => ScriptStyle::InPath,
        Style::InPathTmpl => ScriptStyle::InPathTmpl,
        Style::InSrc => ScriptStyle::InSrc,
    }
}

/// The style of script that a style asks for by itself; none for `Auto`,
/// which the version of the tracking tool has yet to decide.
pub open spec fn settled_style(style: Style) -> Option<ScriptStyle> {
    match style {
        Style::Auto => None,
        Style::InPath => Some(ScriptStyle::InPath),
        Style::InPathTmpl => Some(ScriptStyle::InPathTmpl),
        Style::InSrc => Some(ScriptStyle::InSrc),
    }
}

/// The style that asks for the given style of script.
pub open spec fn style_of(style: ScriptStyle) -> Style {
    match style {
        ScriptStyle::InPath => Style::InPath,
        ScriptStyle::InPathTmpl => Style::InPathTmpl,
        ScriptStyle::InSrc => Style::InSrc,
    }
}

/// What stands after `#!` in a script of the given style.
pub open spec fn shebang_path(style: ScriptStyle) -> Seq<char> {
    match style {
        ScriptStyle::InPath => IN_PATH@,
        ScriptStyle::InPathTmpl => IN_PATH@,
        ScriptStyle::InSrc => IN_SRC@,
    }
}

/// The source lines of a new script under `version`.
pub open spec fn source_lines(version: ChezmoiVersion) -> Seq<char> {
    if older(version, spec_auto_source_version()) {
        SOURCE_OLD@
    } else {
        SOURCE_NEW@
    }
}

/// The text of a new script: `#!` and the program's path on the first line,
/// a blank line, the source lines, a blank line and the skeleton.
pub open spec fn template_text(path: Seq<char>, version: ChezmoiVersion) -> Seq<char> {
    SHEBANG@ + path + BLANK_LINE@ + source_lines(version) + SKELETON@
}

impl Style {
    /// The name by which this style is chosen.
    pub fn name(self) -> (name: &'static str)
        ensures
            name@ == style_name(self),
    {
        match self {
            Style::Auto => "auto",
            Style::InPath => "path",
            Style::InPathTmpl => "path-tmpl",
            Style::InSrc => "src",
        }
    }

    /// What a user is told of this style.
    pub fn documentation(self) -> (text: &'static str)
        ensures
            text@ == style_documentation(self),
    {
        match self {
            Style::Auto => "Selects between path and path-tmpl based on detected chezmoi version",
            Style::InPath =>
                "chezmoi_modify_manager is searched for in PATH\n   (modify_ script is not templated for best performance)\n",
            Style::InPathTmpl =>
                "chezmoi_modify_manager is searched for in PATH\n   (modify_ script is templated for your convenience)\n",
            Style::InSrc =>
                "Program is in .utils of chezmoi source state\n   (modify_ script is always templated)\n",
        }
    }

    /// The styles, in the order in which they are listed to a user.
    pub fn all() -> (styles: Vec<Style>)
        ensures
            styles@ == seq![Style::Auto, Style::InPath, Style::InPathTmpl, Style::InSrc],
    {
        vec![Style::Auto, Style::InPath, Style::InPathTmpl, Style::InSrc]
    }

    /// The style of the given name.
    pub fn from_name(name: &str) -> (style: Option<Style>)
        ensures
            match style {
                Some(s) => name@ == style_name(s),
                None => forall|s: Style| name@ != style_name(s),
            },
    {
        if name.eq("auto") {
            Some(Style::Auto)
        } else if name.eq("path") {
            Some(Style::InPath)
        } else if name.eq("path-tmpl") {
            Some(Style::InPathTmpl)
        } else if name.eq("src") {
            Some(Style::InSrc)
        } else {
            None
        }
    }

    fn add_choice(self, text: &mut String)
        ensures
            final(text)@ == old(text)@ + style_choice(self),
    {
        let ghost start = text@;
        text.append(self.name());
        match self {
            Style::Auto => {
                text.append(" (default)");
                assert(text@ =~= start + style_choice(self));
            },
            _ => {},
        }
    }

    /// What the user is told of the option that sets the style.
    pub fn help_message() -> (text: String)
        ensures
            text@ == style_help_text(),
    {
        let mut text = String::from_str("Style of newly generated modify script [");
        Style::Auto.add_choice(&mut text);
        text.append(", ");
        Style::InPath.add_choice(&mut text);
        text.append(", ");
        Style::InPathTmpl.add_choice(&mut text);
        text.append(", ");
        Style::InSrc.add_choice(&mut text);
        text.append("]");
        text
    }

    /// The line of the help that explains this style.
    pub fn footer(self) -> (text: String)
        ensures
            text@ == footer_line(self),
    {
        let mut text = String::from_str(" * ");
        text.append(self.name());
        text.append(": ");
        match self {
            Style::Auto => {
                text.append(self.documentation());
                proof {
                    reveal_strlit(
                        "Selects between path and path-tmpl based on detected chezmoi version",
                    );
                }
                text.push('\n');
            },
            Style::InPath => {
                text.append(self.documentation());
                proof {
                    reveal_strlit(
                        "chezmoi_modify_manager is searched for in PATH\n   (modify_ script is not templated for best performance)\n",
                    );
                }
            },
            Style::InPathTmpl => {
                text.append(self.documentation());
                proof {
                    reveal_strlit(
                        "chezmoi_modify_manager is searched for in PATH\n   (modify_ script is templated for your convenience)\n",
                    );
                }
            },
            Style::InSrc => {
                text.append(self.documentation());
                proof {
                    reveal_strlit(
                        "Program is in .utils of chezmoi source state\n   (modify_ script is always templated)\n",
                    );
                }
            },
        }
        text
    }

    /// Whether the name of this style starts with what was typed.
    pub fn completes(self, typed: &str) -> (r: bool)
        ensures
            r == completes(style_name(self), typed@),
    {
        let name = crate::text::chars_of(self.name());
        let n: usize = typed.unicode_len();
        if n > name.len() {
            return false;
        }
        let r = crate::text::starts_with_at(name.as_slice(), 0, typed);
        r
    }

    /// The style of script that this style asks for by itself; none for
    /// `Auto`.
    pub fn settled(self) -> (style: Option<ScriptStyle>)
        ensures
            style == settled_style(self),
    {
        match self {
            Style::Auto => None,
            Style::InPath => Some(ScriptStyle::InPath),
            Style::InPathTmpl => Some(ScriptStyle::InPathTmpl),
            Style::InSrc => Some(ScriptStyle::InSrc),
        }
    }

    /// Decides what `Auto` means under `version`.
    pub fn resolve(self, version: &ChezmoiVersion) -> (style: ScriptStyle)
        ensures
            style == resolved_style(self, *version),
    {
        match self {
            Style::Auto => if version.older_than(&crate::version::auto_source_version()) {
                ScriptStyle::InPathTmpl
            } else {
                ScriptStyle::InPath
            },
            Style::InPath => ScriptStyle::InPath,
            Style::InPathTmpl => ScriptStyle::InPathTmpl,
            Style::InSrc => ScriptStyle::InSrc,
        }
    }
}

impl ScriptStyle {
    /// The style that asks for this style of script.
    pub fn as_style(self) -> (style: Style)
        ensures
            style == style_of(self),
    {
        match self {
            ScriptStyle::InPath => Style::InPath,
            ScriptStyle::InPathTmpl => Style::InPathTmpl,
            ScriptStyle::InSrc => Style::InSrc,
        }
    }

    /// What stands after `#!` in a script of this style.
    pub fn shebang(self) -> (path: &'static str)
        ensures
            path@ == shebang_path(self),
    {
        match self {
            ScriptStyle::InPath => IN_PATH,
            ScriptStyle::InPathTmpl => IN_PATH,
            ScriptStyle::InSrc => IN_SRC,
        }
    }
}

/// The text of a new script that calls the program at `path`, for a tracking
/// tool of the given version.
pub fn template(path: &str, version: &ChezmoiVersion) -> (text: String)
    ensures
        text@ == template_text(path@, *version),
{
    let mut text = String::from_str(SHEBANG);
    text.append(path);
    text.append(BLANK_LINE);
    if version.older_than(&crate::version::auto_source_version()) {
        text.append(SOURCE_OLD);
    } else {
        text.append(SOURCE_NEW);
    }
    text.append(SKELETON);
    text
}

} // verus!
