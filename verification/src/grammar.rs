//! The grammar of the directive language, as functions on sequences of
//! characters.
//!
//! Each function takes the whole input and a position in it, and says what
//! stands at that position: the value read and the position after it, or
//! `None`. The executable parsers in [`crate::parser`] are proved to compute
//! exactly these functions.

use crate::directive::{with_arg, DirectiveView, MatcherView};
use crate::quoted::{lemma_body_bounds, quoted, quoted_line, Closing};
use crate::text::{has_prefix_at, is_line_break, is_space, lemma_skip_spaces_bounds, skip_spaces, spaces};
use vstd::prelude::*;

verus! {

/// The first position at or after `pos` that holds a line break; the length
/// of `s` where there is none.
pub open spec fn line_end(s: Seq<char>, pos: int) -> int
    decreases s.len() - pos,
{
    if 0 <= pos < s.len() && !is_line_break(s[pos]) {
        line_end(s, pos + 1)
    } else {
        pos
    }
}

/// A line break at `pos`, `\r\n` counting as one: the position after it.
pub open spec fn line_break(s: Seq<char>, pos: int) -> Option<int> {
    if 0 <= pos < s.len() && s[pos] == '\r' {
        if pos + 1 < s.len() && s[pos + 1] == '\n' {
            Some(pos + 2)
        } else {
            Some(pos + 1)
        }
    } else if 0 <= pos < s.len() && s[pos] == '\n' {
        Some(pos + 1)
    } else {
        None
    }
}

/// A comment: `#` as the first character that is no space or tab, and all
/// that follows up to the end of the line.
pub open spec fn comment(s: Seq<char>, pos: int) -> Option<int> {
    let p = skip_spaces(s, pos);
    if 0 <= p < s.len() && s[p] == '#' {
        Some(line_end(s, p))
    } else {
        None
    }
}

/// The first position at or after `pos` where `}}` stands.
pub open spec fn closing_braces(s: Seq<char>, pos: int) -> Option<int>
    decreases s.len() - pos,
{
    if pos < 0 || pos + 2 > s.len() {
        None
    } else if s[pos] == '}' && s[pos + 1] == '}' {
        Some(pos)
    } else {
        closing_braces(s, pos + 1)
    }
}

/// A template fragment: `{{`, then anything up to and including the next
/// `}}`.
pub open spec fn template(s: Seq<char>, pos: int) -> Option<int> {
    if has_prefix_at(s, pos, "{{"@) {
        match closing_braces(s, pos + "{{"@.len()) {
            Some(q) => Some(q + 2),
            None => None,
        }
    } else {
        None
    }
}

/// The keyword `kw` and the spaces after it: the position of what follows.
pub open spec fn word(s: Seq<char>, pos: int, kw: Seq<char>) -> Option<int> {
    if has_prefix_at(s, pos, kw) {
        spaces(s, pos + kw.len())
    } else {
        None
    }
}

/// Two quoted strings with spaces between them.
pub open spec fn quoted_pair(s: Seq<char>, pos: int) -> Option<((Seq<char>, Seq<char>), int)> {
    match quoted(s, pos) {
        Some((first, at1)) => match spaces(s, at1) {
            Some(at2) => match quoted(s, at2) {
                Some((second, end)) => Some(((first, second), end)),
                None => None,
            },
            None => None,
        },
        None => None,
    }
}

/// `section "<name>"`.
pub open spec fn section_matcher(s: Seq<char>, pos: int) -> Option<(MatcherView, int)> {
    match word(s, pos, "section"@) {
        Some(p) => match quoted(s, p) {
            Some((name, end)) => Some((MatcherView::Section(name), end)),
            None => None,
        },
        None => None,
    }
}

/// `regex "<section pattern>" "<key pattern>"`.
pub open spec fn regex_matcher(s: Seq<char>, pos: int) -> Option<(MatcherView, int)> {
    match word(s, pos, "regex"@) {
        Some(p) => match quoted_pair(s, p) {
            Some(((section, key), end)) => Some((MatcherView::Regex(section, key), end)),
            None => None,
        },
        None => None,
    }
}

/// `"<section>" "<key>"`.
pub open spec fn literal_matcher(s: Seq<char>, pos: int) -> Option<(MatcherView, int)> {
    match quoted_pair(s, pos) {
        Some(((section, key), end)) => Some((MatcherView::Literal(section, key), end)),
        None => None,
    }
}

/// A matcher that selects single entries: the `regex` form, else the form of
/// two strings. This is what `transform` takes.
pub open spec fn key_matcher(s: Seq<char>, pos: int) -> Option<(MatcherView, int)> {
    match regex_matcher(s, pos) {
        Some(found) => Some(found),
        None => literal_matcher(s, pos),
    }
}

/// Any matcher: the `section` form first, then those of [`key_matcher`].
pub open spec fn matcher(s: Seq<char>, pos: int) -> Option<(MatcherView, int)> {
    match section_matcher(s, pos) {
        Some(found) => Some(found),
        None => key_matcher(s, pos),
    }
}

/// Whether `c` ends the name of a transform.
pub open spec fn ends_name(c: char) -> bool {
    is_space(c) || is_line_break(c)
}

/// The end of the transform name that starts at `pos`.
pub open spec fn name_end(s: Seq<char>, pos: int) -> int
    decreases s.len() - pos,
{
    if 0 <= pos < s.len() && !ends_name(s[pos]) {
        name_end(s, pos + 1)
    } else {
        pos
    }
}

/// Whether `c` ends the key of a transform argument.
pub open spec fn ends_key(c: char) -> bool {
    c == ' ' || c == '='
}

/// The end of the argument key that starts at `pos`.
pub open spec fn key_end(s: Seq<char>, pos: int) -> int
    decreases s.len() - pos,
{
    if 0 <= pos < s.len() && !ends_key(s[pos]) {
        key_end(s, pos + 1)
    } else {
        pos
    }
}

/// One argument of a transform, `key="value"`.
pub open spec fn argument(s: Seq<char>, pos: int) -> Option<((Seq<char>, Seq<char>), int)> {
    let e = key_end(s, pos);
    if pos < e < s.len() && s[e] == '=' {
        match quoted(s, e + 1) {
            Some((value, end)) => Some(((s.subrange(pos, e), value), end)),
            None => None,
        }
    } else {
        None
    }
}

/// The arguments that follow one that ended at `pos`, each after spaces,
/// added to `args`. Spaces that no argument follows are not taken.
pub open spec fn more_arguments(s: Seq<char>, pos: int, args: Seq<(Seq<char>, Seq<char>)>) -> (
    Seq<(Seq<char>, Seq<char>)>,
    int,
)
    decreases s.len() - pos,
    when 0 <= pos <= s.len()
    via more_arguments_decreases
{
    match spaces(s, pos) {
        Some(p) => match argument(s, p) {
            Some(((key, value), end)) => more_arguments(s, end, with_arg(args, key, value)),
            None => (args, pos),
        },
        None => (args, pos),
    }
}

#[via_fn]
proof fn more_arguments_decreases(s: Seq<char>, pos: int, args: Seq<(Seq<char>, Seq<char>)>) {
    lemma_skip_spaces_bounds(s, pos);
    if let Some(p) = spaces(s, pos) {
        lemma_argument_bounds(s, p);
    }
}

/// The arguments at `pos`, separated by spaces; none where no argument stands
/// there.
pub open spec fn arguments(s: Seq<char>, pos: int) -> (Seq<(Seq<char>, Seq<char>)>, int) {
    match argument(s, pos) {
        Some(((key, value), end)) => more_arguments(s, end, with_arg(Seq::empty(), key, value)),
        None => (Seq::empty(), pos),
    }
}

/// What follows the name of a transform: spaces and then arguments, or
/// nothing.
pub open spec fn trailing_arguments(s: Seq<char>, pos: int) -> (Seq<(Seq<char>, Seq<char>)>, int) {
    match spaces(s, pos) {
        Some(p) => arguments(s, p),
        None => (Seq::empty(), pos),
    }
}

/// `source auto`, or `source` and a quoted path. The path is first read to the
/// end of its line, so that it may hold quotes, and that form takes the line
/// break with it. Where the input ends without a line break the path is read
/// as a quoted string.
pub open spec fn source(s: Seq<char>, pos: int) -> Option<(DirectiveView, int)> {
    match word(s, pos, "source"@) {
        Some(p) => if has_prefix_at(s, p, "auto"@) {
            Some((DirectiveView::SourceAuto, p + "auto"@.len()))
        } else {
            match quoted_line(s, p) {
                Some((path, end)) => Some((DirectiveView::Source(path), end)),
                None => match quoted(s, p) {
                    Some((path, end)) => Some((DirectiveView::Source(path), end)),
                    None => None,
                },
            }
        },
        None => None,
    }
}

/// `ignore` and a matcher.
pub open spec fn ignore(s: Seq<char>, pos: int) -> Option<(DirectiveView, int)> {
    match word(s, pos, "ignore"@) {
        Some(p) => match matcher(s, p) {
            Some((m, end)) => Some((DirectiveView::Ignore(m), end)),
            None => None,
        },
        None => None,
    }
}

/// `remove` and a matcher.
pub open spec fn remove(s: Seq<char>, pos: int) -> Option<(DirectiveView, int)> {
    match word(s, pos, "remove"@) {
        Some(p) => match matcher(s, p) {
            Some((m, end)) => Some((DirectiveView::Remove(m), end)),
            None => None,
        },
        None => None,
    }
}

/// `add:remove` and a matcher.
pub open spec fn add_remove(s: Seq<char>, pos: int) -> Option<(DirectiveView, int)> {
    match word(s, pos, "add:remove"@) {
        Some(p) => match matcher(s, p) {
            Some((m, end)) => Some((DirectiveView::AddRemove(m), end)),
            None => None,
        },
        None => None,
    }
}

/// `add:hide` and a matcher.
pub open spec fn add_hide(s: Seq<char>, pos: int) -> Option<(DirectiveView, int)> {
    match word(s, pos, "add:hide"@) {
        Some(p) => match matcher(s, p) {
            Some((m, end)) => Some((DirectiveView::AddHide(m), end)),
            None => None,
        },
        None => None,
    }
}

/// `transform`, a matcher for entries, the name of the transform, and its
/// arguments.
pub open spec fn transform(s: Seq<char>, pos: int) -> Option<(DirectiveView, int)> {
    match word(s, pos, "transform"@) {
        Some(p) => match key_matcher(s, p) {
            Some((m, at1)) => match spaces(s, at1) {
                Some(at2) => if name_end(s, at2) > at2 {
                    let (args, end) = trailing_arguments(s, name_end(s, at2));
                    Some((DirectiveView::Transform(m, s.subrange(at2, name_end(s, at2)), args), end))
                } else {
                    None
                },
                None => None,
            },
            None => None,
        },
        None => None,
    }
}

/// The optional end of a `set` line: spaces and `separator="<text>"`.
pub open spec fn separator(s: Seq<char>, pos: int) -> Option<(Seq<char>, int)> {
    match spaces(s, pos) {
        Some(p) => if has_prefix_at(s, p, "separator="@) {
            quoted(s, p + "separator="@.len())
        } else {
            None
        },
        None => None,
    }
}

/// `set`, then section, key and value as three quoted strings, then
/// optionally the separator.
pub open spec fn set(s: Seq<char>, pos: int) -> Option<(DirectiveView, int)> {
    match word(s, pos, "set"@) {
        Some(p) => match quoted_pair(s, p) {
            Some(((section, key), at1)) => match spaces(s, at1) {
                Some(at2) => match quoted(s, at2) {
                    Some((value, at3)) => match separator(s, at3) {
                        Some((sep, end)) => Some(
                            (DirectiveView::Setter { section, key, value, separator: Some(sep) }, end),
                        ),
                        None => Some(
                            (DirectiveView::Setter { section, key, value, separator: None }, at3),
                        ),
                    },
                    None => None,
                },
                None => None,
            },
            None => None,
        },
        None => None,
    }
}

/// The directive at `pos`: the first of comment, template fragment, `source`,
/// `ignore`, `transform`, `set`, `remove`, `add:remove` and `add:hide` that
/// can be read there, and else the blank directive, which takes nothing.
pub open spec fn directive(s: Seq<char>, pos: int) -> (DirectiveView, int) {
    if let Some(end) = comment(s, pos) {
        (DirectiveView::WS, end)
    } else if let Some(end) = template(s, pos) {
        (DirectiveView::WS, end)
    } else if let Some(found) = source(s, pos) {
        found
    } else if let Some(found) = ignore(s, pos) {
        found
    } else if let Some(found) = transform(s, pos) {
        found
    } else if let Some(found) = set(s, pos) {
        found
    } else if let Some(found) = remove(s, pos) {
        found
    } else if let Some(found) = add_remove(s, pos) {
        found
    } else if let Some(found) = add_hide(s, pos) {
        found
    } else {
        (DirectiveView::WS, pos)
    }
}

/// Where the line after a directive starts, given the directive and the
/// position at which it ended: after the line break that stands there. A
/// source path that ran to the end of its line has taken `\r` or `\n` already;
/// of `\r\n` it leaves the `\n`, which is passed over here. `None` where the
/// directive is not followed by the end of its line.
pub open spec fn next_line(s: Seq<char>, d: DirectiveView, end: int) -> Option<int> {
    if d is Source && 0 < end <= s.len() && is_line_break(s[end - 1]) {
        if s[end - 1] == '\r' && end < s.len() && s[end] == '\n' {
            Some(end + 1)
        } else {
            Some(end)
        }
    } else {
        line_break(s, end)
    }
}

/// What reading directives line by line from some position gives.
pub struct Scan {
    /// The directives read, one for each line.
    pub directives: Seq<DirectiveView>,
    /// Where reading stopped: at the end of the last directive that no line
    /// break followed.
    pub stop: int,
    /// Whether that last directive was the blank one.
    pub blank: bool,
}

/// Reads directives from `pos` on, one on each line, until one is not
/// followed by a line break.
pub open spec fn scan(s: Seq<char>, pos: int) -> Scan
    decreases s.len() - pos,
    when 0 <= pos <= s.len()
    via scan_decreases
{
    let (d, end) = directive(s, pos);
    match next_line(s, d, end) {
        Some(next) => {
            let rest = scan(s, next);
            Scan { directives: seq![d] + rest.directives, stop: rest.stop, blank: rest.blank }
        },
        None => Scan { directives: seq![d], stop: end, blank: end == pos },
    }
}

#[via_fn]
proof fn scan_decreases(s: Seq<char>, pos: int) {
    lemma_directive_bounds(s, pos);
}

/// What the parser expected where it stopped.
#[derive(Clone, Copy, Debug, PartialEq, Eq, Structural)]
pub enum Expected {
    /// A directive: the line is none of the forms of the language.
    Directive,
    /// The end of the line: a directive was read and something follows it.
    LineEnd,
}

/// Whether the line break character at `i` ends a line: a line feed does, and
/// so does a carriage return that no line feed follows.
pub open spec fn ends_line(s: Seq<char>, i: int) -> bool {
    0 <= i < s.len() && (s[i] == '\n' || (s[i] == '\r' && !(i + 1 < s.len() && s[i + 1] == '\n')))
}

/// The number of lines that end before `offset`.
pub open spec fn lines_before(s: Seq<char>, offset: int) -> nat
    decreases offset,
{
    if offset <= 0 {
        0
    } else if ends_line(s, offset - 1) {
        lines_before(s, offset - 1) + 1
    } else {
        lines_before(s, offset - 1)
    }
}

/// Where the line that holds `offset` starts.
pub open spec fn line_start(s: Seq<char>, offset: int) -> int
    decreases offset,
{
    if offset <= 0 || offset > s.len() {
        0
    } else if is_line_break(s[offset - 1]) {
        offset
    } else {
        line_start(s, offset - 1)
    }
}

/// The text of the line that holds `offset`, without its line break.
pub open spec fn line_at(s: Seq<char>, offset: int) -> Seq<char> {
    if 0 <= offset <= s.len() {
        s.subrange(line_start(s, offset), line_end(s, offset))
    } else {
        Seq::empty()
    }
}

/// A failure to parse, as a mathematical value: where the parser stopped, as
/// an offset in characters and as a line and a column that count from 1, and
/// what it expected there.
pub struct SyntaxError {
    pub offset: int,
    pub line: int,
    pub column: int,
    pub expected: Expected,
}

/// The error for a parse of `s` that stopped at `stop`.
pub open spec fn syntax_error(s: Seq<char>, stop: int, blank: bool) -> SyntaxError {
    SyntaxError {
        offset: stop,
        line: (lines_before(s, stop) + 1) as int,
        column: stop - line_start(s, stop) + 1,
        expected: if blank {
            Expected::Directive
        } else {
            Expected::LineEnd
        },
    }
}

/// The directives of a whole text: those of its lines, if reading them
/// reaches the end of the text. All or nothing: a line that is no directive,
/// or that goes on after its directive, fails the whole text.
pub open spec fn directives_of(s: Seq<char>) -> Result<Seq<DirectiveView>, SyntaxError> {
    let found = scan(s, 0);
    if found.stop == s.len() {
        Ok(found.directives)
    } else {
        Err(syntax_error(s, found.stop, found.blank))
    }
}

pub(crate) proof fn lemma_line_end_bounds(s: Seq<char>, pos: int)
    requires
        0 <= pos <= s.len(),
    ensures
        pos <= line_end(s, pos) <= s.len(),
    decreases s.len() - pos,
{
    if pos < s.len() && !is_line_break(s[pos]) {
        lemma_line_end_bounds(s, pos + 1);
    }
}

pub(crate) proof fn lemma_closing_braces_bounds(s: Seq<char>, pos: int)
    requires
        0 <= pos,
    ensures
        closing_braces(s, pos) matches Some(q) ==> pos <= q && q + 2 <= s.len(),
    decreases s.len() - pos,
{
    if pos + 2 <= s.len() && !(s[pos] == '}' && s[pos + 1] == '}') {
        lemma_closing_braces_bounds(s, pos + 1);
    }
}

pub(crate) proof fn lemma_name_end_bounds(s: Seq<char>, pos: int)
    requires
        0 <= pos <= s.len(),
    ensures
        pos <= name_end(s, pos) <= s.len(),
    decreases s.len() - pos,
{
    if pos < s.len() && !ends_name(s[pos]) {
        lemma_name_end_bounds(s, pos + 1);
    }
}

pub(crate) proof fn lemma_key_end_bounds(s: Seq<char>, pos: int)
    requires
        0 <= pos <= s.len(),
    ensures
        pos <= key_end(s, pos) <= s.len(),
    decreases s.len() - pos,
{
    if pos < s.len() && !ends_key(s[pos]) {
        lemma_key_end_bounds(s, pos + 1);
    }
}

pub(crate) proof fn lemma_quoted_bounds(s: Seq<char>, pos: int)
    requires
        0 <= pos <= s.len(),
    ensures
        quoted(s, pos) matches Some((_, end)) ==> pos < end <= s.len(),
        quoted_line(s, pos) matches Some((_, end)) ==> pos < end <= s.len() && is_line_break(
            s[end - 1],
        ),
{
    if pos < s.len() {
        lemma_body_bounds(s, pos + 1, Closing::Quote);
        lemma_body_bounds(s, pos + 1, Closing::LineBreak);
    }
}

pub(crate) proof fn lemma_word_bounds(s: Seq<char>, pos: int, kw: Seq<char>)
    requires
        0 <= pos <= s.len(),
    ensures
        word(s, pos, kw) matches Some(p) ==> pos < p <= s.len(),
{
    if has_prefix_at(s, pos, kw) {
        lemma_skip_spaces_bounds(s, pos + kw.len());
    }
}

pub(crate) proof fn lemma_quoted_pair_bounds(s: Seq<char>, pos: int)
    requires
        0 <= pos <= s.len(),
    ensures
        quoted_pair(s, pos) matches Some((_, end)) ==> pos < end <= s.len(),
{
    lemma_quoted_bounds(s, pos);
    if let Some((_, at1)) = quoted(s, pos) {
        lemma_skip_spaces_bounds(s, at1);
        if let Some(at2) = spaces(s, at1) {
            lemma_quoted_bounds(s, at2);
        }
    }
}

pub(crate) proof fn lemma_matcher_bounds(s: Seq<char>, pos: int)
    requires
        0 <= pos <= s.len(),
    ensures
        matcher(s, pos) matches Some((_, end)) ==> pos < end <= s.len(),
        key_matcher(s, pos) matches Some((_, end)) ==> pos < end <= s.len(),
{
    lemma_word_bounds(s, pos, "section"@);
    lemma_word_bounds(s, pos, "regex"@);
    lemma_quoted_pair_bounds(s, pos);
    if let Some(p) = word(s, pos, "section"@) {
        lemma_quoted_bounds(s, p);
    }
    if let Some(p) = word(s, pos, "regex"@) {
        lemma_quoted_pair_bounds(s, p);
    }
}

pub(crate) proof fn lemma_argument_bounds(s: Seq<char>, pos: int)
    requires
        0 <= pos <= s.len(),
    ensures
        argument(s, pos) matches Some((_, end)) ==> pos < end <= s.len(),
{
    lemma_key_end_bounds(s, pos);
    let e = key_end(s, pos);
    if pos < e < s.len() {
        lemma_quoted_bounds(s, e + 1);
    }
}

pub(crate) proof fn lemma_more_arguments_bounds(s: Seq<char>, pos: int, args: Seq<(Seq<char>, Seq<char>)>)
    requires
        0 <= pos <= s.len(),
    ensures
        pos <= more_arguments(s, pos, args).1 <= s.len(),
    decreases s.len() - pos,
{
    lemma_skip_spaces_bounds(s, pos);
    if let Some(p) = spaces(s, pos) {
        lemma_argument_bounds(s, p);
        if let Some(((key, value), end)) = argument(s, p) {
            lemma_more_arguments_bounds(s, end, with_arg(args, key, value));
        }
    }
}

pub(crate) proof fn lemma_trailing_arguments_bounds(s: Seq<char>, pos: int)
    requires
        0 <= pos <= s.len(),
    ensures
        pos <= trailing_arguments(s, pos).1 <= s.len(),
{
    lemma_skip_spaces_bounds(s, pos);
    if let Some(p) = spaces(s, pos) {
        lemma_argument_bounds(s, p);
        if let Some(((key, value), end)) = argument(s, p) {
            lemma_more_arguments_bounds(s, end, with_arg(Seq::empty(), key, value));
        }
    }
}

pub(crate) proof fn lemma_source_bounds(s: Seq<char>, pos: int)
    requires
        0 <= pos <= s.len(),
    ensures
        source(s, pos) matches Some((d, end)) ==> pos < end <= s.len() && (d is Source
            || d is SourceAuto),
{
    lemma_word_bounds(s, pos, "source"@);
    if let Some(p) = word(s, pos, "source"@) {
        lemma_quoted_bounds(s, p);
    }
}

pub(crate) proof fn lemma_matcher_directive_bounds(s: Seq<char>, pos: int)
    requires
        0 <= pos <= s.len(),
    ensures
        ignore(s, pos) matches Some((d, end)) ==> pos < end <= s.len() && d is Ignore,
        remove(s, pos) matches Some((d, end)) ==> pos < end <= s.len() && d is Remove,
        add_remove(s, pos) matches Some((d, end)) ==> pos < end <= s.len() && d is AddRemove,
        add_hide(s, pos) matches Some((d, end)) ==> pos < end <= s.len() && d is AddHide,
{
    lemma_word_bounds(s, pos, "ignore"@);
    lemma_word_bounds(s, pos, "remove"@);
    lemma_word_bounds(s, pos, "add:remove"@);
    lemma_word_bounds(s, pos, "add:hide"@);
    if let Some(p) = word(s, pos, "ignore"@) {
        lemma_matcher_bounds(s, p);
    }
    if let Some(p) = word(s, pos, "remove"@) {
        lemma_matcher_bounds(s, p);
    }
    if let Some(p) = word(s, pos, "add:remove"@) {
        lemma_matcher_bounds(s, p);
    }
    if let Some(p) = word(s, pos, "add:hide"@) {
        lemma_matcher_bounds(s, p);
    }
}

pub(crate) proof fn lemma_transform_bounds(s: Seq<char>, pos: int)
    requires
        0 <= pos <= s.len(),
    ensures
        transform(s, pos) matches Some((d, end)) ==> pos < end <= s.len() && d is Transform,
{
    lemma_word_bounds(s, pos, "transform"@);
    if let Some(p) = word(s, pos, "transform"@) {
        lemma_matcher_bounds(s, p);
        if let Some((_, at1)) = key_matcher(s, p) {
            lemma_skip_spaces_bounds(s, at1);
            if let Some(at2) = spaces(s, at1) {
                lemma_name_end_bounds(s, at2);
                lemma_trailing_arguments_bounds(s, name_end(s, at2));
            }
        }
    }
}

pub(crate) proof fn lemma_set_bounds(s: Seq<char>, pos: int)
    requires
        0 <= pos <= s.len(),
    ensures
        set(s, pos) matches Some((d, end)) ==> pos < end <= s.len() && d is Setter,
{
    lemma_word_bounds(s, pos, "set"@);
    if let Some(p) = word(s, pos, "set"@) {
        lemma_quoted_pair_bounds(s, p);
        if let Some((_, at1)) = quoted_pair(s, p) {
            lemma_skip_spaces_bounds(s, at1);
            if let Some(at2) = spaces(s, at1) {
                lemma_quoted_bounds(s, at2);
                if let Some((_, at3)) = quoted(s, at2) {
                    lemma_skip_spaces_bounds(s, at3);
                    if let Some(at4) = spaces(s, at3) {
                        if has_prefix_at(s, at4, "separator="@) {
                            lemma_quoted_bounds(s, at4 + "separator="@.len());
                        }
                    }
                }
            }
        }
    }
}

/// A directive ends within the input and not before its start, and the next
/// line, where there is one, starts after the start of this one.
pub(crate) proof fn lemma_directive_bounds(s: Seq<char>, pos: int)
    requires
        0 <= pos <= s.len(),
    ensures
        pos <= directive(s, pos).1 <= s.len(),
        next_line(s, directive(s, pos).0, directive(s, pos).1) matches Some(next) ==> pos < next
            <= s.len(),
{
    lemma_skip_spaces_bounds(s, pos);
    lemma_line_end_bounds(s, skip_spaces(s, pos));
    if has_prefix_at(s, pos, "{{"@) {
        lemma_closing_braces_bounds(s, pos + "{{"@.len());
    }
    lemma_source_bounds(s, pos);
    lemma_matcher_directive_bounds(s, pos);
    lemma_transform_bounds(s, pos);
    lemma_set_bounds(s, pos);
}

} // verus!
