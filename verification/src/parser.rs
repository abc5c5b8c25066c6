//! The parser of the directive language.
//!
//! Every function here reads from a slice of characters at a position and is
//! proved to compute the function of the same name in [`crate::grammar`].

use crate::directive::{directive_views, Directive, Matcher, TransformArgs};
use crate::grammar;
use crate::grammar::{Expected, SyntaxError};
use crate::quoted::{quoted_string, quoted_string_nl};
use crate::text::{
    chars_of, has_prefix_at, is_line_break_char, is_space_char, space_chars, spaces,
    starts_with_at, substring,
};
use vstd::prelude::*;

verus! {

/// Why a text is no list of directives: where the parser stopped, as an offset
/// in characters and as a line and a column that count from 1, and what it
/// expected there.
#[derive(Clone, Copy, Debug, PartialEq, Eq, Structural)]
pub struct ParseError {
    pub offset: usize,
    pub line: usize,
    pub column: usize,
    pub expected: Expected,
}

impl View for ParseError {
    type V = SyntaxError;

    open spec fn view(&self) -> SyntaxError {
        SyntaxError {
            offset: self.offset as int,
            line: self.line as int,
            column: self.column as int,
            expected: self.expected,
        }
    }
}

/// A line break at `pos`: `\r\n`, `\n` or `\r`.
pub fn newline(input: &[char], pos: usize) -> (r: Option<usize>)
    ensures
        match r {
            Some(end) => grammar::line_break(input@, pos as int) == Some(end as int) && pos < end
                <= input@.len(),
            None => grammar::line_break(input@, pos as int) is None,
        },
{
    if pos >= input.len() {
        None
    } else if input[pos] == '\r' {
        if pos + 1 < input.len() && input[pos + 1] == '\n' {
            Some(pos + 2)
        } else {
            Some(pos + 1)
        }
    } else if input[pos] == '\n' {
        Some(pos + 1)
    } else {
        None
    }
}

/// A comment at `pos`.
pub fn comment(input: &[char], pos: usize) -> (r: Option<usize>)
    ensures
        match r {
            Some(end) => grammar::comment(input@, pos as int) == Some(end as int) && pos < end
                <= input@.len(),
            None => grammar::comment(input@, pos as int) is None,
        },
{
    let start = crate::text::skip_space_chars(input, pos);
    if start >= input.len() || input[start] != '#' {
        return None;
    }
    let mut i: usize = start;
    while i < input.len() && !is_line_break_char(input[i])
        invariant
            start <= i <= input@.len(),
            grammar::line_end(input@, start as int) == grammar::line_end(input@, i as int),
        decreases input@.len() - i,
    {
        i = i + 1;
    }
    Some(i)
}

/// The keyword `kw` at `pos`: the position after it.
fn keyword(input: &[char], pos: usize, kw: &str) -> (r: Option<usize>)
    ensures
        match r {
            Some(end) => has_prefix_at(input@, pos as int, kw@) && end == pos + kw@.len() && end
                <= input@.len(),
            None => !has_prefix_at(input@, pos as int, kw@),
        },
{
    if starts_with_at(input, pos, kw) {
        let n: usize = kw.unicode_len();
        assert(pos + n <= input.len());
        Some(pos + n)
    } else {
        None
    }
}

/// The keyword `kw` at `pos` and the spaces after it.
fn word(input: &[char], pos: usize, kw: &str) -> (r: Option<usize>)
    ensures
        match r {
            Some(end) => grammar::word(input@, pos as int, kw@) == Some(end as int) && pos < end
                <= input@.len(),
            None => grammar::word(input@, pos as int, kw@) is None,
        },
{
    match keyword(input, pos, kw) {
        Some(p) => space_chars(input, p),
        None => None,
    }
}

/// A template fragment at `pos`: `{{ ... }}`, left behind by a templating
/// pass.
pub fn chezmoi_template(input: &[char], pos: usize) -> (r: Option<usize>)
    ensures
        match r {
            Some(end) => grammar::template(input@, pos as int) == Some(end as int) && pos < end
                <= input@.len(),
            None => grammar::template(input@, pos as int) is None,
        },
{
    let start = match keyword(input, pos, "{{") {
        Some(p) => p,
        None => {
            return None;
        },
    };
    let len: usize = input.len();
    let mut i: usize = start;
    while i < len && len - i >= 2
        invariant
            len == input@.len(),
            has_prefix_at(input@, pos as int, "{{"@),
            start == pos + "{{"@.len(),
            start <= i <= len,
            grammar::closing_braces(input@, start as int) == grammar::closing_braces(
                input@,
                i as int,
            ),
        decreases len - i,
    {
        if input[i] == '}' && input[i + 1] == '}' {
            return Some(i + 2);
        }
        i = i + 1;
    }
    None
}

/// Two quoted strings with spaces between them.
fn quoted_pair(input: &[char], pos: usize) -> (r: Option<(String, String, usize)>)
    ensures
        match r {
            Some((first, second, end)) => grammar::quoted_pair(input@, pos as int) == Some(
                ((first@, second@), end as int),
            ) && pos < end <= input@.len(),
            None => grammar::quoted_pair(input@, pos as int) is None,
        },
{
    let (first, at1) = match quoted_string(input, pos) {
        Some(found) => found,
        None => {
            return None;
        },
    };
    let at2 = match space_chars(input, at1) {
        Some(p) => p,
        None => {
            return None;
        },
    };
    match quoted_string(input, at2) {
        Some((second, end)) => Some((first, second, end)),
        None => None,
    }
}

/// The matcher for a whole section: `section "<name>"`.
pub fn match_section(input: &[char], pos: usize) -> (r: Option<(Matcher, usize)>)
    ensures
        match r {
            Some((m, end)) => grammar::section_matcher(input@, pos as int) == Some(
                (m@, end as int),
            ) && pos < end <= input@.len(),
            None => grammar::section_matcher(input@, pos as int) is None,
        },
{
    let p = match word(input, pos, "section") {
        Some(p) => p,
        None => {
            return None;
        },
    };
    match quoted_string(input, p) {
        Some((name, end)) => Some((Matcher::Section(name), end)),
        None => None,
    }
}

/// The matcher by regular expressions: `regex "<section>" "<key>"`.
pub fn match_regex(input: &[char], pos: usize) -> (r: Option<(Matcher, usize)>)
    ensures
        match r {
            Some((m, end)) => grammar::regex_matcher(input@, pos as int) == Some((m@, end as int))
                && pos < end <= input@.len(),
            None => grammar::regex_matcher(input@, pos as int) is None,
        },
{
    let p = match word(input, pos, "regex") {
        Some(p) => p,
        None => {
            return None;
        },
    };
    match quoted_pair(input, p) {
        Some((section, key, end)) => Some((Matcher::Regex(section, key), end)),
        None => None,
    }
}

/// The matcher by exact names: `"<section>" "<key>"`.
pub fn match_literal(input: &[char], pos: usize) -> (r: Option<(Matcher, usize)>)
    ensures
        match r {
            Some((m, end)) => grammar::literal_matcher(input@, pos as int) == Some(
                (m@, end as int),
            ) && pos < end <= input@.len(),
            None => grammar::literal_matcher(input@, pos as int) is None,
        },
{
    match quoted_pair(input, pos) {
        Some((section, key, end)) => Some((Matcher::Literal(section, key), end)),
        None => None,
    }
}

/// The matchers that `transform` takes: never the `section` form.
pub fn matcher_transform(input: &[char], pos: usize) -> (r: Option<(Matcher, usize)>)
    ensures
        match r {
            Some((m, end)) => grammar::key_matcher(input@, pos as int) == Some((m@, end as int))
                && pos < end <= input@.len() && !(m is Section),
            None => grammar::key_matcher(input@, pos as int) is None,
        },
{
    match match_regex(input, pos) {
        Some(found) => Some(found),
        None => match_literal(input, pos),
    }
}

/// Any matcher.
pub fn matcher(input: &[char], pos: usize) -> (r: Option<(Matcher, usize)>)
    ensures
        match r {
            Some((m, end)) => grammar::matcher(input@, pos as int) == Some((m@, end as int))
                && pos < end <= input@.len(),
            None => grammar::matcher(input@, pos as int) is None,
        },
{
    match match_section(input, pos) {
        Some(found) => Some(found),
        None => matcher_transform(input, pos),
    }
}

/// One argument of a transform: `key="value"`.
pub fn transform_arg(input: &[char], pos: usize) -> (r: Option<(String, String, usize)>)
    ensures
        match r {
            Some((key, value, end)) => grammar::argument(input@, pos as int) == Some(
                ((key@, value@), end as int),
            ) && pos < end <= input@.len(),
            None => grammar::argument(input@, pos as int) is None,
        },
{
    if pos > input.len() {
        return None;
    }
    let mut e: usize = pos;
    while e < input.len() && !(input[e] == ' ' || input[e] == '=')
        invariant
            pos <= e <= input@.len(),
            grammar::key_end(input@, pos as int) == grammar::key_end(input@, e as int),
        decreases input@.len() - e,
    {
        e = e + 1;
    }
    if e == pos || e >= input.len() || input[e] != '=' {
        return None;
    }
    match quoted_string(input, e + 1) {
        Some((value, end)) => Some((substring(input, pos, e), value, end)),
        None => None,
    }
}

/// The arguments of a transform after its name: spaces and then arguments
/// with spaces between them, or nothing.
fn trailing_arguments(input: &[char], pos: usize) -> (r: (TransformArgs, usize))
    ensures
        grammar::trailing_arguments(input@, pos as int) == (r.0@, r.1 as int),
        pos <= r.1,
        pos <= input@.len() ==> r.1 <= input@.len(),
{
    let mut args = TransformArgs::new();
    let start = match space_chars(input, pos) {
        Some(p) => p,
        None => {
            return (args, pos);
        },
    };
    let mut end: usize = match transform_arg(input, start) {
        Some((key, value, e)) => {
            args = args.with(key, value);
            e
        },
        None => {
            return (args, start);
        },
    };
    loop
        invariant
            start <= end <= input@.len(),
            grammar::trailing_arguments(input@, pos as int) == grammar::more_arguments(
                input@,
                end as int,
                args@,
            ),
        ensures
            end <= input@.len(),
            grammar::trailing_arguments(input@, pos as int) == (args@, end as int),
        decreases input@.len() - end,
    {
        let p = match space_chars(input, end) {
            Some(p) => p,
            None => {
                break ;
            },
        };
        match transform_arg(input, p) {
            Some((key, value, e)) => {
                args = args.with(key, value);
                end = e;
            },
            None => {
                break ;
            },
        }
    }
    (args, end)
}

/// A `source` line.
pub fn source(input: &[char], pos: usize) -> (r: Option<(Directive, usize)>)
    ensures
        match r {
            Some((d, end)) => grammar::source(input@, pos as int) == Some((d@, end as int)) && pos
                < end <= input@.len(),
            None => grammar::source(input@, pos as int) is None,
        },
{
    let p = match word(input, pos, "source") {
        Some(p) => p,
        None => {
            return None;
        },
    };
    if let Some(end) = keyword(input, p, "auto") {
        return Some((Directive::SourceAuto, end));
    }
    if let Some((path, end)) = quoted_string_nl(input, p) {
        return Some((Directive::Source(path), end));
    }
    match quoted_string(input, p) {
        Some((path, end)) => Some((Directive::Source(path), end)),
        None => None,
    }
}

/// An `ignore` line.
pub fn ignore(input: &[char], pos: usize) -> (r: Option<(Directive, usize)>)
    ensures
        match r {
            Some((d, end)) => grammar::ignore(input@, pos as int) == Some((d@, end as int)) && pos
                < end <= input@.len(),
            None => grammar::ignore(input@, pos as int) is None,
        },
{
    let p = match word(input, pos, "ignore") {
        Some(p) => p,
        None => {
            return None;
        },
    };
    match matcher(input, p) {
        Some((m, end)) => Some((Directive::Ignore(m), end)),
        None => None,
    }
}

/// A `remove` line.
pub fn remove(input: &[char], pos: usize) -> (r: Option<(Directive, usize)>)
    ensures
        match r {
            Some((d, end)) => grammar::remove(input@, pos as int) == Some((d@, end as int)) && pos
                < end <= input@.len(),
            None => grammar::remove(input@, pos as int) is None,
        },
{
    let p = match word(input, pos, "remove") {
        Some(p) => p,
        None => {
            return None;
        },
    };
    match matcher(input, p) {
        Some((m, end)) => Some((Directive::Remove(m), end)),
        None => None,
    }
}

/// An `add:remove` line.
pub fn add_remove(input: &[char], pos: usize) -> (r: Option<(Directive, usize)>)
    ensures
        match r {
            Some((d, end)) => grammar::add_remove(input@, pos as int) == Some((d@, end as int))
                && pos < end <= input@.len(),
            None => grammar::add_remove(input@, pos as int) is None,
        },
{
    let p = match word(input, pos, "add:remove") {
        Some(p) => p,
        None => {
            return None;
        },
    };
    match matcher(input, p) {
        Some((m, end)) => Some((Directive::AddRemove(m), end)),
        None => None,
    }
}

/// An `add:hide` line.
pub fn add_hide(input: &[char], pos: usize) -> (r: Option<(Directive, usize)>)
    ensures
        match r {
            Some((d, end)) => grammar::add_hide(input@, pos as int) == Some((d@, end as int))
                && pos < end <= input@.len(),
            None => grammar::add_hide(input@, pos as int) is None,
        },
{
    let p = match word(input, pos, "add:hide") {
        Some(p) => p,
        None => {
            return None;
        },
    };
    match matcher(input, p) {
        Some((m, end)) => Some((Directive::AddHide(m), end)),
        None => None,
    }
}

/// A `transform` line.
pub fn transform(input: &[char], pos: usize) -> (r: Option<(Directive, usize)>)
    ensures
        match r {
            Some((d, end)) => grammar::transform(input@, pos as int) == Some((d@, end as int))
                && pos < end <= input@.len(),
            None => grammar::transform(input@, pos as int) is None,
        },
{
    let p = match word(input, pos, "transform") {
        Some(p) => p,
        None => {
            return None;
        },
    };
    let (m, at1) = match matcher_transform(input, p) {
        Some(found) => found,
        None => {
            return None;
        },
    };
    let at2 = match space_chars(input, at1) {
        Some(p) => p,
        None => {
            return None;
        },
    };
    let mut e: usize = at2;
    while e < input.len() && !(is_space_char(input[e]) || is_line_break_char(input[e]))
        invariant
            at2 <= e <= input@.len(),
            grammar::name_end(input@, at2 as int) == grammar::name_end(input@, e as int),
        decreases input@.len() - e,
    {
        e = e + 1;
    }
    if e == at2 {
        return None;
    }
    let name = substring(input, at2, e);
    let (args, end) = trailing_arguments(input, e);
    Some((Directive::Transform(m, name, args), end))
}

/// The optional end of a `set` line.
fn separator(input: &[char], pos: usize) -> (r: Option<(String, usize)>)
    ensures
        match r {
            Some((text, end)) => grammar::separator(input@, pos as int) == Some(
                (text@, end as int),
            ) && pos < end <= input@.len(),
            None => grammar::separator(input@, pos as int) is None,
        },
{
    let p = match space_chars(input, pos) {
        Some(p) => p,
        None => {
            return None;
        },
    };
    match keyword(input, p, "separator=") {
        Some(q) => quoted_string(input, q),
        None => None,
    }
}

/// A `set` line.
pub fn set(input: &[char], pos: usize) -> (r: Option<(Directive, usize)>)
    ensures
        match r {
            Some((d, end)) => grammar::set(input@, pos as int) == Some((d@, end as int)) && pos
                < end <= input@.len(),
            None => grammar::set(input@, pos as int) is None,
        },
{
    let p = match word(input, pos, "set") {
        Some(p) => p,
        None => {
            return None;
        },
    };
    let (section, key, at1) = match quoted_pair(input, p) {
        Some(found) => found,
        None => {
            return None;
        },
    };
    let at2 = match space_chars(input, at1) {
        Some(p) => p,
        None => {
            return None;
        },
    };
    let (value, at3) = match quoted_string(input, at2) {
        Some(found) => found,
        None => {
            return None;
        },
    };
    match separator(input, at3) {
        Some((sep, end)) => Some(
            (Directive::Setter { section, key, value, separator: Some(sep) }, end),
        ),
        None => Some((Directive::Setter { section, key, value, separator: None }, at3)),
    }
}

/// The directive at `pos`. There always is one: where no other form can be
/// read, the blank directive, which ends where it starts.
pub fn directive(input: &[char], pos: usize) -> (r: (Directive, usize))
    ensures
        grammar::directive(input@, pos as int) == (r.0@, r.1 as int),
        pos <= r.1,
        pos <= input@.len() ==> r.1 <= input@.len(),
{
    if let Some(end) = comment(input, pos) {
        return (Directive::WS, end);
    }
    if let Some(end) = chezmoi_template(input, pos) {
        return (Directive::WS, end);
    }
    if let Some(found) = source(input, pos) {
        return found;
    }
    if let Some(found) = ignore(input, pos) {
        return found;
    }
    if let Some(found) = transform(input, pos) {
        return found;
    }
    if let Some(found) = set(input, pos) {
        return found;
    }
    if let Some(found) = remove(input, pos) {
        return found;
    }
    if let Some(found) = add_remove(input, pos) {
        return found;
    }
    if let Some(found) = add_hide(input, pos) {
        return found;
    }
    (Directive::WS, pos)
}

/// Where the line after the directive `d`, which ended at `end`, starts.
fn next_line(input: &[char], d: &Directive, end: usize) -> (r: Option<usize>)
    requires
        end <= input@.len(),
    ensures
        match r {
            Some(next) => grammar::next_line(input@, d@, end as int) == Some(next as int) && end
                <= next <= input@.len(),
            None => grammar::next_line(input@, d@, end as int) is None,
        },
{
    let is_source = match d {
        Directive::Source(_) => true,
        _ => false,
    };
    if is_source && end > 0 && is_line_break_char(input[end - 1]) {
        if input[end - 1] == '\r' && end < input.len() && input[end] == '\n' {
            Some(end + 1)
        } else {
            Some(end)
        }
    } else {
        newline(input, end)
    }
}

/// The error for a parse of `input` that stopped at `stop`.
fn error_at(input: &[char], stop: usize, blank: bool) -> (e: ParseError)
    requires
        stop < input@.len(),
    ensures
        e@ == grammar::syntax_error(input@, stop as int, blank),
{
    let mut line: usize = 1;
    let mut start: usize = 0;
    let mut i: usize = 0;
    while i < stop
        invariant
            i <= stop < input@.len(),
            line == grammar::lines_before(input@, i as int) + 1,
            line <= i + 1,
            start == grammar::line_start(input@, i as int),
            start <= i,
        decreases stop - i,
    {
        let c = input[i];
        if c == '\n' || (c == '\r' && input[i + 1] != '\n') {
            line = line + 1;
        }
        if is_line_break_char(c) {
            start = i + 1;
        }
        i = i + 1;
    }
    let len: usize = input.len();
    assert(stop - start + 1 <= len);
    ParseError {
        offset: stop,
        line,
        column: stop - start + 1,
        expected: if blank {
            Expected::Directive
        } else {
            Expected::LineEnd
        },
    }
}

/// The text of the line of `text` that holds the character at `offset`: the
/// offending line of a [`ParseError`]. Empty where `offset` lies beyond the
/// text.
pub fn offending_line(text: &str, offset: usize) -> (line: String)
    ensures
        line@ == grammar::line_at(text@, offset as int),
{
    let input = chars_of(text);
    if offset > input.len() {
        return String::new();
    }
    let mut start: usize = offset;
    while start > 0 && !is_line_break_char(input[start - 1])
        invariant
            start <= offset <= input@.len(),
            grammar::line_start(input@, offset as int) == grammar::line_start(input@, start as int),
        decreases start,
    {
        start = start - 1;
    }
    let mut end: usize = offset;
    while end < input.len() && !is_line_break_char(input[end])
        invariant
            offset <= end <= input@.len(),
            grammar::line_end(input@, offset as int) == grammar::line_end(input@, end as int),
        decreases input@.len() - end,
    {
        end = end + 1;
    }
    substring(input.as_slice(), start, end)
}

/// Parses the directives of `input`, one on each line.
pub fn parse_chars(input: &[char]) -> (r: Result<Vec<Directive>, ParseError>)
    ensures
        match r {
            Ok(directives) => grammar::directives_of(input@) matches Ok(found) && found
                == directive_views(directives@),
            Err(e) => grammar::directives_of(input@) matches Err(error) && error == e@,
        },
{
    let mut out: Vec<Directive> = Vec::new();
    let mut pos: usize = 0;
    let mut stop: usize = 0;
    let mut blank: bool = false;
    loop
        invariant_except_break
            grammar::scan(input@, 0) == (grammar::Scan {
                directives: directive_views(out@) + grammar::scan(input@, pos as int).directives,
                stop: grammar::scan(input@, pos as int).stop,
                blank: grammar::scan(input@, pos as int).blank,
            }),
        invariant
            pos <= input@.len(),
        ensures
            stop <= input@.len(),
            grammar::scan(input@, 0) == (grammar::Scan {
                directives: directive_views(out@),
                stop: stop as int,
                blank,
            }),
        decreases input@.len() - pos,
    {
        let (d, end) = directive(input, pos);
        let next = next_line(input, &d, end);
        proof {
            grammar::lemma_directive_bounds(input@, pos as int);
            let before = directive_views(out@);
            let after = directive_views(out@.push(d));
            assert(after =~= before.push(d@));
            assert forall|rest: Seq<crate::directive::DirectiveView>| #[trigger]
                (before + (seq![d@] + rest)) == after + rest by {
                assert((before + (seq![d@] + rest)) =~= after + rest);
            }
            assert(before + seq![d@] =~= after);
        }
        out.push(d);
        match next {
            Some(n) => {
                pos = n;
            },
            None => {
                stop = end;
                blank = end == pos;
                break ;
            },
        }
    }
    if stop == input.len() {
        Ok(out)
    } else {
        Err(error_at(input, stop, blank))
    }
}

/// Parses a text of directives. All or nothing: one line that is no directive
/// fails the whole text.
pub fn parse_config(text: &str) -> (r: Result<Vec<Directive>, ParseError>)
    ensures
        match r {
            Ok(directives) => grammar::directives_of(text@) matches Ok(found) && found
                == directive_views(directives@),
            Err(e) => grammar::directives_of(text@) matches Err(error) && error == e@,
        },
{
    let input = chars_of(text);
    parse_chars(input.as_slice())
}

} // verus!
