//! Quoted strings of the directive language.
//!
//! A quoted string starts with `"`. Inside it a backslash introduces one of
//! three escapes: `\\` for a backslash, `\"` for a quote and `\n` for a line
//! feed. Any other character stands for itself.

use crate::text::{is_line_break, is_line_break_char, is_space, is_space_char, substring};
use vstd::prelude::*;

verus! {

/// What ends the body of a quoted string.
#[derive(Clone, Copy, Debug, PartialEq, Eq)]
pub enum Closing {
    /// The next quote that is not escaped.
    Quote,
    /// The end of the line, whatever quotes stand before it.
    LineBreak,
}

/// The character that `\c` stands for, if `c` names an escape.
pub open spec fn unescape(c: char) -> Option<char> {
    if c == '\\' {
        Some('\\')
    } else if c == '"' {
        Some('"')
    } else if c == 'n' {
        Some('\n')
    } else {
        None
    }
}

/// Whether `c`, met outside an escape, ends the body.
pub open spec fn closes(closing: Closing, c: char) -> bool {
    match closing {
        Closing::Quote => c == '"',
        Closing::LineBreak => is_line_break(c),
    }
}

/// The body of a quoted string that starts at `pos`: its text with the
/// escapes resolved, and the position of the character that ends it (the
/// length of `s` where the input runs out first). `None` where a backslash
/// is followed by anything but `\`, `"` or `n`.
pub open spec fn body(s: Seq<char>, pos: int, closing: Closing) -> Option<(Seq<char>, int)>
    decreases s.len() - pos,
{
    if pos < 0 || pos >= s.len() {
        Some((Seq::empty(), pos))
    } else if s[pos] == '\\' {
        if pos + 1 < s.len() && unescape(s[pos + 1]) is Some {
            match body(s, pos + 2, closing) {
                Some((rest, end)) => Some((seq![unescape(s[pos + 1])->0] + rest, end)),
                None => None,
            }
        } else {
            None
        }
    } else if closes(closing, s[pos]) {
        Some((Seq::empty(), pos))
    } else {
        match body(s, pos + 1, closing) {
            Some((rest, end)) => Some((seq![s[pos]] + rest, end)),
            None => None,
        }
    }
}

/// A quoted string at `pos`: its text and the position after the closing
/// quote. `None` where no quote stands at `pos`, an escape is malformed, or
/// the input ends before the closing quote.
pub open spec fn quoted(s: Seq<char>, pos: int) -> Option<(Seq<char>, int)> {
    if 0 <= pos < s.len() && s[pos] == '"' {
        match body(s, pos + 1, Closing::Quote) {
            Some((text, end)) => if end < s.len() {
                Some((text, end + 1))
            } else {
                None
            },
            None => None,
        }
    } else {
        None
    }
}

/// `text` without the spaces, tabs and line breaks at its end.
pub open spec fn trim_end(text: Seq<char>) -> Seq<char>
    decreases text.len(),
{
    if text.len() > 0 && (is_space(text.last()) || is_line_break(text.last())) {
        trim_end(text.drop_last())
    } else {
        text
    }
}

/// What a line-terminated value keeps of its raw text: the white space at the
/// end goes, and then one quote if the text ends in one.
pub open spec fn trim_value(text: Seq<char>) -> Seq<char> {
    let t = trim_end(text);
    if t.len() > 0 && t.last() == '"' {
        t.drop_last()
    } else {
        t
    }
}

/// A value that starts with a quote at `pos` and runs to the end of the line,
/// so that quotes may stand in it unescaped: the trimmed text and the position
/// after the line break that ended it. `None` where no quote stands at `pos`,
/// an escape is malformed, or the input ends before a line break.
pub open spec fn quoted_line(s: Seq<char>, pos: int) -> Option<(Seq<char>, int)> {
    if 0 <= pos < s.len() && s[pos] == '"' {
        match body(s, pos + 1, Closing::LineBreak) {
            Some((text, end)) => if end < s.len() {
                Some((trim_value(text), end + 1))
            } else {
                None
            },
            None => None,
        }
    } else {
        None
    }
}

/// How one character is written inside a quoted string.
pub open spec fn escape_char(c: char) -> Seq<char> {
    if c == '\\' {
        seq!['\\', '\\']
    } else if c == '"' {
        seq!['\\', '"']
    } else if c == '\n' {
        seq!['\\', 'n']
    } else {
        seq![c]
    }
}

/// `text` with its backslashes, quotes and line feeds written as escapes.
pub open spec fn escaped(text: Seq<char>) -> Seq<char>
    decreases text.len(),
{
    if text.len() == 0 {
        Seq::empty()
    } else {
        escape_char(text.first()) + escaped(text.drop_first())
    }
}

/// `text` as a quoted string: escaped, between two quotes.
pub open spec fn quote(text: Seq<char>) -> Seq<char> {
    seq!['"'] + escaped(text) + seq!['"']
}

proof fn lemma_escaped_body(text: Seq<char>, before: Seq<char>, after: Seq<char>)
    ensures
        body(before + escaped(text) + seq!['"'] + after, before.len() as int, Closing::Quote)
            == Some((text, (before.len() + escaped(text).len()) as int)),
    decreases text.len(),
{
    let s = before + escaped(text) + seq!['"'] + after;
    let pos = before.len() as int;
    if text.len() == 0 {
        assert(s[pos] == '"');
    } else {
        let c = text.first();
        let rest = text.drop_first();
        let head = escape_char(c);
        lemma_escaped_body(rest, before + head, after);
        assert(s =~= (before + head) + escaped(rest) + seq!['"'] + after);
        assert(s[pos] == head[0]);
        if head.len() == 2 {
            assert(s[pos + 1] == head[1]);
            assert(unescape(s[pos + 1]) == Some(c));
        }
        assert(seq![c] + rest =~= text);
    }
}

/// Reading back what was quoted gives the text again: whatever `text`
/// holds, and whatever stands before and after its quoted form, the quoted
/// string read at the opening quote is `text`, and it ends right after the
/// closing quote.
pub proof fn lemma_quote_round_trip(text: Seq<char>, before: Seq<char>, after: Seq<char>)
    ensures
        quoted(before + quote(text) + after, before.len() as int) == Some(
            (text, (before.len() + quote(text).len()) as int),
        ),
{
    let s = before + quote(text) + after;
    lemma_escaped_body(text, before + seq!['"'], after);
    assert(s =~= (before + seq!['"']) + escaped(text) + seq!['"'] + after);
    assert(s[before.len() as int] == '"');
}

/// A body ends within the input, and where it ends before the end of the
/// input, it ends at the character that closes it.
pub(crate) proof fn lemma_body_bounds(s: Seq<char>, pos: int, closing: Closing)
    requires
        0 <= pos <= s.len(),
    ensures
        body(s, pos, closing) matches Some((text, end)) ==> pos <= end <= s.len() && (end
            < s.len() ==> closes(closing, s[end])),
    decreases s.len() - pos,
{
    if pos < s.len() {
        if s[pos] == '\\' {
            if pos + 1 < s.len() && unescape(s[pos + 1]) is Some {
                lemma_body_bounds(s, pos + 2, closing);
            }
        } else if !closes(closing, s[pos]) {
            lemma_body_bounds(s, pos + 1, closing);
        }
    }
}

fn unescape_char(c: char) -> (r: Option<char>)
    ensures
        r == unescape(c),
{
    if c == '\\' {
        Some('\\')
    } else if c == '"' {
        Some('"')
    } else if c == 'n' {
        Some('\n')
    } else {
        None
    }
}

fn closes_char(closing: Closing, c: char) -> (r: bool)
    ensures
        r == closes(closing, c),
{
    match closing {
        Closing::Quote => c == '"',
        Closing::LineBreak => is_line_break_char(c),
    }
}

/// Reads the body of a quoted string from `pos` on.
fn read_body(input: &[char], pos: usize, closing: Closing) -> (r: Option<(Vec<char>, usize)>)
    requires
        pos <= input@.len(),
    ensures
        match r {
            Some((text, end)) => body(input@, pos as int, closing) == Some((text@, end as int))
                && pos <= end <= input@.len(),
            None => body(input@, pos as int, closing) is None,
        },
{
    let mut out: Vec<char> = Vec::new();
    let mut i: usize = pos;
    loop
        invariant
            pos <= i <= input@.len(),
            body(input@, pos as int, closing) == match body(input@, i as int, closing) {
                Some((rest, end)) => Some((out@ + rest, end)),
                None => None,
            },
        ensures
            pos <= i <= input@.len(),
            body(input@, pos as int, closing) == Some((out@, i as int)),
        decreases input@.len() - i,
    {
        if i >= input.len() {
            assert(out@ + Seq::<char>::empty() == out@);
            break ;
        }
        let c = input[i];
        if c == '\\' {
            if i + 1 >= input.len() {
                return None;
            }
            match unescape_char(input[i + 1]) {
                Some(u) => {
                    proof {
                        let ghost_out = out@;
                        assert forall|rest: Seq<char>| (#[trigger] (ghost_out + (seq![u] + rest)))
                            == ghost_out.push(u) + rest by {
                            assert((ghost_out + (seq![u] + rest)) =~= ghost_out.push(u) + rest);
                        }
                    }
                    out.push(u);
                    i = i + 2;
                },
                None => {
                    return None;
                },
            }
        } else if closes_char(closing, c) {
            assert(out@ + Seq::<char>::empty() == out@);
            break ;
        } else {
            proof {
                let ghost_out = out@;
                assert forall|rest: Seq<char>| (#[trigger] (ghost_out + (seq![c] + rest)))
                    == ghost_out.push(c) + rest by {
                    assert((ghost_out + (seq![c] + rest)) =~= ghost_out.push(c) + rest);
                }
            }
            out.push(c);
            i = i + 1;
        }
    }
    Some((out, i))
}

/// Parses a quoted string at `pos`.
pub fn quoted_string(input: &[char], pos: usize) -> (r: Option<(String, usize)>)
    ensures
        match r {
            Some((text, end)) => quoted(input@, pos as int) == Some((text@, end as int)) && pos
                < end <= input@.len(),
            None => quoted(input@, pos as int) is None,
        },
{
    if pos >= input.len() || input[pos] != '"' {
        return None;
    }
    match read_body(input, pos + 1, Closing::Quote) {
        Some((text, end)) => {
            if end < input.len() {
                Some((substring(text.as_slice(), 0, text.len()), end + 1))
            } else {
                None
            }
        },
        None => None,
    }
}

/// The length of `text` without the spaces, tabs and line breaks at its end.
fn trimmed_len(text: &[char]) -> (n: usize)
    ensures
        n <= text@.len(),
        trim_end(text@) == text@.subrange(0, n as int),
{
    let mut n: usize = text.len();
    assert(text@.subrange(0, n as int) == text@);
    while n > 0 && (is_space_char(text[n - 1]) || is_line_break_char(text[n - 1]))
        invariant
            n <= text@.len(),
            trim_end(text@) == trim_end(text@.subrange(0, n as int)),
        decreases n,
    {
        assert(text@.subrange(0, n as int).drop_last() == text@.subrange(0, n - 1));
        n = n - 1;
    }
    n
}

/// Parses a quoted value that runs to the end of its line, and takes the
/// line break with it.
pub fn quoted_string_nl(input: &[char], pos: usize) -> (r: Option<(String, usize)>)
    ensures
        match r {
            Some((text, end)) => quoted_line(input@, pos as int) == Some((text@, end as int))
                && pos < end <= input@.len(),
            None => quoted_line(input@, pos as int) is None,
        },
{
    if pos >= input.len() || input[pos] != '"' {
        return None;
    }
    match read_body(input, pos + 1, Closing::LineBreak) {
        Some((text, end)) => {
            if end < input.len() {
                let n = trimmed_len(text.as_slice());
                let keep: usize = if n > 0 && text[n - 1] == '"' {
                    n - 1
                } else {
                    n
                };
                assert(n > 0 ==> text@.subrange(0, n as int).drop_last() == text@.subrange(
                    0,
                    n - 1,
                ));
                Some((substring(text.as_slice(), 0, keep), end + 1))
            } else {
                None
            }
        },
        None => None,
    }
}

} // verus!
