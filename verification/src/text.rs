//! Character-level helpers shared by the parsers.

use vstd::prelude::*;

verus! {

/// `String::push` appends exactly one character to the end of the string.
pub assume_specification[ String::push ](s: &mut String, c: char)
    ensures
        final(s)@ == old(s)@.push(c),
;

/// `str`'s `eq` compares the two strings character by character.
pub assume_specification[ <str as PartialEq>::eq ](a: &str, b: &str) -> (r: bool)
    ensures
        r == (a@ == b@),
;

/// A space or a tab: what separates the words of a directive.
pub open spec fn is_space(c: char) -> bool {
    c == ' ' || c == '\t'
}

/// A line feed or a carriage return.
pub open spec fn is_line_break(c: char) -> bool {
    c == '\n' || c == '\r'
}

/// Whether `lit` stands in `s` at `pos`.
pub open spec fn has_prefix_at(s: Seq<char>, pos: int, lit: Seq<char>) -> bool {
    0 <= pos && pos + lit.len() <= s.len() && s.subrange(pos, pos + lit.len()) == lit
}

/// The position after the run of spaces and tabs that starts at `pos`.
pub open spec fn skip_spaces(s: Seq<char>, pos: int) -> int
    decreases s.len() - pos,
{
    if 0 <= pos < s.len() && is_space(s[pos]) {
        skip_spaces(s, pos + 1)
    } else {
        pos
    }
}

/// One or more spaces or tabs at `pos`: the position after them.
pub open spec fn spaces(s: Seq<char>, pos: int) -> Option<int> {
    if skip_spaces(s, pos) > pos {
        Some(skip_spaces(s, pos))
    } else {
        None
    }
}

/// A run of spaces ends within the input, holds nothing but spaces, and is
/// followed by none.
pub(crate) proof fn lemma_skip_spaces_bounds(s: Seq<char>, pos: int)
    requires
        0 <= pos <= s.len(),
    ensures
        pos <= skip_spaces(s, pos) <= s.len(),
        forall|i: int| pos <= i < skip_spaces(s, pos) ==> is_space(#[trigger] s[i]),
        skip_spaces(s, pos) < s.len() ==> !is_space(s[skip_spaces(s, pos)]),
    decreases s.len() - pos,
{
    if pos < s.len() && is_space(s[pos]) {
        lemma_skip_spaces_bounds(s, pos + 1);
    }
}

/// Whether `c` is a space or a tab.
pub fn is_space_char(c: char) -> (r: bool)
    ensures
        r == is_space(c),
{
    c == ' ' || c == '\t'
}

/// Whether `c` is a line feed or a carriage return.
pub fn is_line_break_char(c: char) -> (r: bool)
    ensures
        r == is_line_break(c),
{
    c == '\n' || c == '\r'
}

/// The characters of `text`, in order.
pub fn chars_of(text: &str) -> (out: Vec<char>)
    ensures
        out@ == text@,
{
    let mut out: Vec<char> = Vec::new();
    for c in it: text.chars()
        invariant
            it.seq() == text@,
            out@ == text@.take(it.index() as int),
    {
        out.push(c);
    }
    out
}

/// The string made of `input[from..to]`.
pub(crate) fn substring(input: &[char], from: usize, to: usize) -> (out: String)
    requires
        from <= to <= input@.len(),
    ensures
        out@ == input@.subrange(from as int, to as int),
{
    let mut out = String::new();
    let mut i: usize = from;
    while i < to
        invariant
            from <= i <= to <= input@.len(),
            out@ == input@.subrange(from as int, i as int),
        decreases to - i,
    {
        out.push(input[i]);
        i = i + 1;
    }
    out
}

/// Whether the characters of `lit` stand in `input` at `pos`.
pub fn starts_with_at(input: &[char], pos: usize, lit: &str) -> (r: bool)
    ensures
        r == has_prefix_at(input@, pos as int, lit@),
{
    let n: usize = lit.unicode_len();
    let len: usize = input.len();
    if pos > len || n > len - pos {
        return false;
    }
    let mut j: usize = 0;
    while j < n
        invariant
            n == lit@.len(),
            len == input@.len(),
            pos + n <= len,
            j <= n,
            input@.subrange(pos as int, pos + j) == lit@.subrange(0, j as int),
        decreases n - j,
    {
        if input[pos + j] != lit.get_char(j) {
            assert(input@.subrange(pos as int, pos + n)[j as int] != lit@[j as int]);
            return false;
        }
        assert(input@.subrange(pos as int, pos + j + 1) == input@.subrange(
            pos as int,
            pos + j,
        ).push(input@[pos + j]));
        assert(lit@.subrange(0, j + 1) == lit@.subrange(0, j as int).push(lit@[j as int]));
        j = j + 1;
    }
    assert(lit@.subrange(0, n as int) == lit@);
    true
}

/// Skips the spaces and tabs at `pos`.
pub fn skip_space_chars(input: &[char], pos: usize) -> (end: usize)
    ensures
        end == skip_spaces(input@, pos as int),
        pos <= end,
        pos <= input@.len() ==> end <= input@.len(),
{
    let mut i: usize = pos;
    while i < input.len() && is_space_char(input[i])
        invariant
            pos <= i,
            pos <= input@.len() ==> i <= input@.len(),
            skip_spaces(input@, pos as int) == skip_spaces(input@, i as int),
        decreases input@.len() - i,
    {
        i = i + 1;
    }
    i
}

/// One or more spaces or tabs at `pos`.
pub fn space_chars(input: &[char], pos: usize) -> (r: Option<usize>)
    ensures
        r == match spaces(input@, pos as int) {
            Some(e) => Some(e as usize),
            None => None,
        },
        r matches Some(e) ==> pos < e <= input@.len() && spaces(input@, pos as int) == Some(
            e as int,
        ),
{
    let end = skip_space_chars(input, pos);
    if end > pos {
        Some(end)
    } else {
        None
    }
}

} // verus!
