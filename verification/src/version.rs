//! The version of the tracking tool.

use crate::text::chars_of;
use regex::Regex;
use vstd::prelude::*;

verus! {

/// A version of the tracking tool: major, minor and patch number.
#[derive(Copy, Clone, Debug, PartialEq, Eq, PartialOrd, Ord, Structural)]
pub struct ChezmoiVersion(pub i32, pub i32, pub i32);

/// The first version of the tracking tool under which `source auto` works.
pub open spec fn spec_auto_source_version() -> ChezmoiVersion {
    ChezmoiVersion(2, 46, 1)
}

/// The first version of the tracking tool under which `source auto` works.
#[verifier::when_used_as_spec(spec_auto_source_version)]
pub fn auto_source_version() -> (v: ChezmoiVersion)
    ensures
        v == spec_auto_source_version(),
{
    ChezmoiVersion(2, 46, 1)
}

/// The pattern of a version as the environment gives it: three numbers with
/// dots between them and nothing else.
pub const ENV_VERSION_PATTERN: &'static str = "^([0-9]+)\\.([0-9]+)\\.([0-9]+)$";

/// The pattern of a version inside what the tool prints: `v` and three numbers
/// with dots between them, anywhere in the text.
pub const OUTPUT_VERSION_PATTERN: &'static str = "v([0-9]+)\\.([0-9]+)\\.([0-9]+)";

/// Why a text gave no version.
#[derive(Copy, Clone, Debug, PartialEq, Eq, Structural)]
pub enum VersionError {
    /// The text does not have the form of a version.
    NoVersion,
    /// One of the three numbers is not a number that fits 32 bits.
    Number,
}

/// Versions are ordered by major, then minor, then patch number.
pub open spec fn older(a: ChezmoiVersion, b: ChezmoiVersion) -> bool {
    a.0 < b.0 || (a.0 == b.0 && (a.1 < b.1 || (a.1 == b.1 && a.2 < b.2)))
}

/// The value of a decimal digit.
pub open spec fn digit_value(c: char) -> Option<int> {
    if c == '0' {
        Some(0)
    } else if c == '1' {
        Some(1)
    } else if c == '2' {
        Some(2)
    } else if c == '3' {
        Some(3)
    } else if c == '4' {
        Some(4)
    } else if c == '5' {
        Some(5)
    } else if c == '6' {
        Some(6)
    } else if c == '7' {
        Some(7)
    } else if c == '8' {
        Some(8)
    } else if c == '9' {
        Some(9)
    } else {
        None
    }
}

/// The number that the decimal digits of `s` write; `None` where `s` is empty
/// or holds anything but digits.
pub open spec fn decimal(s: Seq<char>) -> Option<int>
    decreases s.len(),
{
    if s.len() == 0 {
        None
    } else if s.len() == 1 {
        digit_value(s[0])
    } else {
        match (decimal(s.drop_last()), digit_value(s.last())) {
            (Some(high), Some(low)) => Some(10 * high + low),
            _ => None,
        }
    }
}

/// The number that `s` writes, if it fits 32 bits.
pub open spec fn number(s: Seq<char>) -> Option<i32> {
    match decimal(s) {
        Some(v) => if v <= i32::MAX {
            Some(v as i32)
        } else {
            None
        },
        None => None,
    }
}

/// The version that three matched groups write.
pub open spec fn version_of_groups(groups: Seq<Option<Seq<char>>>) -> Result<
    ChezmoiVersion,
    VersionError,
> {
    if groups.len() == 3 && groups[0] is Some && groups[1] is Some && groups[2] is Some {
        match (number(groups[0]->0), number(groups[1]->0), number(groups[2]->0)) {
            (Some(major), Some(minor), Some(patch)) => Ok(ChezmoiVersion(major, minor, patch)),
            _ => Err(VersionError::Number),
        }
    } else {
        Err(VersionError::NoVersion)
    }
}

/// The version that the groups of a match write, if there was a match.
pub open spec fn version_of_match(found: Option<Seq<Option<Seq<char>>>>) -> Result<
    ChezmoiVersion,
    VersionError,
> {
    match found {
        Some(groups) => version_of_groups(groups),
        None => Err(VersionError::NoVersion),
    }
}

/// What the regular expression `pattern` captures in `text`: `None` where the
/// pattern does not compile or matches nowhere, else the texts of the groups
/// of its leftmost match, numbered from 1, with `None` for a group that took
/// no part in the match.
pub uninterp spec fn regex_groups(pattern: Seq<char>, text: Seq<char>) -> Option<
    Seq<Option<Seq<char>>>,
>;

/// The groups of a match as a mathematical value.
pub open spec fn groups_view(groups: Seq<Option<String>>) -> Seq<Option<Seq<char>>> {
    Seq::new(
        groups.len(),
        |i: int|
            match groups[i] {
                Some(text) => Some(text@),
                None => None,
            },
    )
}

/// Calls `Regex::new` of the regex crate on `pattern` and `Regex::captures` on
/// `text`. Trusted: the result is the function [`regex_groups`] of the two
/// texts, which is to say that the same pattern and text always capture the
/// same groups. Nothing is claimed of what a given pattern matches.
#[verifier::external_body]
fn regex_captures(pattern: &str, text: &str) -> (found: Option<Vec<Option<String>>>)
    ensures
        match found {
            Some(groups) => regex_groups(pattern@, text@) == Some(groups_view(groups@)),
            None => regex_groups(pattern@, text@) is None,
        },
{
    let re = Regex::new(pattern).ok()?;
    let caps = re.captures(text)?;
    Some(caps.iter().skip(1).map(|m| m.map(|m| m.as_str().to_owned())).collect())
}

fn digit_of(c: char) -> (r: Option<i64>)
    ensures
        match r {
            Some(d) => digit_value(c) == Some(d as int) && 0 <= d <= 9,
            None => digit_value(c) is None,
        },
{
    match c {
        '0' => Some(0),
        '1' => Some(1),
        '2' => Some(2),
        '3' => Some(3),
        '4' => Some(4),
        '5' => Some(5),
        '6' => Some(6),
        '7' => Some(7),
        '8' => Some(8),
        '9' => Some(9),
        _ => None,
    }
}

/// Where `s` writes a number, each of its beginnings writes one that is not
/// larger.
proof fn lemma_decimal_prefix(s: Seq<char>, n: int)
    requires
        1 <= n <= s.len(),
        decimal(s) is Some,
    ensures
        decimal(s.take(n)) matches Some(p) && 0 <= p <= decimal(s)->0,
    decreases s.len(),
{
    if n == s.len() {
        assert(s.take(n) == s);
        lemma_decimal_nonnegative(s);
    } else {
        assert(s.drop_last().take(n) == s.take(n));
        lemma_decimal_prefix(s.drop_last(), n);
    }
}

proof fn lemma_decimal_nonnegative(s: Seq<char>)
    requires
        decimal(s) is Some,
    ensures
        decimal(s)->0 >= 0,
    decreases s.len(),
{
    if s.len() > 1 {
        lemma_decimal_nonnegative(s.drop_last());
    }
}

/// Reads a number of decimal digits that fits 32 bits.
pub fn parse_number(text: &str) -> (r: Option<i32>)
    ensures
        r == number(text@),
{
    let digits = chars_of(text);
    let n: usize = digits.len();
    if n == 0 {
        return None;
    }
    let mut acc: i64 = 0;
    let mut i: usize = 0;
    while i < n
        invariant
            n == digits@.len(),
            n > 0,
            digits@ == text@,
            i <= n,
            0 <= acc <= i32::MAX,
            i > 0 ==> decimal(digits@.take(i as int)) == Some(acc as int),
            i == 0 ==> acc == 0,
        decreases n - i,
    {
        let d = match digit_of(digits[i]) {
            Some(d) => d,
            None => {
                proof {
                    if decimal(digits@) is Some {
                        lemma_decimal_prefix(digits@, i + 1);
                        assert(digits@.take(i + 1).last() == digits@[i as int]);
                    }
                }
                return None;
            },
        };
        let next: i64 = acc * 10 + d;
        proof {
            let prefix = digits@.take(i + 1);
            assert(prefix.last() == digits@[i as int]);
            assert(prefix.drop_last() == digits@.take(i as int));
            assert(decimal(prefix) == Some(next as int));
        }
        if next > i32::MAX as i64 {
            proof {
                if decimal(digits@) is Some {
                    lemma_decimal_prefix(digits@, i + 1);
                }
            }
            return None;
        }
        acc = next;
        i = i + 1;
    }
    assert(digits@.take(n as int) == digits@);
    Some(acc as i32)
}

impl ChezmoiVersion {
    /// Whether this version came before `other`.
    pub fn older_than(&self, other: &ChezmoiVersion) -> (r: bool)
        ensures
            r == older(*self, *other),
    {
        self.0 < other.0 || (self.0 == other.0 && (self.1 < other.1 || (self.1 == other.1 && self.2
            < other.2)))
    }

    /// The version that the groups of a match write: there must be three, and
    /// each a number.
    pub fn from_groups(groups: &Vec<Option<String>>) -> (r: Result<ChezmoiVersion, VersionError>)
        ensures
            r == version_of_groups(groups_view(groups@)),
    {
        if groups.len() != 3 {
            return Err(VersionError::NoVersion);
        }
        match (&groups[0], &groups[1], &groups[2]) {
            (Some(major), Some(minor), Some(patch)) => {
                match (
                    parse_number(major.as_str()),
                    parse_number(minor.as_str()),
                    parse_number(patch.as_str()),
                ) {
                    (Some(a), Some(b), Some(c)) => Ok(ChezmoiVersion(a, b, c)),
                    _ => Err(VersionError::Number),
                }
            },
            _ => Err(VersionError::NoVersion),
        }
    }

    /// The version that `pattern` finds in `text`.
    fn from_pattern(pattern: &str, text: &str) -> (r: Result<ChezmoiVersion, VersionError>)
        ensures
            r == version_of_match(regex_groups(pattern@, text@)),
    {
        match regex_captures(pattern, text) {
            Some(groups) => ChezmoiVersion::from_groups(&groups),
            None => Err(VersionError::NoVersion),
        }
    }

    /// Reads a version in the form in which the environment gives it, such as
    /// `2.46.0`.
    pub fn from_env_var(s: &str) -> (r: Result<ChezmoiVersion, VersionError>)
        ensures
            r == version_of_match(regex_groups(ENV_VERSION_PATTERN@, s@)),
    {
        ChezmoiVersion::from_pattern(ENV_VERSION_PATTERN, s)
    }

    /// Reads the version out of what the tool prints when asked for it, such
    /// as `chezmoi version v2.46.1, built at ...`.
    pub fn from_version_output(s: &str) -> (r: Result<ChezmoiVersion, VersionError>)
        ensures
            r == version_of_match(regex_groups(OUTPUT_VERSION_PATTERN@, s@)),
    {
        ChezmoiVersion::from_pattern(OUTPUT_VERSION_PATTERN, s)
    }
}

/// The character of a decimal digit.
pub open spec fn digit_char(d: int) -> char {
    if d == 0 {
        '0'
    } else if d == 1 {
        '1'
    } else if d == 2 {
        '2'
    } else if d == 3 {
        '3'
    } else if d == 4 {
        '4'
    } else if d == 5 {
        '5'
    } else if d == 6 {
        '6'
    } else if d == 7 {
        '7'
    } else if d == 8 {
        '8'
    } else {
        '9'
    }
}

/// A natural number in decimal digits, without leading zeros.
pub open spec fn natural_text(n: nat) -> Seq<char>
    decreases n,
{
    if n < 10 {
        seq![digit_char(n as int)]
    } else {
        natural_text(n / 10).push(digit_char((n % 10) as int))
    }
}

/// A number in decimal digits, with `-` before it where it is negative.
pub open spec fn number_text(n: int) -> Seq<char> {
    if n < 0 {
        seq!['-'] + natural_text((-n) as nat)
    } else {
        natural_text(n as nat)
    }
}

/// A version as it is shown: `v`, and the three numbers with dots between
/// them.
pub open spec fn version_text(v: ChezmoiVersion) -> Seq<char> {
    seq!['v'] + number_text(v.0 as int) + seq!['.'] + number_text(v.1 as int) + seq!['.']
        + number_text(v.2 as int)
}

fn digit_char_of(d: u32) -> (c: char)
    requires
        d < 10,
    ensures
        c == digit_char(d as int),
{
    if d == 0 {
        '0'
    } else if d == 1 {
        '1'
    } else if d == 2 {
        '2'
    } else if d == 3 {
        '3'
    } else if d == 4 {
        '4'
    } else if d == 5 {
        '5'
    } else if d == 6 {
        '6'
    } else if d == 7 {
        '7'
    } else if d == 8 {
        '8'
    } else {
        '9'
    }
}

fn push_natural(n: u32, out: &mut String)
    ensures
        final(out)@ == old(out)@ + natural_text(n as nat),
    decreases n,
{
    let ghost start = out@;
    if n >= 10 {
        push_natural(n / 10, out);
    }
    out.push(digit_char_of(n % 10));
    proof {
        if n >= 10 {
            assert((start + natural_text((n / 10) as nat)).push(digit_char((n % 10) as int))
                =~= start + natural_text(n as nat));
        } else {
            assert(start.push(digit_char(n as int)) =~= start + natural_text(n as nat));
        }
    }
}

fn push_number(n: i32, out: &mut String)
    ensures
        final(out)@ == old(out)@ + number_text(n as int),
{
    let ghost start = out@;
    if n < 0 {
        out.push('-');
        let m: i64 = -(n as i64);
        push_natural(m as u32, out);
        assert(out@ =~= start + number_text(n as int));
    } else {
        push_natural(n as u32, out);
    }
}

impl ChezmoiVersion {
    /// The version as it is shown, such as `v2.46.1`.
    pub fn text(&self) -> (text: String)
        ensures
            text@ == version_text(*self),
    {
        let mut text = String::new();
        text.push('v');
        push_number(self.0, &mut text);
        text.push('.');
        push_number(self.1, &mut text);
        text.push('.');
        push_number(self.2, &mut text);
        assert(text@ =~= version_text(*self));
        text
    }
}

} // verus!
