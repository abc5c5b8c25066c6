//! The directives of the language, as data.

use vstd::prelude::*;

verus! {

/// The ways in which a directive selects entries of an INI file.
#[derive(Debug, Clone, PartialEq, Eq)]
pub enum Matcher {
    /// A whole section, by its exact name.
    Section(String),
    /// One entry, by the exact names of its section and key.
    Literal(String, String),
    /// The entries whose section and key match the two regular expressions.
    Regex(String, String),
}

/// A [`Matcher`] as a mathematical value.
pub enum MatcherView {
    Section(Seq<char>),
    Literal(Seq<char>, Seq<char>),
    Regex(Seq<char>, Seq<char>),
}

impl View for Matcher {
    type V = MatcherView;

    open spec fn view(&self) -> MatcherView {
        match self {
            Matcher::Section(section) => MatcherView::Section(section@),
            Matcher::Literal(section, key) => MatcherView::Literal(section@, key@),
            Matcher::Regex(section, key) => MatcherView::Regex(section@, key@),
        }
    }
}

/// The position of the first entry of `args` at or after `from` whose key is
/// `key`; the length of `args` where there is none.
pub open spec fn key_index(args: Seq<(Seq<char>, Seq<char>)>, key: Seq<char>, from: int) -> int
    decreases args.len() - from,
{
    if from < 0 || from >= args.len() {
        args.len() as int
    } else if args[from].0 == key {
        from
    } else {
        key_index(args, key, from + 1)
    }
}

/// `args` after `key` was given `value`: a key that is already there keeps its
/// place and takes the new value, a new one goes to the end.
pub open spec fn with_arg(
    args: Seq<(Seq<char>, Seq<char>)>,
    key: Seq<char>,
    value: Seq<char>,
) -> Seq<(Seq<char>, Seq<char>)> {
    let i = key_index(args, key, 0);
    if i < args.len() {
        args.update(i, (key, value))
    } else {
        args.push((key, value))
    }
}

/// No key occurs twice in `args`.
pub open spec fn distinct_keys(args: Seq<(Seq<char>, Seq<char>)>) -> bool {
    forall|i: int, j: int| 0 <= i < j < args.len() ==> (#[trigger] args[i]).0 != (#[trigger] args[j]).0
}

/// The value that `args` holds for `key`.
pub open spec fn arg_value(args: Seq<(Seq<char>, Seq<char>)>, key: Seq<char>) -> Option<Seq<char>> {
    let i = key_index(args, key, 0);
    if i < args.len() {
        Some(args[i].1)
    } else {
        None
    }
}

/// The position that [`key_index`] gives holds the key, and no position
/// before it does.
pub(crate) proof fn lemma_key_index(args: Seq<(Seq<char>, Seq<char>)>, key: Seq<char>, from: int)
    requires
        0 <= from <= args.len(),
    ensures
        from <= key_index(args, key, from) <= args.len(),
        key_index(args, key, from) < args.len() ==> args[key_index(args, key, from)].0 == key,
        forall|i: int| from <= i < key_index(args, key, from) ==> (#[trigger] args[i]).0 != key,
    decreases args.len() - from,
{
    if from < args.len() && args[from].0 != key {
        lemma_key_index(args, key, from + 1);
    }
}

/// Giving a key a value keeps the keys distinct, and makes that value the one
/// found under the key.
pub proof fn lemma_with_arg(args: Seq<(Seq<char>, Seq<char>)>, key: Seq<char>, value: Seq<char>)
    requires
        distinct_keys(args),
    ensures
        distinct_keys(with_arg(args, key, value)),
        arg_value(with_arg(args, key, value), key) == Some(value),
{
    lemma_key_index(args, key, 0);
    let after = with_arg(args, key, value);
    lemma_key_index(after, key, 0);
    let i = key_index(args, key, 0);
    if i < args.len() {
        assert(after[i].0 == key);
    } else {
        assert(after[args.len() as int].0 == key);
    }
}

/// The named arguments of a transform: each key once, in the order in which
/// the keys first appeared.
#[derive(Debug, PartialEq, Eq)]
pub struct TransformArgs {
    entries: Vec<(String, String)>,
}

impl View for TransformArgs {
    type V = Seq<(Seq<char>, Seq<char>)>;

    closed spec fn view(&self) -> Seq<(Seq<char>, Seq<char>)> {
        Seq::new(self.entries@.len(), |i: int| (self.entries@[i].0@, self.entries@[i].1@))
    }
}

impl Clone for TransformArgs {
    fn clone(&self) -> (copy: TransformArgs)
        ensures
            copy@ == self@,
    {
        let mut entries: Vec<(String, String)> = Vec::new();
        let mut i: usize = 0;
        while i < self.entries.len()
            invariant
                i <= self.entries@.len(),
                entries@.len() == i,
                forall|j: int|
                    0 <= j < i ==> (#[trigger] entries@[j]).0@ == self.entries@[j].0@
                        && entries@[j].1@ == self.entries@[j].1@,
            decreases self.entries@.len() - i,
        {
            entries.push((self.entries[i].0.clone(), self.entries[i].1.clone()));
            i = i + 1;
        }
        proof {
            use_type_invariant(self);
        }
        assert(Seq::new(entries@.len(), |j: int| (entries@[j].0@, entries@[j].1@)) =~= self@);
        TransformArgs { entries }
    }
}

impl TransformArgs {
    /// The invariant of the type: no key occurs twice.
    #[verifier::type_invariant]
    pub open spec fn distinct(self) -> bool {
        distinct_keys(self@)
    }

    /// No arguments.
    pub fn new() -> (args: TransformArgs)
        ensures
            args@ == Seq::<(Seq<char>, Seq<char>)>::empty(),
    {
        let entries: Vec<(String, String)> = Vec::new();
        assert(Seq::new(entries@.len(), |i: int| (entries@[i].0@, entries@[i].1@))
            =~= Seq::<(Seq<char>, Seq<char>)>::empty());
        TransformArgs { entries }
    }

    /// The number of arguments.
    pub fn len(&self) -> (n: usize)
        ensures
            n == self@.len(),
    {
        self.entries.len()
    }

    /// Whether there is no argument.
    pub fn is_empty(&self) -> (r: bool)
        ensures
            r == (self@.len() == 0),
    {
        self.entries.len() == 0
    }

    /// The arguments as pairs of key and value, in order.
    pub fn entries(&self) -> (entries: &Vec<(String, String)>)
        ensures
            entries@.len() == self@.len(),
            forall|i: int|
                0 <= i < entries@.len() ==> (#[trigger] entries@[i]).0@ == self@[i].0
                    && entries@[i].1@ == self@[i].1,
    {
        &self.entries
    }

    /// Where `key` stands among the arguments.
    fn position(&self, key: &str) -> (index: usize)
        ensures
            index == key_index(self@, key@, 0),
            index <= self@.len(),
    {
        let mut i: usize = 0;
        while i < self.entries.len()
            invariant
                i <= self.entries@.len(),
                self@.len() == self.entries@.len(),
                key_index(self@, key@, 0) == key_index(self@, key@, i as int),
            decreases self.entries@.len() - i,
        {
            if self.entries[i].0.as_str().eq(key) {
                return i;
            }
            i = i + 1;
        }
        i
    }

    /// The value given to `key`, if any.
    pub fn get(&self, key: &str) -> (value: Option<&String>)
        ensures
            match value {
                Some(v) => arg_value(self@, key@) == Some(v@),
                None => arg_value(self@, key@) is None,
            },
    {
        let i = self.position(key);
        if i < self.entries.len() {
            Some(&self.entries[i].1)
        } else {
            None
        }
    }

    /// These arguments with `key` given the value `value`. A key that is
    /// already there keeps its place and loses its earlier value.
    pub fn with(self, key: String, value: String) -> (args: TransformArgs)
        ensures
            args@ == with_arg(self@, key@, value@),
    {
        let i = self.position(key.as_str());
        let ghost before = self@;
        proof {
            use_type_invariant(&self);
            lemma_with_arg(before, key@, value@);
        }
        let mut entries = self.entries;
        if i < entries.len() {
            entries.set(i, (key, value));
        } else {
            entries.push((key, value));
        }
        assert(Seq::new(entries@.len(), |j: int| (entries@[j].0@, entries@[j].1@)) =~= with_arg(
            before,
            key@,
            value@,
        ));
        TransformArgs { entries }
    }
}

/// One line of the directive language.
#[derive(Debug, Clone, PartialEq, Eq)]
pub enum Directive {
    /// A blank line, a comment or a left-over template fragment: no effect.
    WS,
    /// The tracked copy is at this path.
    Source(String),
    /// The tracked copy is found from what the tracking tool puts into the
    /// environment.
    SourceAuto,
    /// The tracked copy is found from the script's own file name. The grammar
    /// has no line for it: it is for callers that put a list of directives
    /// together themselves.
    SourceAutoPath,
    /// Keep the live value of what matches, and do not capture it either.
    Ignore(Matcher),
    /// Run the named transform on what matches.
    Transform(Matcher, String, TransformArgs),
    /// Set an entry to a fixed value.
    Setter { section: String, key: String, value: String, separator: Option<String> },
    /// Remove what matches.
    Remove(Matcher),
    /// When capturing: leave out what matches.
    AddRemove(Matcher),
    /// When capturing: keep what matches but hide its value.
    AddHide(Matcher),
    /// Do not report a key that several regular expressions match. The
    /// grammar has no line for it either.
    NoWarnMultipleKeyMatches,
}

/// A [`Directive`] as a mathematical value.
pub enum DirectiveView {
    WS,
    Source(Seq<char>),
    SourceAuto,
    SourceAutoPath,
    Ignore(MatcherView),
    Transform(MatcherView, Seq<char>, Seq<(Seq<char>, Seq<char>)>),
    Setter { section: Seq<char>, key: Seq<char>, value: Seq<char>, separator: Option<Seq<char>> },
    Remove(MatcherView),
    AddRemove(MatcherView),
    AddHide(MatcherView),
    NoWarnMultipleKeyMatches,
}

impl View for Directive {
    type V = DirectiveView;

    open spec fn view(&self) -> DirectiveView {
        match self {
            Directive::WS => DirectiveView::WS,
            Directive::Source(path) => DirectiveView::Source(path@),
            Directive::SourceAuto => DirectiveView::SourceAuto,
            Directive::SourceAutoPath => DirectiveView::SourceAutoPath,
            Directive::Ignore(m) => DirectiveView::Ignore(m@),
            Directive::Transform(m, name, args) => DirectiveView::Transform(m@, name@, args@),
            Directive::Setter { section, key, value, separator } => DirectiveView::Setter {
                section: section@,
                key: key@,
                value: value@,
                separator: match separator {
                    Some(s) => Some(s@),
                    None => None,
                },
            },
            Directive::Remove(m) => DirectiveView::Remove(m@),
            Directive::AddRemove(m) => DirectiveView::AddRemove(m@),
            Directive::AddHide(m) => DirectiveView::AddHide(m@),
            Directive::NoWarnMultipleKeyMatches => DirectiveView::NoWarnMultipleKeyMatches,
        }
    }
}

/// The views of a list of directives, in order.
pub open spec fn directive_views(directives: Seq<Directive>) -> Seq<DirectiveView> {
    Seq::new(directives.len(), |i: int| directives[i]@)
}

} // verus!
