//! Looking an entry up in a table.
//!
//! A table is consulted in three steps, and the first that finds a rule
//! decides: the rules for whole sections, by the exact name of the section;
//! then the rules for exact entries; then the patterns. Of several rules for
//! one exact name the last stands. Of several patterns that match, the first
//! that was given stands, and the entry is ambiguous.
//!
//! A pattern is matched as the engine matches it: the name of the entry is
//! searched for a match of [`crate::table::entry_pattern`], and nothing is
//! anchored. A directive whose patterns are to match whole names writes `^`
//! and `$` into them.

use crate::engine::{pattern_set_compiles, regex_set_compiles};
use crate::table::{
    entry_model, entry_name, entry_pattern, merge_rules_model, EntryModel, FilterRule,
    FilterRuleView, FilterTable, MergeRule, MergeRuleView, MergeTable, SectionAction,
    TransformerModel,
};
use regex::RegexSet;
use vstd::prelude::*;
use vstd::string::StringExecFns;

verus! {

/// By what a rule is found.
#[derive(Debug, Clone, PartialEq, Eq)]
pub enum RuleKey {
    /// The exact name of a section.
    Section(String),
    /// The exact name of an entry, section and key joined.
    Entry(String),
    /// A regular expression for the names of entries.
    Pattern(String),
}

/// A [`RuleKey`] as a mathematical value.
pub enum RuleKeyView {
    Section(Seq<char>),
    Entry(Seq<char>),
    Pattern(Seq<char>),
}

impl View for RuleKey {
    type V = RuleKeyView;

    open spec fn view(&self) -> RuleKeyView {
        match self {
            RuleKey::Section(name) => RuleKeyView::Section(name@),
            RuleKey::Entry(name) => RuleKeyView::Entry(name@),
            RuleKey::Pattern(text) => RuleKeyView::Pattern(text@),
        }
    }
}

/// The views of a list of keys, in order.
pub open spec fn key_views(keys: Seq<RuleKey>) -> Seq<RuleKeyView> {
    Seq::new(keys.len(), |i: int| keys[i]@)
}

/// The key of a merge rule. A setter is a rule for an exact entry.
pub open spec fn merge_key(rule: MergeRuleView) -> RuleKeyView {
    match rule {
        MergeRuleView::Section { section, .. } => RuleKeyView::Section(section),
        MergeRuleView::Literal { section, key, .. } => RuleKeyView::Entry(entry_name(section, key)),
        MergeRuleView::Regex { section, key, .. } => RuleKeyView::Pattern(
            entry_pattern(section, key),
        ),
        MergeRuleView::Setter { section, key, .. } => RuleKeyView::Entry(entry_name(section, key)),
    }
}

/// The key of a filter rule.
pub open spec fn filter_key(rule: FilterRuleView) -> RuleKeyView {
    match rule {
        FilterRuleView::Section { section, .. } => RuleKeyView::Section(section),
        FilterRuleView::Literal { section, key, .. } => RuleKeyView::Entry(
            entry_name(section, key),
        ),
        FilterRuleView::Regex { section, key, .. } => RuleKeyView::Pattern(
            entry_pattern(section, key),
        ),
    }
}

/// The keys of the rules of a merge table, in order.
pub open spec fn merge_keys(rules: Seq<MergeRuleView>) -> Seq<RuleKeyView> {
    Seq::new(rules.len(), |i: int| merge_key(rules[i]))
}

/// The keys of the rules of a filter table, in order.
pub open spec fn filter_keys(rules: Seq<FilterRuleView>) -> Seq<RuleKeyView> {
    Seq::new(rules.len(), |i: int| filter_key(rules[i]))
}

/// The last position before `upto` at which `target` stands among `keys`.
pub open spec fn last_match(keys: Seq<RuleKeyView>, target: RuleKeyView, upto: int) -> Option<int>
    decreases upto,
{
    if upto <= 0 || upto > keys.len() {
        None
    } else if keys[upto - 1] == target {
        Some(upto - 1)
    } else {
        last_match(keys, target, upto - 1)
    }
}

/// The patterns among the first `n` keys, in order.
pub open spec fn patterns(keys: Seq<RuleKeyView>, n: int) -> Seq<Seq<char>>
    decreases n,
{
    if n <= 0 || n > keys.len() {
        Seq::empty()
    } else {
        match keys[n - 1] {
            RuleKeyView::Pattern(text) => patterns(keys, n - 1).push(text),
            _ => patterns(keys, n - 1),
        }
    }
}

/// The positions of the patterns among the first `n` keys, in order.
pub open spec fn pattern_positions(keys: Seq<RuleKeyView>, n: int) -> Seq<int>
    decreases n,
{
    if n <= 0 || n > keys.len() {
        Seq::empty()
    } else if keys[n - 1] is Pattern {
        pattern_positions(keys, n - 1).push(n - 1)
    } else {
        pattern_positions(keys, n - 1)
    }
}

/// The patterns of the set `patterns` that match somewhere in `text`, by
/// their positions in the set, as `regex::RegexSet::matches` finds them. A
/// pattern matches where any part of the text matches it: what the engine
/// does, and so what a lookup here does, is a search, not a match of the
/// whole text.
pub uninterp spec fn regex_set_hits(patterns: Seq<Seq<char>>, text: Seq<char>) -> Seq<int>;

/// The texts of a list of strings.
pub open spec fn texts(list: Seq<String>) -> Seq<Seq<char>> {
    Seq::new(list.len(), |i: int| list[i]@)
}

/// The positions in a list as mathematical integers.
pub open spec fn positions(list: Seq<usize>) -> Seq<int> {
    Seq::new(list.len(), |i: int| list[i] as int)
}

/// `regex::RegexSet::new` on the patterns and `RegexSet::matches` on the
/// text. Trusted: a set of no pattern compiles, and any other set exactly
/// when [`regex_set_compiles`] says so; the matches are the function
/// [`regex_set_hits`] of patterns and text; they come in ascending order, and
/// each is the position of a pattern, so that a set of no pattern matches
/// nothing. The text is searched for a match: no pattern is anchored.
#[verifier::external_body]
pub(crate) fn regex_set_matches(patterns: &Vec<String>, text: &str) -> (r: Option<Vec<usize>>)
    ensures
        r is Some <==> (texts(patterns@).len() == 0 || regex_set_compiles(texts(patterns@))),
        r matches Some(hits) ==> positions(hits@) == regex_set_hits(texts(patterns@), text@)
            && (forall|i: int| 0 <= i < hits@.len() ==> (#[trigger] hits@[i]) < patterns@.len())
            && (forall|i: int, j: int|
            0 <= i < j < hits@.len() ==> (#[trigger] hits@[i]) < (#[trigger] hits@[j])),
{
    let set = RegexSet::new(patterns).ok()?;
    Some(set.matches(text).iter().collect())
}

/// What a lookup found.
#[derive(Debug, Clone, Copy, PartialEq, Eq, Structural)]
pub struct Found {
    /// The position of the rule that applies, if one does.
    pub rule: Option<usize>,
    /// How many patterns matched, where the patterns were consulted.
    pub hits: usize,
}

/// A [`Found`] as a mathematical value.
pub struct FoundView {
    pub rule: Option<int>,
    pub hits: int,
}

impl View for Found {
    type V = FoundView;

    open spec fn view(&self) -> FoundView {
        FoundView {
            rule: match self.rule {
                Some(i) => Some(i as int),
                None => None,
            },
            hits: self.hits as int,
        }
    }
}

/// What looking up the entry `key` of `section` finds among `keys`, given the
/// patterns that match the entry's name: a rule for the section, else a rule
/// for the entry, else the first pattern that matches.
pub open spec fn find_with_hits(
    keys: Seq<RuleKeyView>,
    section: Seq<char>,
    key: Seq<char>,
    hits: Seq<int>,
) -> FoundView {
    let n = keys.len() as int;
    if last_match(keys, RuleKeyView::Section(section), n) is Some {
        FoundView { rule: last_match(keys, RuleKeyView::Section(section), n), hits: 0 }
    } else if last_match(keys, RuleKeyView::Entry(entry_name(section, key)), n) is Some {
        FoundView {
            rule: last_match(keys, RuleKeyView::Entry(entry_name(section, key)), n),
            hits: 0,
        }
    } else if hits.len() > 0 {
        FoundView { rule: Some(pattern_positions(keys, n)[hits[0]]), hits: hits.len() as int }
    } else {
        FoundView { rule: None, hits: 0 }
    }
}

/// Whether a lookup has to consult the patterns: no rule for the section and
/// none for the entry.
pub open spec fn consults_patterns(keys: Seq<RuleKeyView>, section: Seq<char>, key: Seq<char>) -> bool {
    last_match(keys, RuleKeyView::Section(section), keys.len() as int) is None && last_match(
        keys,
        RuleKeyView::Entry(entry_name(section, key)),
        keys.len() as int,
    ) is None
}

/// What looking up the entry `key` of `section` finds among `keys`. `None`
/// where the patterns have to be consulted and do not compile.
pub open spec fn find(keys: Seq<RuleKeyView>, section: Seq<char>, key: Seq<char>) -> Option<
    FoundView,
> {
    let set = patterns(keys, keys.len() as int);
    if consults_patterns(keys, section, key) && !pattern_set_compiles(set) {
        None
    } else {
        Some(find_with_hits(keys, section, key, regex_set_hits(set, entry_name(section, key))))
    }
}

/// Whether a lookup found an entry that several patterns match.
pub open spec fn ambiguous(found: FoundView) -> bool {
    found.hits > 1
}

/// What [`last_match`] finds holds the target, and nothing after it does up
/// to the bound; where it finds nothing, nothing holds the target.
pub proof fn lemma_last_match(keys: Seq<RuleKeyView>, target: RuleKeyView, upto: int)
    requires
        0 <= upto <= keys.len(),
    ensures
        match last_match(keys, target, upto) {
            Some(i) => 0 <= i < upto && keys[i] == target && forall|j: int|
                i < j < upto ==> keys[j] != target,
            None => forall|j: int| 0 <= j < upto ==> keys[j] != target,
        },
    decreases upto,
{
    if upto > 0 && keys[upto - 1] != target {
        lemma_last_match(keys, target, upto - 1);
    }
}

/// The positions of the patterns are as many as the patterns, each holds its
/// pattern, and they ascend.
pub proof fn lemma_pattern_positions(keys: Seq<RuleKeyView>, n: int)
    requires
        0 <= n <= keys.len(),
    ensures
        pattern_positions(keys, n).len() == patterns(keys, n).len(),
        forall|i: int|
            0 <= i < pattern_positions(keys, n).len() ==> 0 <= (#[trigger] pattern_positions(
                keys,
                n,
            )[i]) < n && keys[pattern_positions(keys, n)[i]] == RuleKeyView::Pattern(
                patterns(keys, n)[i],
            ),
        forall|i: int, j: int|
            0 <= i < j < pattern_positions(keys, n).len() ==> (#[trigger] pattern_positions(
                keys,
                n,
            )[i]) < (#[trigger] pattern_positions(keys, n)[j]),
    decreases n,
{
    if n > 0 {
        lemma_pattern_positions(keys, n - 1);
    }
}

/// The positions of the patterns among the first `n` keys stay where they are
/// when more keys are looked at.
proof fn lemma_positions_extend(keys: Seq<RuleKeyView>, n: int, m: int)
    requires
        0 <= n <= m <= keys.len(),
    ensures
        pattern_positions(keys, n).len() <= pattern_positions(keys, m).len(),
        forall|j: int|
            0 <= j < pattern_positions(keys, n).len() ==> (#[trigger] pattern_positions(keys, m)[j])
                == pattern_positions(keys, n)[j],
    decreases m - n,
{
    if n < m {
        lemma_positions_extend(keys, n, m - 1);
    }
}

/// An exact rule stands before every pattern.
///
/// Where a rule names the entry `key` of `section` exactly, and no rule names
/// the whole section, a lookup of the entry finds the last rule that names it,
/// whatever patterns the table holds and whichever of them match.
pub proof fn lemma_literal_before_pattern(
    keys: Seq<RuleKeyView>,
    section: Seq<char>,
    key: Seq<char>,
    at: int,
    hits: Seq<int>,
)
    requires
        0 <= at < keys.len(),
        keys[at] == RuleKeyView::Entry(entry_name(section, key)),
        forall|i: int| 0 <= i < keys.len() ==> keys[i] != RuleKeyView::Section(section),
    ensures
        find_with_hits(keys, section, key, hits).rule matches Some(i) && at <= i < keys.len()
            && keys[i] == RuleKeyView::Entry(entry_name(section, key)) && forall|j: int|
            i < j < keys.len() ==> keys[j] != keys[i],
        find(keys, section, key) == Some(find_with_hits(keys, section, key, hits)),
        !ambiguous(find_with_hits(keys, section, key, hits)),
{
    lemma_last_match(keys, RuleKeyView::Section(section), keys.len() as int);
    lemma_last_match(keys, RuleKeyView::Entry(entry_name(section, key)), keys.len() as int);
}

/// Of the patterns that match, the first that was given stands.
///
/// Where no exact rule applies and the patterns at the positions `hits`
/// of the set match, in ascending order, a lookup finds the rule of the first
/// of them, which stands before the rules of all the others; and the entry
/// is ambiguous exactly when more than one pattern matches.
pub proof fn lemma_first_pattern_stands(
    keys: Seq<RuleKeyView>,
    section: Seq<char>,
    key: Seq<char>,
    hits: Seq<int>,
)
    requires
        consults_patterns(keys, section, key),
        hits.len() > 0,
        forall|i: int|
            0 <= i < hits.len() ==> 0 <= (#[trigger] hits[i]) < patterns(
                keys,
                keys.len() as int,
            ).len(),
        forall|i: int, j: int| 0 <= i < j < hits.len() ==> (#[trigger] hits[i]) < (#[trigger] hits[j]),
    ensures
        find_with_hits(keys, section, key, hits).rule matches Some(first) && 0 <= first
            < keys.len() && keys[first] == RuleKeyView::Pattern(
            patterns(keys, keys.len() as int)[hits[0]],
        ) && forall|h: int|
            1 <= h < hits.len() ==> first < pattern_positions(keys, keys.len() as int)[hits[h]],
        ambiguous(find_with_hits(keys, section, key, hits)) <==> hits.len() > 1,
{
    lemma_pattern_positions(keys, keys.len() as int);
}

/// What the engine does with an entry under a rule of the merge table.
pub open spec fn merge_rule_model(rule: MergeRuleView) -> EntryModel {
    match rule {
        MergeRuleView::Section { action, .. } => match action {
            SectionAction::Ignore => EntryModel::Ignore,
            SectionAction::Delete => EntryModel::Delete,
        },
        MergeRuleView::Literal { action, .. } => entry_model(action),
        MergeRuleView::Regex { action, .. } => entry_model(action),
        MergeRuleView::Setter { key, value, separator, .. } => EntryModel::Transform(
            TransformerModel::Fixed(key + separator + value),
        ),
    }
}

/// The action of a rule for a whole section.
pub open spec fn section_action_of(rule: MergeRuleView) -> SectionAction {
    match rule {
        MergeRuleView::Section { action, .. } => action,
        _ => SectionAction::Ignore,
    }
}

proof fn lemma_last_match_prefix(
    a: Seq<RuleKeyView>,
    b: Seq<RuleKeyView>,
    target: RuleKeyView,
    upto: int,
)
    requires
        0 <= upto <= a.len(),
        upto <= b.len(),
        forall|i: int| 0 <= i < upto ==> a[i] == b[i],
    ensures
        last_match(a, target, upto) == last_match(b, target, upto),
    decreases upto,
{
    if upto > 0 && a[upto - 1] != target {
        lemma_last_match_prefix(a, b, target, upto - 1);
    }
}

proof fn lemma_patterns_prefix(a: Seq<RuleKeyView>, b: Seq<RuleKeyView>, n: int)
    requires
        0 <= n <= a.len(),
        n <= b.len(),
        forall|i: int| 0 <= i < n ==> a[i] == b[i],
    ensures
        patterns(a, n) == patterns(b, n),
        pattern_positions(a, n) == pattern_positions(b, n),
    decreases n,
{
    if n > 0 {
        lemma_patterns_prefix(a, b, n - 1);
    }
}

/// A lookup among the keys of a merge table reads what the engine holds of
/// the table, for sections: the engine holds an action for a section exactly
/// where a lookup finds a rule for the section, and it is the action of that
/// rule.
pub proof fn lemma_lookup_reads_sections(rules: Seq<MergeRuleView>)
    ensures
        forall|section: Seq<char>|
            match #[trigger] last_match(
                merge_keys(rules),
                RuleKeyView::Section(section),
                rules.len() as int,
            ) {
                Some(i) => merge_rules_model(rules).sections.contains_key(section)
                    && merge_rules_model(rules).sections[section] == section_action_of(rules[i]),
                None => !merge_rules_model(rules).sections.contains_key(section),
            },
    decreases rules.len(),
{
    let n = rules.len() as int;
    let keys = merge_keys(rules);
    let model = merge_rules_model(rules);
    let before = rules.drop_last();
    let keys_before = merge_keys(before);
    let model_before = merge_rules_model(before);
    if n > 0 {
        lemma_lookup_reads_sections(before);
        assert(keys[n - 1] == merge_key(rules.last()));
    }
    assert forall|section: Seq<char>|
        match #[trigger] last_match(
            merge_keys(rules),
            RuleKeyView::Section(section),
            rules.len() as int,
        ) {
            Some(i) => merge_rules_model(rules).sections.contains_key(section)
                && merge_rules_model(rules).sections[section] == section_action_of(rules[i]),
            None => !merge_rules_model(rules).sections.contains_key(section),
        } by {
        let target = RuleKeyView::Section(section);
        if n > 0 {
            lemma_last_match_prefix(keys, keys_before, target, n - 1);
            lemma_last_match(keys_before, target, n - 1);
            let held = model_before.sections.contains_key(section);
            let found_before = last_match(keys_before, target, n - 1);
            if keys[n - 1] == target {
                assert(rules.last() is Section);
                assert(model.sections.contains_key(section));
            } else {
                assert(last_match(keys, target, n) == found_before);
                assert(model.sections.contains_key(section) == held);
                if let Some(i) = found_before {
                    assert(rules[i] == before[i]);
                    assert(model.sections[section] == model_before.sections[section]);
                }
            }
        } else {
            assert(last_match(keys, target, n) is None);
            assert(!model.sections.contains_key(section));
        }
    }
}

/// A lookup among the keys of a merge table reads what the engine holds of
/// the table, for exact entries: the engine holds an action for an entry
/// exactly where a lookup finds a rule for the entry, and it is the action of
/// that rule.
pub proof fn lemma_lookup_reads_entries(rules: Seq<MergeRuleView>)
    ensures
        forall|name: Seq<char>|
            match #[trigger] last_match(
                merge_keys(rules),
                RuleKeyView::Entry(name),
                rules.len() as int,
            ) {
                Some(i) => merge_rules_model(rules).literals.contains_key(name)
                    && merge_rules_model(rules).literals[name] == merge_rule_model(rules[i]),
                None => !merge_rules_model(rules).literals.contains_key(name),
            },
    decreases rules.len(),
{
    let n = rules.len() as int;
    let keys = merge_keys(rules);
    let model = merge_rules_model(rules);
    let before = rules.drop_last();
    let keys_before = merge_keys(before);
    let model_before = merge_rules_model(before);
    if n > 0 {
        lemma_lookup_reads_entries(before);
        assert(keys[n - 1] == merge_key(rules.last()));
    }
    assert forall|name: Seq<char>|
        match #[trigger] last_match(
            merge_keys(rules),
            RuleKeyView::Entry(name),
            rules.len() as int,
        ) {
            Some(i) => merge_rules_model(rules).literals.contains_key(name) && merge_rules_model(
                rules,
            ).literals[name] == merge_rule_model(rules[i]),
            None => !merge_rules_model(rules).literals.contains_key(name),
        } by {
        let target = RuleKeyView::Entry(name);
        if n > 0 {
            lemma_last_match_prefix(keys, keys_before, target, n - 1);
            lemma_last_match(keys_before, target, n - 1);
            let held = model_before.literals.contains_key(name);
            let found_before = last_match(keys_before, target, n - 1);
            if keys[n - 1] == target {
                assert(rules.last() is Literal || rules.last() is Setter);
                assert(model.literals.contains_key(name));
            } else {
                assert(last_match(keys, target, n) == found_before);
                assert(model.literals.contains_key(name) == held);
                if let Some(i) = found_before {
                    assert(rules[i] == before[i]);
                    assert(model.literals[name] == model_before.literals[name]);
                }
            }
        } else {
            assert(last_match(keys, target, n) is None);
            assert(!model.literals.contains_key(name));
        }
    }
}

/// A lookup among the keys of a merge table reads what the engine holds of
/// the table, for patterns: the engine's patterns are those of the rules, in
/// order, each with the action of its rule.
pub proof fn lemma_lookup_reads_patterns(rules: Seq<MergeRuleView>)
    ensures
        merge_rules_model(rules).patterns.len() == patterns(
            merge_keys(rules),
            rules.len() as int,
        ).len(),
        forall|j: int|
            0 <= j < merge_rules_model(rules).patterns.len() ==> (#[trigger] merge_rules_model(
                rules,
            ).patterns[j]) == (
                patterns(merge_keys(rules), rules.len() as int)[j],
                merge_rule_model(
                    rules[pattern_positions(merge_keys(rules), rules.len() as int)[j]],
                ),
            ),
    decreases rules.len(),
{
    let n = rules.len() as int;
    let keys = merge_keys(rules);
    let model = merge_rules_model(rules);
    let before = rules.drop_last();
    let keys_before = merge_keys(before);
    let model_before = merge_rules_model(before);
    if n > 0 {
        lemma_lookup_reads_patterns(before);
        lemma_patterns_prefix(keys, keys_before, n - 1);
        lemma_pattern_positions(keys, n);
        lemma_pattern_positions(keys_before, n - 1);
        assert(keys[n - 1] == merge_key(rules.last()));
    }
    assert forall|j: int| 0 <= j < model.patterns.len() implies (#[trigger] model.patterns[j]) == (
        patterns(keys, n)[j],
        merge_rule_model(rules[pattern_positions(keys, n)[j]]),
    ) by {
        if n > 0 && j < model_before.patterns.len() {
            assert(model.patterns[j] == model_before.patterns[j]);
            assert(rules[pattern_positions(keys_before, n - 1)[j]]
                == before[pattern_positions(keys_before, n - 1)[j]]);
        }
    }
}

/// The name under which the entry `key` of `section` is kept.
pub fn entry_name_of(section: &str, key: &str) -> (name: String)
    ensures
        name@ == entry_name(section@, key@),
{
    let mut name = String::from_str(section);
    name.push('\0');
    name.append(key);
    assert(name@ =~= entry_name(section@, key@));
    name
}

/// The one regular expression that is made of a pattern for the section and
/// one for the key.
pub fn entry_pattern_of(section: &str, key: &str) -> (text: String)
    ensures
        text@ == entry_pattern(section@, key@),
{
    let mut text = String::new();
    text.push('(');
    text.push('?');
    text.push(':');
    text.append(section);
    text.push(')');
    text.push('\0');
    text.push('(');
    text.push('?');
    text.push(':');
    text.append(key);
    text.push(')');
    assert(text@ =~= entry_pattern(section@, key@));
    text
}

fn same_key(a: &RuleKey, b: &RuleKey) -> (r: bool)
    ensures
        r == (a@ == b@),
{
    match (a, b) {
        (RuleKey::Section(x), RuleKey::Section(y)) => x.as_str().eq(y.as_str()),
        (RuleKey::Entry(x), RuleKey::Entry(y)) => x.as_str().eq(y.as_str()),
        (RuleKey::Pattern(x), RuleKey::Pattern(y)) => x.as_str().eq(y.as_str()),
        _ => false,
    }
}

fn last_position(keys: &Vec<RuleKey>, target: &RuleKey) -> (r: Option<usize>)
    ensures
        match r {
            Some(i) => last_match(key_views(keys@), target@, keys@.len() as int) == Some(i as int)
                && i < keys@.len(),
            None => last_match(key_views(keys@), target@, keys@.len() as int) is None,
        },
{
    let mut i: usize = keys.len();
    while i > 0
        invariant
            i <= keys@.len(),
            last_match(key_views(keys@), target@, keys@.len() as int) == last_match(
                key_views(keys@),
                target@,
                i as int,
            ),
        decreases i,
    {
        if same_key(&keys[i - 1], target) {
            return Some(i - 1);
        }
        i = i - 1;
    }
    None
}

/// Looks the entry `key` of `section` up among `keys`, given the patterns
/// that match the entry's name, by their positions among the patterns and in
/// ascending order.
pub fn find_rule_with_hits(keys: &Vec<RuleKey>, section: &str, key: &str, hits: &Vec<usize>) -> (r:
    Found)
    requires
        hits@.len() > 0 ==> hits@[0] < patterns(key_views(keys@), keys@.len() as int).len(),
    ensures
        r@ == find_with_hits(key_views(keys@), section@, key@, positions(hits@)),
        r.rule matches Some(i) ==> i < keys@.len(),
{
    if let Some(i) = last_position(keys, &RuleKey::Section(String::from_str(section))) {
        return Found { rule: Some(i), hits: 0 };
    }
    let name = entry_name_of(section, key);
    if let Some(i) = last_position(keys, &RuleKey::Entry(name)) {
        return Found { rule: Some(i), hits: 0 };
    }
    if hits.len() == 0 {
        return Found { rule: None, hits: 0 };
    }
    let ghost views = key_views(keys@);
    let first: usize = hits[0];
    let mut seen: usize = 0;
    let mut i: usize = 0;
    proof {
        lemma_pattern_positions(views, keys@.len() as int);
    }
    while i < keys.len()
        invariant
            i <= keys@.len(),
            views == key_views(keys@),
            seen == pattern_positions(views, i as int).len(),
            seen <= first,
            hits@.len() > 0,
            first == hits@[0],
            consults_patterns(views, section@, key@),
            first < pattern_positions(views, keys@.len() as int).len(),
            pattern_positions(views, keys@.len() as int).len() == patterns(
                views,
                keys@.len() as int,
            ).len(),
        decreases keys@.len() - i,
    {
        let is_pattern = match &keys[i] {
            RuleKey::Pattern(_) => true,
            _ => false,
        };
        if is_pattern {
            if seen == first {
                proof {
                    lemma_positions_extend(views, i + 1, keys@.len() as int);
                    assert(positions(hits@)[0] == first);
                    assert(pattern_positions(views, i + 1)[seen as int] == i);
                    assert(pattern_positions(views, keys@.len() as int)[first as int] == i);
                }
                return Found { rule: Some(i), hits: hits.len() };
            }
            seen = seen + 1;
        }
        i = i + 1;
    }
    // Not reached: the pattern at `first` is among the keys.
    Found { rule: None, hits: 0 }
}

/// Looks the entry `key` of `section` up among `keys`. `None` where the
/// patterns have to be consulted and do not compile.
pub fn find_rule(keys: &Vec<RuleKey>, section: &str, key: &str) -> (r: Option<Found>)
    ensures
        match r {
            Some(found) => find(key_views(keys@), section@, key@) == Some(found@),
            None => find(key_views(keys@), section@, key@) is None,
        },
        r matches Some(found) ==> (found.rule matches Some(i) ==> i < keys@.len()),
{
    if let Some(i) = last_position(keys, &RuleKey::Section(String::from_str(section))) {
        return Some(Found { rule: Some(i), hits: 0 });
    }
    let name = entry_name_of(section, key);
    if let Some(i) = last_position(keys, &RuleKey::Entry(name.clone())) {
        return Some(Found { rule: Some(i), hits: 0 });
    }
    let ghost views = key_views(keys@);
    let mut set: Vec<String> = Vec::new();
    let mut i: usize = 0;
    while i < keys.len()
        invariant
            i <= keys@.len(),
            views == key_views(keys@),
            texts(set@) == patterns(views, i as int),
        decreases keys@.len() - i,
    {
        match &keys[i] {
            RuleKey::Pattern(text) => {
                proof {
                    assert(texts(set@.push(*text)) =~= texts(set@).push(text@));
                }
                set.push(text.clone());
            },
            _ => {},
        }
        i = i + 1;
    }
    match regex_set_matches(&set, name.as_str()) {
        Some(hits) => {
            assert(texts(set@).len() == set@.len());
            Some(find_rule_with_hits(keys, section, key, &hits))
        },
        None => None,
    }
}

fn merge_key_of(rule: &MergeRule) -> (key: RuleKey)
    ensures
        key@ == merge_key(rule@),
{
    match rule {
        MergeRule::Section { section, .. } => RuleKey::Section(section.clone()),
        MergeRule::Literal { section, key, .. } => RuleKey::Entry(
            entry_name_of(section.as_str(), key.as_str()),
        ),
        MergeRule::Regex { section, key, .. } => RuleKey::Pattern(
            entry_pattern_of(section.as_str(), key.as_str()),
        ),
        MergeRule::Setter { section, key, .. } => RuleKey::Entry(
            entry_name_of(section.as_str(), key.as_str()),
        ),
    }
}

fn filter_key_of(rule: &FilterRule) -> (key: RuleKey)
    ensures
        key@ == filter_key(rule@),
{
    match rule {
        FilterRule::Section { section, .. } => RuleKey::Section(section.clone()),
        FilterRule::Literal { section, key, .. } => RuleKey::Entry(
            entry_name_of(section.as_str(), key.as_str()),
        ),
        FilterRule::Regex { section, key, .. } => RuleKey::Pattern(
            entry_pattern_of(section.as_str(), key.as_str()),
        ),
    }
}

impl MergeTable {
    /// The keys of the rules, in order.
    pub fn keys(&self) -> (keys: Vec<RuleKey>)
        ensures
            key_views(keys@) == merge_keys(self@.rules),
    {
        let mut keys: Vec<RuleKey> = Vec::new();
        let mut i: usize = 0;
        while i < self.rules.len()
            invariant
                i <= self.rules@.len(),
                keys@.len() == i,
                forall|j: int| 0 <= j < i ==> (#[trigger] keys@[j])@ == merge_key(self.rules@[j]@),
            decreases self.rules@.len() - i,
        {
            keys.push(merge_key_of(&self.rules[i]));
            i = i + 1;
        }
        assert(key_views(keys@) =~= merge_keys(self@.rules));
        keys
    }

    /// The rule that applies to the entry `key` of `section`, by its position
    /// among the rules. `None` where the patterns have to be consulted and do
    /// not compile.
    pub fn find_action(&self, section: &str, key: &str) -> (r: Option<Found>)
        ensures
            match r {
                Some(found) => find(merge_keys(self@.rules), section@, key@) == Some(found@),
                None => find(merge_keys(self@.rules), section@, key@) is None,
            },
            r matches Some(found) ==> (found.rule matches Some(i) ==> i < self.rules@.len()),
    {
        let keys = self.keys();
        assert(keys@.len() == key_views(keys@).len());
        find_rule(&keys, section, key)
    }

    /// Whether what a lookup found is to be reported as ambiguous: several
    /// patterns matched, and the table was not told to keep quiet.
    pub fn reports(&self, found: &Found) -> (r: bool)
        ensures
            r == (ambiguous(found@) && self.warn_on_multiple_matches),
    {
        found.hits > 1 && self.warn_on_multiple_matches
    }
}

impl FilterTable {
    /// The keys of the rules, in order.
    pub fn keys(&self) -> (keys: Vec<RuleKey>)
        ensures
            key_views(keys@) == filter_keys(self@.rules),
    {
        let mut keys: Vec<RuleKey> = Vec::new();
        let mut i: usize = 0;
        while i < self.rules.len()
            invariant
                i <= self.rules@.len(),
                keys@.len() == i,
                forall|j: int| 0 <= j < i ==> (#[trigger] keys@[j])@ == filter_key(self.rules@[j]@),
            decreases self.rules@.len() - i,
        {
            keys.push(filter_key_of(&self.rules[i]));
            i = i + 1;
        }
        assert(key_views(keys@) =~= filter_keys(self@.rules));
        keys
    }

    /// The rule that applies to the entry `key` of `section`, by its position
    /// among the rules. `None` where the patterns have to be consulted and do
    /// not compile.
    pub fn find_action(&self, section: &str, key: &str) -> (r: Option<Found>)
        ensures
            match r {
                Some(found) => find(filter_keys(self@.rules), section@, key@) == Some(found@),
                None => find(filter_keys(self@.rules), section@, key@) is None,
            },
            r matches Some(found) ==> (found.rule matches Some(i) ==> i < self.rules@.len()),
    {
        let keys = self.keys();
        assert(keys@.len() == key_views(keys@).len());
        find_rule(&keys, section, key)
    }

    /// Whether what a lookup found is to be reported as ambiguous.
    pub fn reports(&self, found: &Found) -> (r: bool)
        ensures
            r == (ambiguous(found@) && self.warn_on_multiple_matches),
    {
        found.hits > 1 && self.warn_on_multiple_matches
    }
}

} // verus!
