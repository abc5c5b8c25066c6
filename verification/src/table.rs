//! Compiled action tables.
//!
//! A table is the list of rules that the directives of a script came to, in
//! the order of the directives. What the merge engine makes of such a list is
//! the *model* of the table: exact names are looked up in maps, so of two
//! rules for one name the later stands, and regular expressions are kept in
//! the order in which they were given.

use crate::directive::{arg_value, TransformArgs};
use crate::transforms::Transform;
use vstd::prelude::*;

verus! {

/// What to do with a whole section when merging.
#[derive(Debug, Clone, Copy, PartialEq, Eq, Structural)]
pub enum SectionAction {
    /// Keep the live section.
    Ignore,
    /// Remove the section.
    Delete,
}

/// A transform together with its arguments.
#[derive(Debug, Clone, PartialEq, Eq)]
pub struct TransformSpec {
    pub kind: Transform,
    pub args: TransformArgs,
}

/// What to do with one entry when merging.
#[derive(Debug, Clone, PartialEq, Eq)]
pub enum EntryAction {
    /// Keep the live value.
    Ignore,
    /// Remove the entry.
    Delete,
    /// Let the transform decide.
    Transform(TransformSpec),
}

/// One rule of a merge table.
#[derive(Debug, Clone, PartialEq, Eq)]
#[allow(inconsistent_fields)]
pub enum MergeRule {
    /// For the section of this exact name.
    Section { section: String, action: SectionAction },
    /// For the entry of this exact section and key.
    Literal { section: String, key: String, action: EntryAction },
    /// For the entries whose section and key match the two patterns.
    Regex { section: String, key: String, action: EntryAction },
    /// The entry is to read `key`, `separator`, `value`, whether or not either
    /// copy of the file holds it.
    Setter { section: String, key: String, value: String, separator: String },
}

/// The table for merging.
#[derive(Debug, Clone, PartialEq, Eq)]
pub struct MergeTable {
    pub rules: Vec<MergeRule>,
    /// Whether a key that several patterns match is reported.
    pub warn_on_multiple_matches: bool,
}

/// What to do with an entry, or with a section, when capturing a file.
#[derive(Debug, Clone, Copy, PartialEq, Eq)]
pub enum CaptureAction {
    /// Leave it out.
    Remove,
    /// Keep it, but put this text in place of each value.
    Replace(&'static str),
}

/// One rule of a filter table.
#[derive(Debug, Clone, PartialEq, Eq)]
pub enum FilterRule {
    /// For the section of this exact name.
    Section { section: String, action: CaptureAction },
    /// For the entry of this exact section and key.
    Literal { section: String, key: String, action: CaptureAction },
    /// For the entries whose section and key match the two patterns.
    Regex { section: String, key: String, action: CaptureAction },
}

/// The table for capturing.
#[derive(Debug, Clone, PartialEq, Eq)]
pub struct FilterTable {
    pub rules: Vec<FilterRule>,
    /// Whether a key that several patterns match is reported.
    pub warn_on_multiple_matches: bool,
}

/// A [`TransformSpec`] as a mathematical value.
pub struct TransformSpecView {
    pub kind: Transform,
    pub args: Seq<(Seq<char>, Seq<char>)>,
}

impl View for TransformSpec {
    type V = TransformSpecView;

    open spec fn view(&self) -> TransformSpecView {
        TransformSpecView { kind: self.kind, args: self.args@ }
    }
}

/// An [`EntryAction`] as a mathematical value.
pub enum EntryActionView {
    Ignore,
    Delete,
    Transform(TransformSpecView),
}

impl View for EntryAction {
    type V = EntryActionView;

    open spec fn view(&self) -> EntryActionView {
        match self {
            EntryAction::Ignore => EntryActionView::Ignore,
            EntryAction::Delete => EntryActionView::Delete,
            EntryAction::Transform(spec) => EntryActionView::Transform(spec@),
        }
    }
}

/// A [`MergeRule`] as a mathematical value.
#[allow(inconsistent_fields)]
pub enum MergeRuleView {
    Section { section: Seq<char>, action: SectionAction },
    Literal { section: Seq<char>, key: Seq<char>, action: EntryActionView },
    Regex { section: Seq<char>, key: Seq<char>, action: EntryActionView },
    Setter { section: Seq<char>, key: Seq<char>, value: Seq<char>, separator: Seq<char> },
}

impl View for MergeRule {
    type V = MergeRuleView;

    open spec fn view(&self) -> MergeRuleView {
        match self {
            MergeRule::Section { section, action } => MergeRuleView::Section {
                section: section@,
                action: *action,
            },
            MergeRule::Literal { section, key, action } => MergeRuleView::Literal {
                section: section@,
                key: key@,
                action: action@,
            },
            MergeRule::Regex { section, key, action } => MergeRuleView::Regex {
                section: section@,
                key: key@,
                action: action@,
            },
            MergeRule::Setter { section, key, value, separator } => MergeRuleView::Setter {
                section: section@,
                key: key@,
                value: value@,
                separator: separator@,
            },
        }
    }
}

/// The views of a list of merge rules, in order.
pub open spec fn merge_rule_views(rules: Seq<MergeRule>) -> Seq<MergeRuleView> {
    Seq::new(rules.len(), |i: int| rules[i]@)
}

/// A [`MergeTable`] as a mathematical value.
pub struct MergeTableView {
    pub rules: Seq<MergeRuleView>,
    pub warn_on_multiple_matches: bool,
}

impl View for MergeTable {
    type V = MergeTableView;

    open spec fn view(&self) -> MergeTableView {
        MergeTableView {
            rules: merge_rule_views(self.rules@),
            warn_on_multiple_matches: self.warn_on_multiple_matches,
        }
    }
}

/// A [`CaptureAction`] as a mathematical value.
pub enum CaptureActionView {
    Remove,
    Replace(Seq<char>),
}

impl View for CaptureAction {
    type V = CaptureActionView;

    open spec fn view(&self) -> CaptureActionView {
        match self {
            CaptureAction::Remove => CaptureActionView::Remove,
            CaptureAction::Replace(text) => CaptureActionView::Replace(text@),
        }
    }
}

/// A [`FilterRule`] as a mathematical value.
pub enum FilterRuleView {
    Section { section: Seq<char>, action: CaptureActionView },
    Literal { section: Seq<char>, key: Seq<char>, action: CaptureActionView },
    Regex { section: Seq<char>, key: Seq<char>, action: CaptureActionView },
}

impl View for FilterRule {
    type V = FilterRuleView;

    open spec fn view(&self) -> FilterRuleView {
        match self {
            FilterRule::Section { section, action } => FilterRuleView::Section {
                section: section@,
                action: action@,
            },
            FilterRule::Literal { section, key, action } => FilterRuleView::Literal {
                section: section@,
                key: key@,
                action: action@,
            },
            FilterRule::Regex { section, key, action } => FilterRuleView::Regex {
                section: section@,
                key: key@,
                action: action@,
            },
        }
    }
}

/// The views of a list of filter rules, in order.
pub open spec fn filter_rule_views(rules: Seq<FilterRule>) -> Seq<FilterRuleView> {
    Seq::new(rules.len(), |i: int| rules[i]@)
}

/// A [`FilterTable`] as a mathematical value.
pub struct FilterTableView {
    pub rules: Seq<FilterRuleView>,
    pub warn_on_multiple_matches: bool,
}

impl View for FilterTable {
    type V = FilterTableView;

    open spec fn view(&self) -> FilterTableView {
        FilterTableView {
            rules: filter_rule_views(self.rules@),
            warn_on_multiple_matches: self.warn_on_multiple_matches,
        }
    }
}

/// The name under which the engine keeps the entry `key` of `section`: the two
/// names with a NUL character between them.
pub open spec fn entry_name(section: Seq<char>, key: Seq<char>) -> Seq<char> {
    section + seq!['\0'] + key
}

/// The one regular expression that the engine makes of a pattern for the
/// section and one for the key. It is matched against entry names.
///
/// The engine searches the name for a match and does not anchor the
/// expression. So the pattern for the section has to match up to the end of
/// the section's name, and the pattern for the key from the start of the
/// key's name, but neither has to match the whole of its name: a directive
/// that wants that says so, with `^` before and `$` after.
pub open spec fn entry_pattern(section: Seq<char>, key: Seq<char>) -> Seq<char> {
    seq!['(', '?', ':'] + section + seq![')', '\0', '(', '?', ':'] + key + seq![')']
}

/// What the engine holds of a transform.
pub enum TransformerModel {
    /// Compares lists whose elements this character separates.
    UnsortedLists(char),
    /// Compares KDE shortcuts.
    KdeShortcut,
    /// Takes the value from the system keyring. No build without the keyring
    /// makes such a transform.
    Keyring,
    /// Always gives this line.
    Fixed(Seq<char>),
}

/// What the engine does with an entry when merging.
pub enum EntryModel {
    Ignore,
    Delete,
    Transform(TransformerModel),
}

/// What the engine holds of a transform with accepted arguments: of the
/// unsorted list the one character of its `separator`, of the other two
/// nothing but their kind.
pub open spec fn transformer_of(spec: TransformSpecView) -> TransformerModel {
    match spec.kind {
        Transform::UnsortedLists => TransformerModel::UnsortedLists(
            arg_value(spec.args, "separator"@)->0[0],
        ),
        Transform::KdeShortcut => TransformerModel::KdeShortcut,
        Transform::Keyring => TransformerModel::Keyring,
    }
}

/// What the engine holds of an action for entries.
pub open spec fn entry_model(action: EntryActionView) -> EntryModel {
    match action {
        EntryActionView::Ignore => EntryModel::Ignore,
        EntryActionView::Delete => EntryModel::Delete,
        EntryActionView::Transform(spec) => EntryModel::Transform(transformer_of(spec)),
    }
}

/// What the engine holds of a merge table.
pub struct MergeModel {
    /// The actions for whole sections, by section name.
    pub sections: Map<Seq<char>, SectionAction>,
    /// The patterns for the names of sections, with their actions. This
    /// library gives none: every table that it compiles holds none.
    pub section_patterns: Seq<(Seq<char>, SectionAction)>,
    /// The actions for exact entries, by entry name.
    pub literals: Map<Seq<char>, EntryModel>,
    /// The patterns with their actions, in the order in which they came.
    pub patterns: Seq<(Seq<char>, EntryModel)>,
    /// The entries that a setter makes exist, as pairs of section and key.
    pub forced: Set<(Seq<char>, Seq<char>)>,
    /// Whether a key that several patterns match is reported.
    pub warn: bool,
}

/// The model of a table without rules.
pub open spec fn empty_merge_model() -> MergeModel {
    MergeModel {
        sections: Map::empty(),
        section_patterns: Seq::empty(),
        literals: Map::empty(),
        patterns: Seq::empty(),
        forced: Set::empty(),
        warn: true,
    }
}

/// The model after one more rule.
pub open spec fn with_merge_rule(m: MergeModel, rule: MergeRuleView) -> MergeModel {
    match rule {
        MergeRuleView::Section { section, action } => MergeModel {
            sections: m.sections.insert(section, action),
            ..m
        },
        MergeRuleView::Literal { section, key, action } => MergeModel {
            literals: m.literals.insert(entry_name(section, key), entry_model(action)),
            ..m
        },
        MergeRuleView::Regex { section, key, action } => MergeModel {
            patterns: m.patterns.push((entry_pattern(section, key), entry_model(action))),
            ..m
        },
        MergeRuleView::Setter { section, key, value, separator } => MergeModel {
            literals: m.literals.insert(
                entry_name(section, key),
                EntryModel::Transform(TransformerModel::Fixed(key + separator + value)),
            ),
            forced: m.forced.insert((section, key)),
            ..m
        },
    }
}

/// The model of the rules of a merge table.
pub open spec fn merge_rules_model(rules: Seq<MergeRuleView>) -> MergeModel
    decreases rules.len(),
{
    if rules.len() == 0 {
        empty_merge_model()
    } else {
        with_merge_rule(merge_rules_model(rules.drop_last()), rules.last())
    }
}

/// The model of a merge table.
pub open spec fn merge_model(table: MergeTableView) -> MergeModel {
    MergeModel { warn: table.warn_on_multiple_matches, ..merge_rules_model(table.rules) }
}

/// What the engine holds of a filter table.
pub struct FilterModel {
    /// The actions for whole sections, by section name.
    pub sections: Map<Seq<char>, CaptureActionView>,
    /// The patterns for the names of sections, with their actions. This
    /// library gives none: every table that it compiles holds none.
    pub section_patterns: Seq<(Seq<char>, CaptureActionView)>,
    /// The actions for exact entries, by entry name.
    pub literals: Map<Seq<char>, CaptureActionView>,
    /// The patterns with their actions, in the order in which they came.
    pub patterns: Seq<(Seq<char>, CaptureActionView)>,
    /// Whether a key that several patterns match is reported.
    pub warn: bool,
}

/// The model of a table without rules.
pub open spec fn empty_filter_model() -> FilterModel {
    FilterModel {
        sections: Map::empty(),
        section_patterns: Seq::empty(),
        literals: Map::empty(),
        patterns: Seq::empty(),
        warn: true,
    }
}

/// The model after one more rule.
pub open spec fn with_filter_rule(m: FilterModel, rule: FilterRuleView) -> FilterModel {
    match rule {
        FilterRuleView::Section { section, action } => FilterModel {
            sections: m.sections.insert(section, action),
            ..m
        },
        FilterRuleView::Literal { section, key, action } => FilterModel {
            literals: m.literals.insert(entry_name(section, key), action),
            ..m
        },
        FilterRuleView::Regex { section, key, action } => FilterModel {
            patterns: m.patterns.push((entry_pattern(section, key), action)),
            ..m
        },
    }
}

/// The model of the rules of a filter table.
pub open spec fn filter_rules_model(rules: Seq<FilterRuleView>) -> FilterModel
    decreases rules.len(),
{
    if rules.len() == 0 {
        empty_filter_model()
    } else {
        with_filter_rule(filter_rules_model(rules.drop_last()), rules.last())
    }
}

/// The model of a filter table.
pub open spec fn filter_model(table: FilterTableView) -> FilterModel {
    FilterModel { warn: table.warn_on_multiple_matches, ..filter_rules_model(table.rules) }
}

/// The texts of the patterns of a model, in order.
pub open spec fn pattern_texts<A>(patterns: Seq<(Seq<char>, A)>) -> Seq<Seq<char>> {
    Seq::new(patterns.len(), |i: int| patterns[i].0)
}

/// The rules of a merge table never make a pattern for sections, and make as
/// many patterns for entries as there are rules with patterns: none where
/// there is no such rule.
pub proof fn lemma_merge_model_patterns(rules: Seq<MergeRuleView>)
    ensures
        merge_rules_model(rules).section_patterns == Seq::<(Seq<char>, SectionAction)>::empty(),
        (forall|i: int| 0 <= i < rules.len() ==> !((#[trigger] rules[i]) is Regex))
            ==> merge_rules_model(rules).patterns == Seq::<(Seq<char>, EntryModel)>::empty(),
    decreases rules.len(),
{
    if rules.len() > 0 {
        lemma_merge_model_patterns(rules.drop_last());
        if forall|i: int| 0 <= i < rules.len() ==> !((#[trigger] rules[i]) is Regex) {
            assert forall|i: int| 0 <= i < rules.drop_last().len() implies !((
            #[trigger] rules.drop_last()[i]) is Regex) by {
                assert(rules.drop_last()[i] == rules[i]);
            }
            assert(!(rules[rules.len() - 1] is Regex));
        }
    }
}

/// The rules of a filter table never make a pattern for sections, and make
/// no pattern for entries where no rule has a pattern.
pub proof fn lemma_filter_model_patterns(rules: Seq<FilterRuleView>)
    ensures
        filter_rules_model(rules).section_patterns == Seq::<(Seq<char>, CaptureActionView)>::empty(),
        (forall|i: int| 0 <= i < rules.len() ==> !((#[trigger] rules[i]) is Regex))
            ==> filter_rules_model(rules).patterns == Seq::<(Seq<char>, CaptureActionView)>::empty(),
    decreases rules.len(),
{
    if rules.len() > 0 {
        lemma_filter_model_patterns(rules.drop_last());
        if forall|i: int| 0 <= i < rules.len() ==> !((#[trigger] rules[i]) is Regex) {
            assert forall|i: int| 0 <= i < rules.drop_last().len() implies !((
            #[trigger] rules.drop_last()[i]) is Regex) by {
                assert(rules.drop_last()[i] == rules[i]);
            }
            assert(!(rules[rules.len() - 1] is Regex));
        }
    }
}

} // verus!
