//! What holds of compiling, whatever the directives.

use crate::config::{
    filter_outcome, filter_outcome_of_text, filter_plan, filter_rule, filter_rule_of,
    filter_table_builds, gather_filter, gather_merge, merge_fault_of, merge_outcome,
    merge_outcome_of_text, merge_plan, merge_rule, merge_rule_of, merge_table_builds, nothing,
    source_of, step, CompileFault, Gathered, SourceView,
};
use crate::directive::DirectiveView;
use crate::grammar::{directive, directives_of, lemma_directive_bounds, next_line, scan};
use crate::lookup::{
    ambiguous, filter_key, filter_keys, find_with_hits, lemma_literal_before_pattern, merge_key,
    merge_keys, RuleKeyView,
};
use crate::table::entry_name;
use crate::table::{
    lemma_filter_model_patterns, lemma_merge_model_patterns, CaptureActionView, EntryActionView,
    FilterRuleView, MergeRuleView, SectionAction,
};
use vstd::prelude::*;

verus! {

/// The rules that directives add to the merge table, in order, each directive
/// adding the one rule that [`merge_rule_of`] gives it, or none.
pub open spec fn merge_rules_of(ds: Seq<DirectiveView>) -> Seq<MergeRuleView>
    decreases ds.len(),
{
    if ds.len() == 0 {
        Seq::empty()
    } else {
        match merge_rule_of(ds.first()) {
            Some(rule) => seq![rule] + merge_rules_of(ds.drop_first()),
            None => merge_rules_of(ds.drop_first()),
        }
    }
}

/// The rules that directives add to the filter table, in order, each
/// directive adding the one rule that [`filter_rule_of`] gives it, or none.
pub open spec fn filter_rules_of(ds: Seq<DirectiveView>) -> Seq<FilterRuleView>
    decreases ds.len(),
{
    if ds.len() == 0 {
        Seq::empty()
    } else {
        match filter_rule_of(ds.first()) {
            Some(rule) => seq![rule] + filter_rules_of(ds.drop_first()),
            None => filter_rules_of(ds.drop_first()),
        }
    }
}

proof fn lemma_gather_merge_rules(ds: Seq<DirectiveView>, state: Gathered<MergeRuleView>)
    ensures
        gather_merge(ds, state) matches Ok(found) ==> found.rules == state.rules + merge_rules_of(
            ds,
        ),
    decreases ds.len(),
{
    if ds.len() == 0 {
        assert(state.rules + Seq::<MergeRuleView>::empty() =~= state.rules);
    } else {
        let d = ds.first();
        if let Ok(next) = step(state, d, merge_fault_of(d), merge_rule_of(d)) {
            lemma_gather_merge_rules(ds.drop_first(), next);
            if let Ok(found) = gather_merge(ds, state) {
                assert(next.rules + merge_rules_of(ds.drop_first()) =~= state.rules
                    + merge_rules_of(ds));
            }
        }
    }
}

proof fn lemma_gather_filter_rules(ds: Seq<DirectiveView>, state: Gathered<FilterRuleView>)
    ensures
        gather_filter(ds, state) matches Ok(found) ==> found.rules == state.rules
            + filter_rules_of(ds),
    decreases ds.len(),
{
    if ds.len() == 0 {
        assert(state.rules + Seq::<FilterRuleView>::empty() =~= state.rules);
    } else {
        let d = ds.first();
        if let Ok(next) = step(state, d, None, filter_rule_of(d)) {
            lemma_gather_filter_rules(ds.drop_first(), next);
            if let Ok(found) = gather_filter(ds, state) {
                assert(next.rules + filter_rules_of(ds.drop_first()) =~= state.rules
                    + filter_rules_of(ds));
            }
        }
    }
}

/// Each mode takes its own directives and passes over those of the other.
///
/// Where a text compiles, the rules of its table are those of its directives,
/// one by one and in order. For capturing, `set`, `transform` and `remove`
/// have no rule; for merging, `add:hide` and `add:remove` have none. An
/// `ignore` has a rule in both: it keeps what it selects when merging, and
/// leaves it out when capturing.
pub proof fn lemma_mode_exclusivity(text: Seq<char>)
    requires
        directives_of(text) is Ok,
    ensures
        merge_outcome_of_text(text) matches Ok((_, table)) ==> table.rules == merge_rules_of(
            directives_of(text)->Ok_0,
        ),
        filter_outcome_of_text(text) matches Ok((_, table)) ==> table.rules == filter_rules_of(
            directives_of(text)->Ok_0,
        ),
        forall|d: DirectiveView|
            (d is Setter || d is Transform || d is Remove) ==> (#[trigger] filter_rule_of(d))
                is None,
        forall|d: DirectiveView|
            (d is AddHide || d is AddRemove) ==> (#[trigger] merge_rule_of(d)) is None,
        forall|d: DirectiveView|
            d matches DirectiveView::Ignore(m) ==> (#[trigger] merge_rule_of(d)) == Some(
                merge_rule(m, SectionAction::Ignore, EntryActionView::Ignore),
            ) && (#[trigger] filter_rule_of(d)) == Some(
                filter_rule(m, CaptureActionView::Remove),
            ),
{
    let ds = directives_of(text)->Ok_0;
    lemma_gather_merge_rules(ds, nothing());
    lemma_gather_filter_rules(ds, nothing());
    assert(Seq::<MergeRuleView>::empty() + merge_rules_of(ds) =~= merge_rules_of(ds));
    assert(Seq::<FilterRuleView>::empty() + filter_rules_of(ds) =~= filter_rules_of(ds));
}

/// Whether a directive says where the tracked copy is.
pub open spec fn names_source(d: DirectiveView) -> bool {
    source_of(d) is Some
}

proof fn lemma_second_source_merge(ds: Seq<DirectiveView>, state: Gathered<MergeRuleView>, j: int)
    requires
        state.source is Some,
        0 <= j < ds.len(),
        names_source(ds[j]),
        forall|k: int| 0 <= k < j ==> merge_fault_of(#[trigger] ds[k]) is None,
    ensures
        gather_merge(ds, state) == Err::<Gathered<MergeRuleView>, _>(CompileFault::DuplicateSource),
    decreases ds.len(),
{
    let d = ds.first();
    if names_source(d) {
    } else {
        assert(j > 0);
        assert(merge_fault_of(ds[0]) is None);
        let next = step(state, d, merge_fault_of(d), merge_rule_of(d))->Ok_0;
        assert forall|k: int| 0 <= k < j - 1 implies merge_fault_of(
            #[trigger] ds.drop_first()[k],
        ) is None by {
            assert(ds.drop_first()[k] == ds[k + 1]);
        }
        lemma_second_source_merge(ds.drop_first(), next, j - 1);
    }
}

proof fn lemma_two_sources_merge(
    ds: Seq<DirectiveView>,
    state: Gathered<MergeRuleView>,
    i: int,
    j: int,
)
    requires
        0 <= i < j < ds.len(),
        names_source(ds[i]),
        names_source(ds[j]),
        forall|k: int| 0 <= k < j ==> merge_fault_of(#[trigger] ds[k]) is None,
    ensures
        gather_merge(ds, state) == Err::<Gathered<MergeRuleView>, _>(CompileFault::DuplicateSource),
    decreases ds.len(),
{
    let d = ds.first();
    assert(merge_fault_of(ds[0]) is None);
    assert forall|k: int| 0 <= k < j - 1 implies merge_fault_of(#[trigger] ds.drop_first()[k])
        is None by {
        assert(ds.drop_first()[k] == ds[k + 1]);
    }
    if state.source is Some {
        lemma_second_source_merge(ds, state, j);
    } else if i == 0 {
        let next = step(state, d, merge_fault_of(d), merge_rule_of(d))->Ok_0;
        lemma_second_source_merge(ds.drop_first(), next, j - 1);
    } else {
        let next = step(state, d, merge_fault_of(d), merge_rule_of(d))->Ok_0;
        lemma_two_sources_merge(ds.drop_first(), next, i - 1, j - 1);
    }
}

proof fn lemma_second_source_filter(ds: Seq<DirectiveView>, state: Gathered<FilterRuleView>, j: int)
    requires
        state.source is Some,
        0 <= j < ds.len(),
        names_source(ds[j]),
    ensures
        gather_filter(ds, state) == Err::<Gathered<FilterRuleView>, _>(
            CompileFault::DuplicateSource,
        ),
    decreases ds.len(),
{
    let d = ds.first();
    if names_source(d) {
    } else {
        assert(j > 0);
        let next = step(state, d, None, filter_rule_of(d))->Ok_0;
        lemma_second_source_filter(ds.drop_first(), next, j - 1);
    }
}

proof fn lemma_two_sources_filter(
    ds: Seq<DirectiveView>,
    state: Gathered<FilterRuleView>,
    i: int,
    j: int,
)
    requires
        0 <= i < j < ds.len(),
        names_source(ds[i]),
        names_source(ds[j]),
    ensures
        gather_filter(ds, state) == Err::<Gathered<FilterRuleView>, _>(
            CompileFault::DuplicateSource,
        ),
    decreases ds.len(),
{
    let d = ds.first();
    if state.source is Some {
        lemma_second_source_filter(ds, state, j);
    } else if i == 0 {
        let next = step(state, d, None, filter_rule_of(d))->Ok_0;
        lemma_second_source_filter(ds.drop_first(), next, j - 1);
    } else {
        let next = step(state, d, None, filter_rule_of(d))->Ok_0;
        lemma_two_sources_filter(ds.drop_first(), next, i - 1, j - 1);
    }
}

proof fn lemma_no_source_merge(ds: Seq<DirectiveView>, state: Gathered<MergeRuleView>)
    requires
        state.source is None,
        forall|k: int| 0 <= k < ds.len() ==> !names_source(#[trigger] ds[k]),
        forall|k: int| 0 <= k < ds.len() ==> merge_fault_of(#[trigger] ds[k]) is None,
    ensures
        gather_merge(ds, state) matches Ok(found) && found.source is None,
    decreases ds.len(),
{
    if ds.len() > 0 {
        let d = ds.first();
        assert(!names_source(ds[0]) && merge_fault_of(ds[0]) is None);
        let next = step(state, d, merge_fault_of(d), merge_rule_of(d))->Ok_0;
        assert forall|k: int| 0 <= k < ds.drop_first().len() implies !names_source(
            #[trigger] ds.drop_first()[k],
        ) && merge_fault_of(ds.drop_first()[k]) is None by {
            assert(ds.drop_first()[k] == ds[k + 1]);
        }
        lemma_no_source_merge(ds.drop_first(), next);
    }
}

proof fn lemma_no_source_filter(ds: Seq<DirectiveView>, state: Gathered<FilterRuleView>)
    requires
        state.source is None,
        forall|k: int| 0 <= k < ds.len() ==> !names_source(#[trigger] ds[k]),
    ensures
        gather_filter(ds, state) matches Ok(found) && found.source is None,
    decreases ds.len(),
{
    if ds.len() > 0 {
        let d = ds.first();
        assert(!names_source(ds[0]));
        let next = step(state, d, None, filter_rule_of(d))->Ok_0;
        assert forall|k: int| 0 <= k < ds.drop_first().len() implies !names_source(
            #[trigger] ds.drop_first()[k],
        ) by {
            assert(ds.drop_first()[k] == ds[k + 1]);
        }
        lemma_no_source_filter(ds.drop_first(), next);
    }
}

/// A text with two source lines does not compile for capturing: whichever
/// two forms the lines have and whatever else the text holds, the outcome is
/// the duplicate-source error.
pub proof fn lemma_duplicate_source_fails_capture(text: Seq<char>, i: int, j: int)
    requires
        directives_of(text) matches Ok(ds) && 0 <= i < j < ds.len() && names_source(ds[i])
            && names_source(ds[j]),
    ensures
        filter_outcome_of_text(text) matches Err(CompileFault::DuplicateSource),
{
    let ds = directives_of(text)->Ok_0;
    lemma_two_sources_filter(ds, nothing(), i, j);
}

/// A text with two source lines does not compile for merging: the outcome is
/// the duplicate-source error, unless a `transform` that stands before the
/// second of the two lines is at fault, which is then reported first.
pub proof fn lemma_duplicate_source_fails_merge(text: Seq<char>, i: int, j: int)
    requires
        directives_of(text) matches Ok(ds) && 0 <= i < j < ds.len() && names_source(ds[i])
            && names_source(ds[j]) && forall|k: int|
            0 <= k < j ==> merge_fault_of(#[trigger] ds[k]) is None,
    ensures
        merge_outcome_of_text(text) matches Err(CompileFault::DuplicateSource),
{
    let ds = directives_of(text)->Ok_0;
    lemma_two_sources_merge(ds, nothing(), i, j);
}

/// A text without a source line does not compile for capturing: the outcome
/// is the missing-source error.
pub proof fn lemma_missing_source_fails_capture(text: Seq<char>)
    requires
        directives_of(text) matches Ok(ds) && forall|k: int|
            0 <= k < ds.len() ==> !names_source(#[trigger] ds[k]),
    ensures
        filter_outcome_of_text(text) matches Err(CompileFault::MissingSource),
{
    let ds = directives_of(text)->Ok_0;
    lemma_no_source_filter(ds, nothing());
}

/// A text without a source line does not compile for merging: the outcome is
/// the missing-source error, unless a `transform` is at fault, which is then
/// reported first.
pub proof fn lemma_missing_source_fails_merge(text: Seq<char>)
    requires
        directives_of(text) matches Ok(ds) && (forall|k: int|
            0 <= k < ds.len() ==> !names_source(#[trigger] ds[k])) && (forall|k: int|
            0 <= k < ds.len() ==> merge_fault_of(#[trigger] ds[k]) is None),
    ensures
        merge_outcome_of_text(text) matches Err(CompileFault::MissingSource),
{
    let ds = directives_of(text)->Ok_0;
    lemma_no_source_merge(ds, nothing());
}

proof fn lemma_merge_rule_is_kept(ds: Seq<DirectiveView>, i: int)
    requires
        0 <= i < ds.len(),
        merge_rule_of(ds[i]) is Some,
    ensures
        exists|j: int|
            0 <= j < merge_rules_of(ds).len() && (#[trigger] merge_rules_of(ds)[j])
                == merge_rule_of(ds[i])->0,
    decreases ds.len(),
{
    let rest = merge_rules_of(ds.drop_first());
    let shift: int = if merge_rule_of(ds.first()) is Some {
        1
    } else {
        0
    };
    if i == 0 {
        assert(merge_rules_of(ds)[0] == merge_rule_of(ds[0])->0);
    } else {
        assert(ds.drop_first()[i - 1] == ds[i]);
        lemma_merge_rule_is_kept(ds.drop_first(), i - 1);
        let j = choose|j: int| 0 <= j < rest.len() && (#[trigger] rest[j]) == merge_rule_of(ds[i])->0;
        assert(merge_rules_of(ds)[j + shift] == rest[j]);
    }
}

proof fn lemma_filter_rule_is_kept(ds: Seq<DirectiveView>, i: int)
    requires
        0 <= i < ds.len(),
        filter_rule_of(ds[i]) is Some,
    ensures
        exists|j: int|
            0 <= j < filter_rules_of(ds).len() && (#[trigger] filter_rules_of(ds)[j])
                == filter_rule_of(ds[i])->0,
    decreases ds.len(),
{
    let rest = filter_rules_of(ds.drop_first());
    let shift: int = if filter_rule_of(ds.first()) is Some {
        1
    } else {
        0
    };
    if i == 0 {
        assert(filter_rules_of(ds)[0] == filter_rule_of(ds[0])->0);
    } else {
        assert(ds.drop_first()[i - 1] == ds[i]);
        lemma_filter_rule_is_kept(ds.drop_first(), i - 1);
        let j = choose|j: int|
            0 <= j < rest.len() && (#[trigger] rest[j]) == filter_rule_of(ds[i])->0;
        assert(filter_rules_of(ds)[j + shift] == rest[j]);
    }
}

/// A directive that names an entry exactly stands before every directive
/// that matches it by regular expressions, when merging.
///
/// Where a text compiles, one of its directives has a rule for exactly the
/// entry `key` of `section`, and none has a rule for the whole section, a
/// lookup of the entry in the table finds a rule that names the entry
/// exactly, the last of them, whatever patterns the table holds and whichever
/// of them match; and the entry is not ambiguous.
pub proof fn lemma_literal_directive_stands_in_merge(
    text: Seq<char>,
    i: int,
    section: Seq<char>,
    key: Seq<char>,
    hits: Seq<int>,
)
    requires
        directives_of(text) matches Ok(ds) && 0 <= i < ds.len() && merge_rule_of(ds[i]) is Some
            && merge_key(merge_rule_of(ds[i])->0) == RuleKeyView::Entry(entry_name(section, key)),
        merge_outcome_of_text(text) matches Ok((_, table)) && forall|j: int|
            0 <= j < table.rules.len() ==> merge_key(#[trigger] table.rules[j])
                != RuleKeyView::Section(section),
    ensures
        ({
            let keys = merge_keys(merge_outcome_of_text(text)->Ok_0.1.rules);
            let found = find_with_hits(keys, section, key, hits);
            found.rule matches Some(at) && 0 <= at < keys.len() && keys[at] == RuleKeyView::Entry(
                entry_name(section, key),
            ) && !ambiguous(found)
        }),
{
    let ds = directives_of(text)->Ok_0;
    let table = merge_outcome_of_text(text)->Ok_0.1;
    lemma_gather_merge_rules(ds, nothing());
    assert(Seq::<MergeRuleView>::empty() + merge_rules_of(ds) =~= merge_rules_of(ds));
    lemma_merge_rule_is_kept(ds, i);
    let j = choose|j: int|
        0 <= j < merge_rules_of(ds).len() && (#[trigger] merge_rules_of(ds)[j]) == merge_rule_of(
            ds[i],
        )->0;
    let keys = merge_keys(table.rules);
    assert(keys[j] == merge_key(table.rules[j]));
    assert forall|k: int| 0 <= k < keys.len() implies keys[k] != RuleKeyView::Section(section) by {
        assert(keys[k] == merge_key(table.rules[k]));
    }
    lemma_literal_before_pattern(keys, section, key, j, hits);
}

/// A directive that names an entry exactly stands before every directive
/// that matches it by regular expressions, when capturing.
pub proof fn lemma_literal_directive_stands_in_capture(
    text: Seq<char>,
    i: int,
    section: Seq<char>,
    key: Seq<char>,
    hits: Seq<int>,
)
    requires
        directives_of(text) matches Ok(ds) && 0 <= i < ds.len() && filter_rule_of(ds[i]) is Some
            && filter_key(filter_rule_of(ds[i])->0) == RuleKeyView::Entry(
            entry_name(section, key),
        ),
        filter_outcome_of_text(text) matches Ok((_, table)) && forall|j: int|
            0 <= j < table.rules.len() ==> filter_key(#[trigger] table.rules[j])
                != RuleKeyView::Section(section),
    ensures
        ({
            let keys = filter_keys(filter_outcome_of_text(text)->Ok_0.1.rules);
            let found = find_with_hits(keys, section, key, hits);
            found.rule matches Some(at) && 0 <= at < keys.len() && keys[at] == RuleKeyView::Entry(
                entry_name(section, key),
            ) && !ambiguous(found)
        }),
{
    let ds = directives_of(text)->Ok_0;
    let table = filter_outcome_of_text(text)->Ok_0.1;
    lemma_gather_filter_rules(ds, nothing());
    assert(Seq::<FilterRuleView>::empty() + filter_rules_of(ds) =~= filter_rules_of(ds));
    lemma_filter_rule_is_kept(ds, i);
    let j = choose|j: int|
        0 <= j < filter_rules_of(ds).len() && (#[trigger] filter_rules_of(ds)[j])
            == filter_rule_of(ds[i])->0;
    let keys = filter_keys(table.rules);
    assert(keys[j] == filter_key(table.rules[j]));
    assert forall|k: int| 0 <= k < keys.len() implies keys[k] != RuleKeyView::Section(section) by {
        assert(keys[k] == filter_key(table.rules[k]));
    }
    lemma_literal_before_pattern(keys, section, key, j, hits);
}

/// Whether a directive, if it is a `transform`, selects entries and not a
/// whole section.
pub open spec fn selects_entries(d: DirectiveView) -> bool {
    d matches DirectiveView::Transform(m, _, _) ==> !(m is Section)
}

proof fn lemma_scan_selects_entries(s: Seq<char>, pos: int)
    requires
        0 <= pos <= s.len(),
    ensures
        forall|i: int|
            0 <= i < scan(s, pos).directives.len() ==> selects_entries(
                #[trigger] scan(s, pos).directives[i],
            ),
    decreases s.len() - pos,
{
    lemma_directive_bounds(s, pos);
    let (d, end) = directive(s, pos);
    assert(selects_entries(d));
    if let Some(next) = next_line(s, d, end) {
        lemma_scan_selects_entries(s, next);
        let rest = scan(s, next).directives;
        assert forall|i: int| 0 <= i < scan(s, pos).directives.len() implies selects_entries(
            #[trigger] scan(s, pos).directives[i],
        ) by {
            if i > 0 {
                assert(scan(s, pos).directives[i] == rest[i - 1]);
            }
        }
    }
}

proof fn lemma_gather_without_section_transform(
    ds: Seq<DirectiveView>,
    state: Gathered<MergeRuleView>,
)
    requires
        forall|i: int| 0 <= i < ds.len() ==> selects_entries(#[trigger] ds[i]),
    ensures
        !(gather_merge(ds, state) matches Err(CompileFault::SectionTransform)),
    decreases ds.len(),
{
    if ds.len() > 0 {
        let d = ds.first();
        assert(selects_entries(ds[0]));
        if let Ok(next) = step(state, d, merge_fault_of(d), merge_rule_of(d)) {
            assert forall|i: int| 0 <= i < ds.drop_first().len() implies selects_entries(
                #[trigger] ds.drop_first()[i],
            ) by {
                assert(ds.drop_first()[i] == ds[i + 1]);
            }
            lemma_gather_without_section_transform(ds.drop_first(), next);
        }
    }
}

/// The grammar keeps whole sections away from transforms.
///
/// No text parses to a `transform` with a matcher for a whole section, so
/// that compiling a text for merging never ends in the fault of such a
/// directive: only a list of directives that was put together by hand can
/// hold one.
pub proof fn lemma_transforms_select_entries(text: Seq<char>)
    ensures
        directives_of(text) matches Ok(ds) ==> forall|i: int|
            0 <= i < ds.len() ==> selects_entries(#[trigger] ds[i]),
        !(merge_outcome_of_text(text) matches Err(CompileFault::SectionTransform)),
{
    lemma_scan_selects_entries(text, 0);
    if let Ok(ds) = directives_of(text) {
        lemma_gather_without_section_transform(ds, nothing());
    }
}

/// What the first directive that names a source says, if one does.
pub open spec fn source_among(ds: Seq<DirectiveView>) -> Option<SourceView>
    decreases ds.len(),
{
    if ds.len() == 0 {
        None
    } else if names_source(ds.first()) {
        source_of(ds.first())
    } else {
        source_among(ds.drop_first())
    }
}

/// Whether one of the directives asks not to report a key that several
/// patterns match.
pub open spec fn keeps_quiet(ds: Seq<DirectiveView>) -> bool
    decreases ds.len(),
{
    ds.len() > 0 && (ds.first() is NoWarnMultipleKeyMatches || keeps_quiet(ds.drop_first()))
}

/// Whether the directive at `at` names a source and no other directive does.
pub open spec fn sole_source(ds: Seq<DirectiveView>, at: int) -> bool {
    0 <= at < ds.len() && names_source(ds[at]) && forall|k: int|
        0 <= k < ds.len() && k != at ==> !names_source(#[trigger] ds[k])
}

proof fn lemma_source_among(ds: Seq<DirectiveView>, at: int)
    requires
        sole_source(ds, at),
    ensures
        source_among(ds) == source_of(ds[at]),
    decreases ds.len(),
{
    if at > 0 {
        assert(!names_source(ds[0]));
        assert forall|k: int| 0 <= k < ds.drop_first().len() && k != at - 1 implies !names_source(
            #[trigger] ds.drop_first()[k],
        ) by {
            assert(ds.drop_first()[k] == ds[k + 1]);
        }
        assert(ds.drop_first()[at - 1] == ds[at]);
        lemma_source_among(ds.drop_first(), at - 1);
    }
}

proof fn lemma_gather_merge_runs(ds: Seq<DirectiveView>, state: Gathered<MergeRuleView>)
    requires
        forall|k: int| 0 <= k < ds.len() ==> merge_fault_of(#[trigger] ds[k]) is None,
        forall|j: int, k: int|
            0 <= j < k < ds.len() && names_source(#[trigger] ds[j]) ==> !names_source(
                #[trigger] ds[k],
            ),
        state.source is Some ==> forall|k: int| 0 <= k < ds.len() ==> !names_source(#[trigger] ds[k]),
    ensures
        gather_merge(ds, state) matches Ok(found) && found.rules == state.rules + merge_rules_of(
            ds,
        ) && found.warn == (state.warn && !keeps_quiet(ds)) && found.source == (if state.source
            is Some {
            state.source
        } else {
            source_among(ds)
        }),
    decreases ds.len(),
{
    if ds.len() == 0 {
        assert(state.rules + Seq::<MergeRuleView>::empty() =~= state.rules);
    } else {
        let d = ds.first();
        let rest = ds.drop_first();
        assert(merge_fault_of(ds[0]) is None);
        if state.source is Some {
            assert(!names_source(ds[0]));
        }
        let next = step(state, d, merge_fault_of(d), merge_rule_of(d))->Ok_0;
        assert forall|k: int| 0 <= k < rest.len() implies merge_fault_of(#[trigger] rest[k])
            is None by {
            assert(rest[k] == ds[k + 1]);
        }
        assert forall|j: int, k: int|
            0 <= j < k < rest.len() && names_source(#[trigger] rest[j]) implies !names_source(
            #[trigger] rest[k],
        ) by {
            assert(rest[j] == ds[j + 1] && rest[k] == ds[k + 1]);
        }
        if next.source is Some {
            assert forall|k: int| 0 <= k < rest.len() implies !names_source(#[trigger] rest[k]) by {
                assert(rest[k] == ds[k + 1]);
                if state.source is None {
                    assert(names_source(ds[0]));
                }
            }
        }
        lemma_gather_merge_runs(rest, next);
        assert(next.rules + merge_rules_of(rest) =~= state.rules + merge_rules_of(ds));
    }
}

proof fn lemma_gather_filter_runs(ds: Seq<DirectiveView>, state: Gathered<FilterRuleView>)
    requires
        forall|j: int, k: int|
            0 <= j < k < ds.len() && names_source(#[trigger] ds[j]) ==> !names_source(
                #[trigger] ds[k],
            ),
        state.source is Some ==> forall|k: int| 0 <= k < ds.len() ==> !names_source(#[trigger] ds[k]),
    ensures
        gather_filter(ds, state) matches Ok(found) && found.rules == state.rules + filter_rules_of(
            ds,
        ) && found.warn == (state.warn && !keeps_quiet(ds)) && found.source == (if state.source
            is Some {
            state.source
        } else {
            source_among(ds)
        }),
    decreases ds.len(),
{
    if ds.len() == 0 {
        assert(state.rules + Seq::<FilterRuleView>::empty() =~= state.rules);
    } else {
        let d = ds.first();
        let rest = ds.drop_first();
        if state.source is Some {
            assert(!names_source(ds[0]));
        }
        let next = step(state, d, None, filter_rule_of(d))->Ok_0;
        assert forall|j: int, k: int|
            0 <= j < k < rest.len() && names_source(#[trigger] rest[j]) implies !names_source(
            #[trigger] rest[k],
        ) by {
            assert(rest[j] == ds[j + 1] && rest[k] == ds[k + 1]);
        }
        if next.source is Some {
            assert forall|k: int| 0 <= k < rest.len() implies !names_source(#[trigger] rest[k]) by {
                assert(rest[k] == ds[k + 1]);
                if state.source is None {
                    assert(names_source(ds[0]));
                }
            }
        }
        lemma_gather_filter_runs(rest, next);
        assert(next.rules + filter_rules_of(rest) =~= state.rules + filter_rules_of(ds));
    }
}

/// When compiling for merging succeeds, and what it gives.
///
/// Where exactly one directive names a source and no `transform` is at
/// fault, directives compile for merging exactly when the engine can build
/// the table, which it always can where no rule has a pattern. The source is
/// the one that was named, the rules are those of the directives, one by one
/// and in order, and ambiguous keys are reported unless a directive asks to
/// keep quiet.
pub proof fn lemma_merge_succeeds(ds: Seq<DirectiveView>, at: int)
    requires
        sole_source(ds, at),
        forall|k: int| 0 <= k < ds.len() ==> merge_fault_of(#[trigger] ds[k]) is None,
    ensures
        merge_plan(ds) matches Ok((source, table)) && Some(source) == source_of(ds[at])
            && table.rules == merge_rules_of(ds) && table.warn_on_multiple_matches == !keeps_quiet(
            ds,
        ),
        merge_outcome(ds) is Ok <==> merge_table_builds(merge_plan(ds)->Ok_0.1),
        merge_outcome(ds) matches Ok(found) ==> found == merge_plan(ds)->Ok_0,
        (forall|k: int|
            0 <= k < merge_rules_of(ds).len() ==> !((#[trigger] merge_rules_of(ds)[k]) is Regex))
            ==> merge_outcome(ds) is Ok,
{
    lemma_source_among(ds, at);
    lemma_gather_merge_runs(ds, nothing());
    assert(Seq::<MergeRuleView>::empty() + merge_rules_of(ds) =~= merge_rules_of(ds));
    lemma_merge_model_patterns(merge_rules_of(ds));
}

/// When compiling for capturing succeeds, and what it gives.
///
/// Where exactly one directive names a source, directives compile for
/// capturing exactly when the engine can build the table, which it always
/// can where no rule has a pattern. The source is the one that was named, the
/// rules are those of the directives, one by one and in order, and ambiguous
/// keys are reported unless a directive asks to keep quiet.
pub proof fn lemma_capture_succeeds(ds: Seq<DirectiveView>, at: int)
    requires
        sole_source(ds, at),
    ensures
        filter_plan(ds) matches Ok((source, table)) && Some(source) == source_of(ds[at])
            && table.rules == filter_rules_of(ds) && table.warn_on_multiple_matches
            == !keeps_quiet(ds),
        filter_outcome(ds) is Ok <==> filter_table_builds(filter_plan(ds)->Ok_0.1),
        filter_outcome(ds) matches Ok(found) ==> found == filter_plan(ds)->Ok_0,
        (forall|k: int|
            0 <= k < filter_rules_of(ds).len() ==> !((#[trigger] filter_rules_of(ds)[k]) is Regex))
            ==> filter_outcome(ds) is Ok,
{
    lemma_source_among(ds, at);
    lemma_gather_filter_runs(ds, nothing());
    assert(Seq::<FilterRuleView>::empty() + filter_rules_of(ds) =~= filter_rules_of(ds));
    lemma_filter_model_patterns(filter_rules_of(ds));
}

proof fn lemma_no_filter_rules(ds: Seq<DirectiveView>)
    requires
        forall|k: int| 0 <= k < ds.len() ==> filter_rule_of(#[trigger] ds[k]) is None,
    ensures
        filter_rules_of(ds) == Seq::<FilterRuleView>::empty(),
    decreases ds.len(),
{
    if ds.len() > 0 {
        assert(filter_rule_of(ds[0]) is None);
        assert forall|k: int| 0 <= k < ds.drop_first().len() implies filter_rule_of(
            #[trigger] ds.drop_first()[k],
        ) is None by {
            assert(ds.drop_first()[k] == ds[k + 1]);
        }
        lemma_no_filter_rules(ds.drop_first());
    }
}

/// Directives for merging alone leave nothing to filter.
///
/// Where one directive names a source and every other is blank, a `set`, a
/// `transform` or a `remove`, the directives compile for capturing, whatever
/// the transforms are, and the table holds no rule at all: nothing is left
/// out of a captured file and nothing is hidden.
pub proof fn lemma_merge_directives_filter_nothing(ds: Seq<DirectiveView>, at: int)
    requires
        sole_source(ds, at),
        forall|k: int|
            0 <= k < ds.len() && k != at ==> (#[trigger] ds[k]) is WS || ds[k] is Setter || ds[k]
                is Transform || ds[k] is Remove,
    ensures
        filter_outcome(ds) matches Ok((source, table)) && Some(source) == source_of(ds[at])
            && table.rules == Seq::<FilterRuleView>::empty() && table.warn_on_multiple_matches,
{
    assert forall|k: int| 0 <= k < ds.len() implies filter_rule_of(#[trigger] ds[k]) is None by {
        if k != at {
            assert(ds[k] is WS || ds[k] is Setter || ds[k] is Transform || ds[k] is Remove);
        }
    }
    lemma_no_filter_rules(ds);
    lemma_capture_succeeds(ds, at);
    lemma_not_quiet(ds);
}

proof fn lemma_not_quiet(ds: Seq<DirectiveView>)
    requires
        forall|k: int| 0 <= k < ds.len() ==> !((#[trigger] ds[k]) is NoWarnMultipleKeyMatches),
    ensures
        !keeps_quiet(ds),
    decreases ds.len(),
{
    if ds.len() > 0 {
        assert(!(ds[0] is NoWarnMultipleKeyMatches));
        assert forall|k: int| 0 <= k < ds.drop_first().len() implies !((
        #[trigger] ds.drop_first()[k]) is NoWarnMultipleKeyMatches) by {
            assert(ds.drop_first()[k] == ds[k + 1]);
        }
        lemma_not_quiet(ds.drop_first());
    }
}

proof fn lemma_gather_merge_passes_over(
    ds: Seq<DirectiveView>,
    blanked: Seq<DirectiveView>,
    state: Gathered<MergeRuleView>,
)
    requires
        blanked.len() == ds.len(),
        forall|k: int|
            0 <= k < ds.len() ==> (#[trigger] blanked[k]) == (if ds[k] is AddHide || ds[k]
                is AddRemove {
                DirectiveView::WS
            } else {
                ds[k]
            }),
    ensures
        gather_merge(ds, state) == gather_merge(blanked, state),
    decreases ds.len(),
{
    if ds.len() > 0 {
        let d = ds.first();
        assert(blanked[0] == (if ds[0] is AddHide || ds[0] is AddRemove {
            DirectiveView::WS
        } else {
            ds[0]
        }));
        assert forall|k: int| 0 <= k < ds.drop_first().len() implies (
        #[trigger] blanked.drop_first()[k]) == (if ds.drop_first()[k] is AddHide
            || ds.drop_first()[k] is AddRemove {
            DirectiveView::WS
        } else {
            ds.drop_first()[k]
        }) by {
            assert(blanked.drop_first()[k] == blanked[k + 1]);
            assert(ds.drop_first()[k] == ds[k + 1]);
        }
        if let Ok(next) = step(state, d, merge_fault_of(d), merge_rule_of(d)) {
            lemma_gather_merge_passes_over(ds.drop_first(), blanked.drop_first(), next);
        }
    }
}

/// Merging passes over the directives for capturing.
///
/// Directives compile for merging to the same outcome, the same error or the
/// same source and table, as the directives that have a blank line in place
/// of every `add:hide` and `add:remove`.
pub proof fn lemma_merge_passes_over_capture_directives(
    ds: Seq<DirectiveView>,
    blanked: Seq<DirectiveView>,
)
    requires
        blanked.len() == ds.len(),
        forall|k: int|
            0 <= k < ds.len() ==> (#[trigger] blanked[k]) == (if ds[k] is AddHide || ds[k]
                is AddRemove {
                DirectiveView::WS
            } else {
                ds[k]
            }),
    ensures
        merge_outcome(ds) == merge_outcome(blanked),
{
    lemma_gather_merge_passes_over(ds, blanked, nothing());
}

/// What an `ignore` is to capturing: an `add:remove` of the same matcher.
pub open spec fn ignore_as_add_remove(d: DirectiveView) -> DirectiveView {
    match d {
        DirectiveView::Ignore(m) => DirectiveView::AddRemove(m),
        _ => d,
    }
}

proof fn lemma_gather_filter_takes_ignore(
    ds: Seq<DirectiveView>,
    turned: Seq<DirectiveView>,
    state: Gathered<FilterRuleView>,
)
    requires
        turned.len() == ds.len(),
        forall|k: int| 0 <= k < ds.len() ==> (#[trigger] turned[k]) == ignore_as_add_remove(ds[k]),
    ensures
        gather_filter(ds, state) == gather_filter(turned, state),
    decreases ds.len(),
{
    if ds.len() > 0 {
        let d = ds.first();
        assert(turned[0] == ignore_as_add_remove(ds[0]));
        assert forall|k: int| 0 <= k < ds.drop_first().len() implies (
        #[trigger] turned.drop_first()[k]) == ignore_as_add_remove(ds.drop_first()[k]) by {
            assert(turned.drop_first()[k] == turned[k + 1]);
            assert(ds.drop_first()[k] == ds[k + 1]);
        }
        if let Ok(next) = step(state, d, None, filter_rule_of(d)) {
            lemma_gather_filter_takes_ignore(ds.drop_first(), turned.drop_first(), next);
        }
    }
}

/// Capturing takes an `ignore` for an `add:remove`.
///
/// Directives compile for capturing to the same outcome, the same error or
/// the same source and table, as the directives that have an `add:remove` of
/// the same matcher in place of every `ignore`: what is not merged is left
/// out of what is captured, section for section, entry for entry and pattern
/// for pattern.
pub proof fn lemma_capture_takes_ignore_for_add_remove(
    ds: Seq<DirectiveView>,
    turned: Seq<DirectiveView>,
)
    requires
        turned.len() == ds.len(),
        forall|k: int| 0 <= k < ds.len() ==> (#[trigger] turned[k]) == ignore_as_add_remove(ds[k]),
    ensures
        filter_outcome(ds) == filter_outcome(turned),
{
    lemma_gather_filter_takes_ignore(ds, turned, nothing());
}

} // verus!
