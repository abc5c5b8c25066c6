//! Compiling directives into action tables.
//!
//! The same directives compile in two ways: into a table for merging the
//! tracked copy of a file into the live one, and into a table for capturing
//! the live copy. Each way takes the directives in order, stops at the first
//! that is at fault, and wants exactly one that says where the tracked copy
//! is.

use crate::directive::{directive_views, Directive, DirectiveView, Matcher, MatcherView};
use crate::engine::{
    builder_error_text, filter_actions_model, filter_add_literal, filter_add_regex,
    filter_add_section, filter_build, filter_builder_model, filter_set_warn, mutations_add_literal,
    mutations_add_regex, mutations_add_section, mutations_add_setter, mutations_build,
    mutations_builder_model, mutations_model, mutations_set_warn, new_filter_builder,
    new_mutations_builder, pattern_set_compiles, EngineAction,
};
use crate::grammar::{directives_of, SyntaxError};
use crate::parser::{parse_config, ParseError};
use crate::table::{
    filter_model, filter_rule_views, merge_model, merge_rule_views, pattern_texts, CaptureAction,
    CaptureActionView, EntryAction, EntryActionView, FilterRule, FilterRuleView, FilterTable,
    FilterTableView, MergeRule, MergeRuleView, MergeTable, MergeTableView, SectionAction,
    TransformSpec, TransformSpecView,
};
use crate::transforms::{accepts, supported, transform_named, ConstructError, Transform};
use vstd::prelude::*;

verus! {

/// Where the tracked copy of the file is.
#[derive(Debug, Clone, PartialEq, Eq)]
pub enum Source {
    /// At this path.
    Path(String),
    /// Where the tracking tool says, through the environment.
    AutoEnv,
    /// Beside the script, under the name that the script's name gives.
    AutoPath,
}

/// A [`Source`] as a mathematical value.
pub enum SourceView {
    Path(Seq<char>),
    AutoEnv,
    AutoPath,
}

impl View for Source {
    type V = SourceView;

    open spec fn view(&self) -> SourceView {
        match self {
            Source::Path(path) => SourceView::Path(path@),
            Source::AutoEnv => SourceView::AutoEnv,
            Source::AutoPath => SourceView::AutoPath,
        }
    }
}

/// Why directives did not compile.
#[derive(Debug, Clone, PartialEq, Eq)]
pub enum CompileError {
    /// The text is no list of directives.
    Syntax(ParseError),
    /// A second directive says where the tracked copy is.
    DuplicateSource,
    /// No directive says where the tracked copy is.
    MissingSource,
    /// A transform was given a matcher for whole sections.
    SectionTransform,
    /// No transform has this name.
    UnknownTransform(String),
    /// This build cannot run the transform of this name.
    UnsupportedTransform(String),
    /// The transform of this name does not take its arguments; with the
    /// engine's reason.
    TransformArguments(String, String),
    /// A regular expression does not compile; with the engine's reason.
    Regex(String),
}

/// A [`CompileError`] as a mathematical value. The engine's reasons are left
/// out: nothing is known of them.
pub enum CompileFault {
    Syntax(SyntaxError),
    DuplicateSource,
    MissingSource,
    SectionTransform,
    UnknownTransform(Seq<char>),
    UnsupportedTransform(Seq<char>),
    TransformArguments(Seq<char>),
    Regex,
}

impl View for CompileError {
    type V = CompileFault;

    open spec fn view(&self) -> CompileFault {
        match self {
            CompileError::Syntax(e) => CompileFault::Syntax(e@),
            CompileError::DuplicateSource => CompileFault::DuplicateSource,
            CompileError::MissingSource => CompileFault::MissingSource,
            CompileError::SectionTransform => CompileFault::SectionTransform,
            CompileError::UnknownTransform(name) => CompileFault::UnknownTransform(name@),
            CompileError::UnsupportedTransform(name) => CompileFault::UnsupportedTransform(name@),
            CompileError::TransformArguments(name, _) => CompileFault::TransformArguments(name@),
            CompileError::Regex(_) => CompileFault::Regex,
        }
    }
}

/// The placeholder that takes the place of a hidden value.
pub const HIDDEN: &'static str = "HIDDEN";

/// What stands between key and value of a `set` line that names no separator.
pub const DEFAULT_SEPARATOR: &'static str = " = ";

/// What a directive says of where the tracked copy is, if it says anything.
pub open spec fn source_of(d: DirectiveView) -> Option<SourceView> {
    match d {
        DirectiveView::Source(path) => Some(SourceView::Path(path)),
        DirectiveView::SourceAuto => Some(SourceView::AutoEnv),
        DirectiveView::SourceAutoPath => Some(SourceView::AutoPath),
        _ => None,
    }
}

/// The action that a `transform` directive asks for, or why there is none:
/// the name must be that of a transform, this build must be able to run it,
/// and it must take the arguments.
pub open spec fn transform_action(name: Seq<char>, args: Seq<(Seq<char>, Seq<char>)>) -> Result<
    EntryActionView,
    CompileFault,
> {
    match transform_named(name) {
        None => Err(CompileFault::UnknownTransform(name)),
        Some(kind) => if !supported(kind) {
            Err(CompileFault::UnsupportedTransform(name))
        } else if !accepts(kind, args) {
            Err(CompileFault::TransformArguments(name))
        } else {
            Ok(EntryActionView::Transform(TransformSpecView { kind, args }))
        },
    }
}

/// The rule that gives what `m` selects one of two actions: the first where
/// `m` selects a section, the second where it selects entries.
pub open spec fn merge_rule(
    m: MatcherView,
    for_section: SectionAction,
    for_entry: EntryActionView,
) -> MergeRuleView {
    match m {
        MatcherView::Section(section) => MergeRuleView::Section { section, action: for_section },
        MatcherView::Literal(section, key) => MergeRuleView::Literal {
            section,
            key,
            action: for_entry,
        },
        MatcherView::Regex(section, key) => MergeRuleView::Regex { section, key, action: for_entry },
    }
}

/// The rule that a directive adds to the merge table, if it adds one and is
/// not at fault: `ignore` keeps what it selects, `remove` deletes it,
/// `transform` hands it to its transform, `set` makes a setter. The
/// directives for capturing add nothing.
pub open spec fn merge_rule_of(d: DirectiveView) -> Option<MergeRuleView> {
    match d {
        DirectiveView::Ignore(m) => Some(
            merge_rule(m, SectionAction::Ignore, EntryActionView::Ignore),
        ),
        DirectiveView::Remove(m) => Some(
            merge_rule(m, SectionAction::Delete, EntryActionView::Delete),
        ),
        DirectiveView::Transform(m, name, args) => match transform_action(name, args) {
            Ok(action) => if m is Section {
                None
            } else {
                Some(merge_rule(m, SectionAction::Ignore, action))
            },
            Err(_) => None,
        },
        DirectiveView::Setter { section, key, value, separator } => Some(
            MergeRuleView::Setter {
                section,
                key,
                value,
                separator: match separator {
                    Some(text) => text,
                    None => DEFAULT_SEPARATOR@,
                },
            },
        ),
        _ => None,
    }
}

/// What is wrong with a directive by itself when compiling for merging: only a
/// `transform` can be at fault, first by its name and arguments, then by a
/// matcher for sections.
pub open spec fn merge_fault_of(d: DirectiveView) -> Option<CompileFault> {
    match d {
        DirectiveView::Transform(m, name, args) => match transform_action(name, args) {
            Err(fault) => Some(fault),
            Ok(_) => if m is Section {
                Some(CompileFault::SectionTransform)
            } else {
                None
            },
        },
        _ => None,
    }
}

/// The rule that gives what `m` selects the action `action` when capturing.
pub open spec fn filter_rule(m: MatcherView, action: CaptureActionView) -> FilterRuleView {
    match m {
        MatcherView::Section(section) => FilterRuleView::Section { section, action },
        MatcherView::Literal(section, key) => FilterRuleView::Literal { section, key, action },
        MatcherView::Regex(section, key) => FilterRuleView::Regex { section, key, action },
    }
}

/// The rule that a directive adds to the filter table, if it adds one:
/// `add:hide` puts the placeholder in place of the values, `add:remove` leaves
/// out what it selects, and so does `ignore`: what is not merged is not
/// captured either. The other directives add nothing.
pub open spec fn filter_rule_of(d: DirectiveView) -> Option<FilterRuleView> {
    match d {
        DirectiveView::AddHide(m) => Some(filter_rule(m, CaptureActionView::Replace(HIDDEN@))),
        DirectiveView::AddRemove(m) => Some(filter_rule(m, CaptureActionView::Remove)),
        DirectiveView::Ignore(m) => Some(filter_rule(m, CaptureActionView::Remove)),
        _ => None,
    }
}

/// What compiling has gathered so far.
pub struct Gathered<R> {
    /// Where the tracked copy is, once a directive has said so.
    pub source: Option<SourceView>,
    /// The rules, in order.
    pub rules: Seq<R>,
    /// Whether a key that several patterns match is reported.
    pub warn: bool,
}

/// Nothing gathered yet.
pub open spec fn nothing<R>() -> Gathered<R> {
    Gathered { source: None, rules: Seq::empty(), warn: true }
}

/// One step of compiling: `state` after the directive `d`, given the fault
/// and the rule of `d` in the mode at hand.
pub open spec fn step<R>(
    state: Gathered<R>,
    d: DirectiveView,
    fault: Option<CompileFault>,
    rule: Option<R>,
) -> Result<Gathered<R>, CompileFault> {
    if source_of(d) is Some {
        if state.source is Some {
            Err(CompileFault::DuplicateSource)
        } else {
            Ok(Gathered { source: source_of(d), ..state })
        }
    } else if d is NoWarnMultipleKeyMatches {
        Ok(Gathered { warn: false, ..state })
    } else if fault is Some {
        Err(fault->0)
    } else if rule is Some {
        Ok(Gathered { rules: state.rules.push(rule->0), ..state })
    } else {
        Ok(state)
    }
}

/// Compiling for merging, from `state` on: the directives in order, up to the
/// first fault.
pub open spec fn gather_merge(ds: Seq<DirectiveView>, state: Gathered<MergeRuleView>) -> Result<
    Gathered<MergeRuleView>,
    CompileFault,
>
    decreases ds.len(),
{
    if ds.len() == 0 {
        Ok(state)
    } else {
        match step(state, ds.first(), merge_fault_of(ds.first()), merge_rule_of(ds.first())) {
            Ok(next) => gather_merge(ds.drop_first(), next),
            Err(fault) => Err(fault),
        }
    }
}

/// Compiling for capturing, from `state` on. No directive is at fault by
/// itself in this mode.
pub open spec fn gather_filter(ds: Seq<DirectiveView>, state: Gathered<FilterRuleView>) -> Result<
    Gathered<FilterRuleView>,
    CompileFault,
>
    decreases ds.len(),
{
    if ds.len() == 0 {
        Ok(state)
    } else {
        match step(state, ds.first(), None, filter_rule_of(ds.first())) {
            Ok(next) => gather_filter(ds.drop_first(), next),
            Err(fault) => Err(fault),
        }
    }
}

/// What directives compile to for merging, before the engine sees it: where
/// the tracked copy is, and the table.
pub open spec fn merge_plan(ds: Seq<DirectiveView>) -> Result<
    (SourceView, MergeTableView),
    CompileFault,
> {
    match gather_merge(ds, nothing()) {
        Err(fault) => Err(fault),
        Ok(found) => match found.source {
            None => Err(CompileFault::MissingSource),
            Some(source) => Ok(
                (source, MergeTableView { rules: found.rules, warn_on_multiple_matches: found.warn }),
            ),
        },
    }
}

/// What directives compile to for capturing, before the engine sees it.
pub open spec fn filter_plan(ds: Seq<DirectiveView>) -> Result<
    (SourceView, FilterTableView),
    CompileFault,
> {
    match gather_filter(ds, nothing()) {
        Err(fault) => Err(fault),
        Ok(found) => match found.source {
            None => Err(CompileFault::MissingSource),
            Some(source) => Ok(
                (source, FilterTableView { rules: found.rules, warn_on_multiple_matches: found.warn }),
            ),
        },
    }
}

/// Whether the engine can build a merge table: its patterns must compile. A
/// table without patterns can always be built.
pub open spec fn merge_table_builds(table: MergeTableView) -> bool {
    pattern_set_compiles(pattern_texts(merge_model(table).patterns))
}

/// Whether the engine can build a filter table: its patterns must compile. A
/// table without patterns can always be built.
pub open spec fn filter_table_builds(table: FilterTableView) -> bool {
    pattern_set_compiles(pattern_texts(filter_model(table).patterns))
}

/// What directives compile to for merging: the plan, if the engine can build
/// its table.
pub open spec fn merge_outcome(ds: Seq<DirectiveView>) -> Result<
    (SourceView, MergeTableView),
    CompileFault,
> {
    match merge_plan(ds) {
        Err(fault) => Err(fault),
        Ok((source, table)) => if merge_table_builds(table) {
            Ok((source, table))
        } else {
            Err(CompileFault::Regex)
        },
    }
}

/// What directives compile to for capturing: the plan, if the engine can
/// build its table.
pub open spec fn filter_outcome(ds: Seq<DirectiveView>) -> Result<
    (SourceView, FilterTableView),
    CompileFault,
> {
    match filter_plan(ds) {
        Err(fault) => Err(fault),
        Ok((source, table)) => if filter_table_builds(table) {
            Ok((source, table))
        } else {
            Err(CompileFault::Regex)
        },
    }
}

/// What a text compiles to for merging.
pub open spec fn merge_outcome_of_text(text: Seq<char>) -> Result<
    (SourceView, MergeTableView),
    CompileFault,
> {
    match directives_of(text) {
        Err(e) => Err(CompileFault::Syntax(e)),
        Ok(ds) => merge_outcome(ds),
    }
}

/// What a text compiles to for capturing.
pub open spec fn filter_outcome_of_text(text: Seq<char>) -> Result<
    (SourceView, FilterTableView),
    CompileFault,
> {
    match directives_of(text) {
        Err(e) => Err(CompileFault::Syntax(e)),
        Ok(ds) => filter_outcome(ds),
    }
}

/// Compiled for merging: where the tracked copy is, the table as data, and
/// the same table as the engine takes it.
#[derive(Debug)]
pub struct MergeConfig {
    pub source: Source,
    pub table: MergeTable,
    pub mutations: ini_merge::mutations::Mutations,
}

/// Compiled for capturing: where the tracked copy is, the table as data, and
/// the same table as the engine takes it.
#[derive(Debug)]
pub struct AddConfig {
    pub source: Source,
    pub table: FilterTable,
    pub actions: ini_merge::filter::FilterActions,
}

/// What is known so far of where the tracked copy is, as a mathematical value.
pub open spec fn source_view(source: Option<Source>) -> Option<SourceView> {
    match source {
        Some(s) => Some(s@),
        None => None,
    }
}

proof fn lemma_merge_rules_push(rules: Seq<MergeRule>, rule: MergeRule)
    ensures
        merge_rule_views(rules.push(rule)) == merge_rule_views(rules).push(rule@),
        crate::table::merge_rules_model(merge_rule_views(rules).push(rule@))
            == crate::table::with_merge_rule(
            crate::table::merge_rules_model(merge_rule_views(rules)),
            rule@,
        ),
{
    assert(merge_rule_views(rules.push(rule)) =~= merge_rule_views(rules).push(rule@));
    assert(merge_rule_views(rules).push(rule@).drop_last() =~= merge_rule_views(rules));
}

proof fn lemma_filter_rules_push(rules: Seq<FilterRule>, rule: FilterRule)
    ensures
        filter_rule_views(rules.push(rule)) == filter_rule_views(rules).push(rule@),
        crate::table::filter_rules_model(filter_rule_views(rules).push(rule@))
            == crate::table::with_filter_rule(
            crate::table::filter_rules_model(filter_rule_views(rules)),
            rule@,
        ),
{
    assert(filter_rule_views(rules.push(rule)) =~= filter_rule_views(rules).push(rule@));
    assert(filter_rule_views(rules).push(rule@).drop_last() =~= filter_rule_views(rules));
}

/// Adds to the merge table, and to the engine's builder, the rule that gives
/// what `matcher` selects its action.
fn add_merge_action(
    builder: &mut ini_merge::mutations::MutationsBuilder,
    rules: &mut Vec<MergeRule>,
    matcher: &Matcher,
    for_section: SectionAction,
    for_entry: EntryAction,
    engine_action: EngineAction,
)
    requires
        crate::engine::engine_action_model(engine_action) == crate::table::entry_model(for_entry@),
    ensures
        merge_rule_views(final(rules)@) == merge_rule_views(old(rules)@).push(
            merge_rule(matcher@, for_section, for_entry@),
        ),
        mutations_builder_model(*final(builder)) == crate::table::with_merge_rule(
            mutations_builder_model(*old(builder)),
            merge_rule(matcher@, for_section, for_entry@),
        ),
        crate::table::merge_rules_model(merge_rule_views(final(rules)@))
            == crate::table::with_merge_rule(
            crate::table::merge_rules_model(merge_rule_views(old(rules)@)),
            merge_rule(matcher@, for_section, for_entry@),
        ),
{
    let rule = match matcher {
        Matcher::Section(section) => {
            mutations_add_section(builder, section.clone(), for_section);
            MergeRule::Section { section: section.clone(), action: for_section }
        },
        Matcher::Literal(section, key) => {
            mutations_add_literal(builder, section.clone(), key.as_str(), engine_action);
            MergeRule::Literal { section: section.clone(), key: key.clone(), action: for_entry }
        },
        Matcher::Regex(section, key) => {
            mutations_add_regex(builder, section.as_str(), key.as_str(), engine_action);
            MergeRule::Regex { section: section.clone(), key: key.clone(), action: for_entry }
        },
    };
    proof {
        lemma_merge_rules_push(rules@, rule);
    }
    rules.push(rule);
}

/// Adds to the filter table, and to the engine's builder, the rule that gives
/// what `matcher` selects the action `action`.
fn add_filter_action(
    builder: &mut ini_merge::filter::FilterActionsBuilder,
    rules: &mut Vec<FilterRule>,
    matcher: &Matcher,
    action: CaptureAction,
)
    ensures
        filter_rule_views(final(rules)@) == filter_rule_views(old(rules)@).push(
            filter_rule(matcher@, action@),
        ),
        filter_builder_model(*final(builder)) == crate::table::with_filter_rule(
            filter_builder_model(*old(builder)),
            filter_rule(matcher@, action@),
        ),
        crate::table::filter_rules_model(filter_rule_views(final(rules)@))
            == crate::table::with_filter_rule(
            crate::table::filter_rules_model(filter_rule_views(old(rules)@)),
            filter_rule(matcher@, action@),
        ),
{
    let rule = match matcher {
        Matcher::Section(section) => {
            filter_add_section(builder, section.clone(), action);
            FilterRule::Section { section: section.clone(), action }
        },
        Matcher::Literal(section, key) => {
            filter_add_literal(builder, section.clone(), key.as_str(), action);
            FilterRule::Literal { section: section.clone(), key: key.clone(), action }
        },
        Matcher::Regex(section, key) => {
            filter_add_regex(builder, section.as_str(), key.as_str(), action);
            FilterRule::Regex { section: section.clone(), key: key.clone(), action }
        },
    };
    proof {
        lemma_filter_rules_push(rules@, rule);
    }
    rules.push(rule);
}

/// Makes the transform that a directive names.
pub fn make_transformer(name: &str, args: &crate::directive::TransformArgs) -> (r: Result<
    (Transform, ini_merge::mutations::transforms::TransformerDispatch),
    CompileError,
>)
    ensures
        match r {
            Ok((kind, t)) => transform_action(name@, args@) == Ok::<_, CompileFault>(
                EntryActionView::Transform(TransformSpecView { kind, args: args@ }),
            ) && crate::engine::transformer_model(t) == crate::table::transformer_of(
                TransformSpecView { kind, args: args@ },
            ),
            Err(e) => transform_action(name@, args@) matches Err(fault) && fault == e@,
        },
{
    let kind = match Transform::from_name(name) {
        Some(kind) => kind,
        None => {
            return Err(CompileError::UnknownTransform(String::from_str(name)));
        },
    };
    match kind.construct(args) {
        Ok(t) => Ok((kind, t)),
        Err(ConstructError::Unsupported) => Err(
            CompileError::UnsupportedTransform(String::from_str(name)),
        ),
        Err(ConstructError::Arguments(reason)) => Err(
            CompileError::TransformArguments(String::from_str(name), reason),
        ),
    }
}

/// Compiles directives for merging.
///
/// The directives are taken in order. `ignore`, `remove`, `transform` and
/// `set` each add a rule to the table, the directives for capturing add
/// none. The first fault ends the work: a second source, or a `transform`
/// that names no transform, one that this build cannot run, one with
/// arguments that its transform does not take, or one with a matcher for
/// sections. After the last directive a source must have been named, and
/// the engine must be able to compile the patterns of the table.
pub fn compile_directives_for_merge(directives: &Vec<Directive>) -> (r: Result<
    MergeConfig,
    CompileError,
>)
    ensures
        match r {
            Ok(config) => merge_outcome(directive_views(directives@)) == Ok::<_, CompileFault>(
                (config.source@, config.table@),
            ) && mutations_model(config.mutations) == merge_model(config.table@),
            Err(e) => merge_outcome(directive_views(directives@)) matches Err(fault) && fault
                == e@,
        },
{
    let ghost all = directive_views(directives@);
    let mut source: Option<Source> = None;
    let mut rules: Vec<MergeRule> = Vec::new();
    let mut warn: bool = true;
    let mut builder = new_mutations_builder();
    let mut i: usize = 0;
    assert(all.skip(0) =~= all);
    assert(merge_rule_views(rules@) =~= Seq::empty());
    while i < directives.len()
        invariant
            i <= directives@.len(),
            all == directive_views(directives@),
            gather_merge(all, nothing()) == gather_merge(
                all.skip(i as int),
                Gathered {
                    source: source_view(source),
                    rules: merge_rule_views(rules@),
                    warn,
                },
            ),
            mutations_builder_model(builder) == (crate::table::MergeModel {
                warn,
                ..crate::table::merge_rules_model(merge_rule_views(rules@))
            }),
        decreases directives@.len() - i,
    {
        proof {
            assert(all.skip(i as int).first() == directives@[i as int]@);
            assert(all.skip(i as int).drop_first() =~= all.skip(i + 1));
        }
        match &directives[i] {
            Directive::WS => {},
            Directive::AddRemove(_) => {},
            Directive::AddHide(_) => {},
            Directive::Source(path) => {
                if source.is_some() {
                    return Err(CompileError::DuplicateSource);
                }
                source = Some(Source::Path(path.clone()));
            },
            Directive::SourceAuto => {
                if source.is_some() {
                    return Err(CompileError::DuplicateSource);
                }
                source = Some(Source::AutoEnv);
            },
            Directive::SourceAutoPath => {
                if source.is_some() {
                    return Err(CompileError::DuplicateSource);
                }
                source = Some(Source::AutoPath);
            },
            Directive::Ignore(matcher) => {
                add_merge_action(
                    &mut builder,
                    &mut rules,
                    matcher,
                    SectionAction::Ignore,
                    EntryAction::Ignore,
                    EngineAction::Ignore,
                );
            },
            Directive::Remove(matcher) => {
                add_merge_action(
                    &mut builder,
                    &mut rules,
                    matcher,
                    SectionAction::Delete,
                    EntryAction::Delete,
                    EngineAction::Delete,
                );
            },
            Directive::Transform(matcher, name, args) => {
                let (kind, made) = match make_transformer(name.as_str(), args) {
                    Ok(found) => found,
                    Err(e) => {
                        return Err(e);
                    },
                };
                match matcher {
                    Matcher::Section(_) => {
                        return Err(CompileError::SectionTransform);
                    },
                    _ => {},
                }
                add_merge_action(
                    &mut builder,
                    &mut rules,
                    matcher,
                    SectionAction::Ignore,
                    EntryAction::Transform(TransformSpec { kind, args: args.clone() }),
                    EngineAction::Transform(made),
                );
            },
            Directive::Setter { section, key, value, separator } => {
                let separator = match separator {
                    Some(text) => text.clone(),
                    None => String::from_str(DEFAULT_SEPARATOR),
                };
                mutations_add_setter(
                    &mut builder,
                    section.clone(),
                    key.clone(),
                    value.as_str(),
                    separator.as_str(),
                );
                let rule = MergeRule::Setter {
                    section: section.clone(),
                    key: key.clone(),
                    value: value.clone(),
                    separator,
                };
                proof {
                    lemma_merge_rules_push(rules@, rule);
                }
                rules.push(rule);
            },
            Directive::NoWarnMultipleKeyMatches => {
                warn = false;
                mutations_set_warn(&mut builder, false);
            },
        }
        i = i + 1;
    }
    let source = match source {
        Some(source) => source,
        None => {
            return Err(CompileError::MissingSource);
        },
    };
    let table = MergeTable { rules, warn_on_multiple_matches: warn };
    proof {
        crate::table::lemma_merge_model_patterns(merge_rule_views(table.rules@));
    }
    match mutations_build(builder) {
        Ok(mutations) => Ok(MergeConfig { source, table, mutations }),
        Err(e) => Err(CompileError::Regex(builder_error_text(&e))),
    }
}

/// Compiles directives for capturing.
///
/// The directives are taken in order. `add:hide`, `add:remove` and `ignore`
/// each add a rule to the table, the other directives add none, and a
/// `transform` is not even looked at. The only fault is a second source.
/// After the last directive a source must have been named, and the engine
/// must be able to compile the patterns of the table.
pub fn compile_directives_for_add(directives: &Vec<Directive>) -> (r: Result<
    AddConfig,
    CompileError,
>)
    ensures
        match r {
            Ok(config) => filter_outcome(directive_views(directives@)) == Ok::<_, CompileFault>(
                (config.source@, config.table@),
            ) && filter_actions_model(config.actions) == filter_model(config.table@),
            Err(e) => filter_outcome(directive_views(directives@)) matches Err(fault) && fault
                == e@,
        },
{
    let ghost all = directive_views(directives@);
    let mut source: Option<Source> = None;
    let mut rules: Vec<FilterRule> = Vec::new();
    let mut warn: bool = true;
    let mut builder = new_filter_builder();
    let mut i: usize = 0;
    assert(all.skip(0) =~= all);
    assert(filter_rule_views(rules@) =~= Seq::empty());
    while i < directives.len()
        invariant
            i <= directives@.len(),
            all == directive_views(directives@),
            gather_filter(all, nothing()) == gather_filter(
                all.skip(i as int),
                Gathered {
                    source: source_view(source),
                    rules: filter_rule_views(rules@),
                    warn,
                },
            ),
            filter_builder_model(builder) == (crate::table::FilterModel {
                warn,
                ..crate::table::filter_rules_model(filter_rule_views(rules@))
            }),
        decreases directives@.len() - i,
    {
        proof {
            assert(all.skip(i as int).first() == directives@[i as int]@);
            assert(all.skip(i as int).drop_first() =~= all.skip(i + 1));
        }
        match &directives[i] {
            Directive::WS => {},
            Directive::AddHide(matcher) => {
                add_filter_action(&mut builder, &mut rules, matcher, CaptureAction::Replace(HIDDEN));
            },
            Directive::AddRemove(matcher) => {
                add_filter_action(&mut builder, &mut rules, matcher, CaptureAction::Remove);
            },
            Directive::Ignore(matcher) => {
                add_filter_action(&mut builder, &mut rules, matcher, CaptureAction::Remove);
            },
            Directive::Source(path) => {
                if source.is_some() {
                    return Err(CompileError::DuplicateSource);
                }
                source = Some(Source::Path(path.clone()));
            },
            Directive::SourceAuto => {
                if source.is_some() {
                    return Err(CompileError::DuplicateSource);
                }
                source = Some(Source::AutoEnv);
            },
            Directive::SourceAutoPath => {
                if source.is_some() {
                    return Err(CompileError::DuplicateSource);
                }
                source = Some(Source::AutoPath);
            },
            Directive::Setter { .. } => {},
            Directive::Transform(_, _, _) => {},
            Directive::Remove(_) => {},
            Directive::NoWarnMultipleKeyMatches => {
                warn = false;
                filter_set_warn(&mut builder, false);
            },
        }
        i = i + 1;
    }
    let source = match source {
        Some(source) => source,
        None => {
            return Err(CompileError::MissingSource);
        },
    };
    let table = FilterTable { rules, warn_on_multiple_matches: warn };
    proof {
        crate::table::lemma_filter_model_patterns(filter_rule_views(table.rules@));
    }
    match filter_build(builder) {
        Ok(actions) => Ok(AddConfig { source, table, actions }),
        Err(e) => Err(CompileError::Regex(builder_error_text(&e))),
    }
}

/// Compiles the text of a script for merging.
pub fn compile_for_merge(text: &str) -> (r: Result<MergeConfig, CompileError>)
    ensures
        match r {
            Ok(config) => merge_outcome_of_text(text@) == Ok::<_, CompileFault>(
                (config.source@, config.table@),
            ) && mutations_model(config.mutations) == merge_model(config.table@),
            Err(e) => merge_outcome_of_text(text@) matches Err(fault) && fault == e@,
        },
{
    match parse_config(text) {
        Ok(directives) => compile_directives_for_merge(&directives),
        Err(e) => Err(CompileError::Syntax(e)),
    }
}

/// Compiles the text of a script for capturing.
pub fn compile_for_add(text: &str) -> (r: Result<AddConfig, CompileError>)
    ensures
        match r {
            Ok(config) => filter_outcome_of_text(text@) == Ok::<_, CompileFault>(
                (config.source@, config.table@),
            ) && filter_actions_model(config.actions) == filter_model(config.table@),
            Err(e) => filter_outcome_of_text(text@) matches Err(fault) && fault == e@,
        },
{
    match parse_config(text) {
        Ok(directives) => compile_directives_for_add(&directives),
        Err(e) => Err(CompileError::Syntax(e)),
    }
}

} // verus!
