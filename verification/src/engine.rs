//! The boundary to the engine that merges and filters INI files.
//!
//! The engine is the `ini_merge` crate. Nothing in it is verified here: this
//! module declares its types, names what its values hold, and wraps the calls
//! that the library makes, each with a contract that is taken on trust.

use crate::directive::{arg_value, distinct_keys, TransformArgs};
use crate::table::{
    empty_filter_model, empty_merge_model, entry_name, entry_pattern, pattern_texts,
    CaptureAction, EntryModel, FilterModel, MergeModel, SectionAction, TransformerModel,
};
use ini_merge::mutations::transforms::Transformer;
use std::collections::HashMap;
use vstd::prelude::*;
use vstd::utf8::{decode_utf8, valid_utf8};

verus! {

/// `ini_merge::mutations::MutationsBuilder`: collects the rules of a merge table.
#[verifier::external_type_specification]
#[verifier::external_body]
pub struct ExMutationsBuilder(ini_merge::mutations::MutationsBuilder);

/// `ini_merge::mutations::Mutations`: a merge table as the engine takes it.
#[verifier::external_type_specification]
#[verifier::external_body]
pub struct ExMutations(ini_merge::mutations::Mutations);

/// `ini_merge::filter::FilterAction`: what the engine does with a match when
/// it filters.
#[verifier::external_type_specification]
#[verifier::external_body]
pub struct ExFilterAction(ini_merge::filter::FilterAction);

/// `ini_merge::actions::ActionsBuilder`: collects the rules of a filter table.
#[verifier::external_type_specification]
#[verifier::external_body]
#[verifier::reject_recursive_types(A)]
#[verifier::reject_recursive_types(S)]
pub struct ExActionsBuilder<A, S>(ini_merge::actions::ActionsBuilder<A, S>);

/// `ini_merge::actions::Actions`: a filter table as the engine takes it.
#[verifier::external_type_specification]
#[verifier::external_body]
#[verifier::reject_recursive_types(A)]
#[verifier::reject_recursive_types(S)]
pub struct ExActions<A, S>(ini_merge::actions::Actions<A, S>);

/// `ini_merge::mutations::transforms::TransformerDispatch`: a transform that
/// the engine can run.
#[verifier::external_type_specification]
#[verifier::external_body]
pub struct ExTransformerDispatch(ini_merge::mutations::transforms::TransformerDispatch);

/// `ini_merge::actions::ActionsBuilderError`: why a table could not be built.
#[verifier::external_type_specification]
#[verifier::external_body]
pub struct ExActionsBuilderError(ini_merge::actions::ActionsBuilderError);

/// `ini_merge::mutations::transforms::TransformerConstructionError`: why a
/// transform did not take its arguments.
#[verifier::external_type_specification]
#[verifier::external_body]
pub struct ExTransformerConstructionError(
    ini_merge::mutations::transforms::TransformerConstructionError,
);

/// `ini_merge::filter::FilterError`: why a file could not be filtered.
#[verifier::external_type_specification]
#[verifier::external_body]
pub struct ExFilterError(ini_merge::filter::FilterError);

/// What a builder of merge tables holds: its actions for sections and for
/// entries, by exact name and by pattern, the entries that must exist, and
/// its flag.
pub uninterp spec fn mutations_builder_model(b: ini_merge::mutations::MutationsBuilder) -> MergeModel;

/// What a built merge table holds.
pub uninterp spec fn mutations_model(m: ini_merge::mutations::Mutations) -> MergeModel;

/// What a builder of filter tables holds: its actions for sections and for
/// entries, by exact name and by pattern, and its flag.
pub uninterp spec fn filter_builder_model(b: ini_merge::filter::FilterActionsBuilder) -> FilterModel;

/// What a built filter table holds.
pub uninterp spec fn filter_actions_model(a: ini_merge::filter::FilterActions) -> FilterModel;

/// What a transform of the engine holds.
pub uninterp spec fn transformer_model(
    t: ini_merge::mutations::transforms::TransformerDispatch,
) -> TransformerModel;

/// Whether the regular expressions `patterns` compile together into one set
/// (`regex::RegexSet::new`, which the engine calls when it builds a table).
pub uninterp spec fn regex_set_compiles(patterns: Seq<Seq<char>>) -> bool;

/// Whether a set of patterns compiles: the set without patterns always does
/// (`regex::RegexSet::empty` is `RegexSet::new` of no pattern, unwrapped), and
/// of any other set nothing is known but that the answer depends on the
/// patterns alone.
pub open spec fn pattern_set_compiles(patterns: Seq<Seq<char>>) -> bool {
    patterns.len() == 0 || regex_set_compiles(patterns)
}

/// The lines that the engine's filter leaves of the INI file `text` under a
/// filter table that holds `model`: its actions for sections and entries, by
/// name and by pattern, and its flag.
pub uninterp spec fn filtered_lines(text: Seq<char>, model: FilterModel) -> Seq<Seq<char>>;

/// An action for entries on its way into the engine: as
/// [`crate::table::EntryAction`], but with the transform made.
pub enum EngineAction {
    Ignore,
    Delete,
    Transform(ini_merge::mutations::transforms::TransformerDispatch),
}

/// What the engine holds of an action that is handed to it.
pub open spec fn engine_action_model(action: EngineAction) -> EntryModel {
    match action {
        EngineAction::Ignore => EntryModel::Ignore,
        EngineAction::Delete => EntryModel::Delete,
        EngineAction::Transform(t) => EntryModel::Transform(transformer_model(t)),
    }
}

/// The lines of a list of strings as a mathematical value.
pub open spec fn line_views(lines: Seq<String>) -> Seq<Seq<char>> {
    Seq::new(lines.len(), |i: int| lines[i]@)
}

/// `MutationsBuilder::new`. Trusted: the new builder holds no rule and
/// reports keys that several patterns match.
#[verifier::external_body]
pub(crate) fn new_mutations_builder() -> (builder: ini_merge::mutations::MutationsBuilder)
    ensures
        mutations_builder_model(builder) == empty_merge_model(),
{
    ini_merge::mutations::MutationsBuilder::new()
}

/// `MutationsBuilder::add_section_literal_action`. Trusted: the action is
/// stored under the section's name, in place of any that was there.
#[verifier::external_body]
pub(crate) fn mutations_add_section(
    builder: &mut ini_merge::mutations::MutationsBuilder,
    section: String,
    action: SectionAction,
)
    ensures
        mutations_builder_model(*final(builder)) == (MergeModel {
            sections: mutations_builder_model(*old(builder)).sections.insert(section@, action),
            ..mutations_builder_model(*old(builder))
        }),
{
    let action = match action {
        SectionAction::Ignore => ini_merge::mutations::SectionAction::Ignore,
        SectionAction::Delete => ini_merge::mutations::SectionAction::Delete,
    };
    builder.add_section_literal_action(section, action);
}

/// `MutationsBuilder::add_literal_action`. Trusted: the action is stored
/// under the entry's name, in place of any that was there.
#[verifier::external_body]
pub(crate) fn mutations_add_literal(
    builder: &mut ini_merge::mutations::MutationsBuilder,
    section: String,
    key: &str,
    action: EngineAction,
)
    ensures
        mutations_builder_model(*final(builder)) == (MergeModel {
            literals: mutations_builder_model(*old(builder)).literals.insert(
                entry_name(section@, key@),
                engine_action_model(action),
            ),
            ..mutations_builder_model(*old(builder))
        }),
{
    let action = match action {
        EngineAction::Ignore => ini_merge::mutations::Action::Ignore,
        EngineAction::Delete => ini_merge::mutations::Action::Delete,
        EngineAction::Transform(t) => ini_merge::mutations::Action::Transform(t),
    };
    builder.add_literal_action(section, key, action);
}

/// `MutationsBuilder::add_regex_action`. Trusted: the pattern made of the two
/// expressions goes to the end of the list of patterns, with the action.
#[verifier::external_body]
pub(crate) fn mutations_add_regex(
    builder: &mut ini_merge::mutations::MutationsBuilder,
    section: &str,
    key: &str,
    action: EngineAction,
)
    ensures
        mutations_builder_model(*final(builder)) == (MergeModel {
            patterns: mutations_builder_model(*old(builder)).patterns.push(
                (entry_pattern(section@, key@), engine_action_model(action)),
            ),
            ..mutations_builder_model(*old(builder))
        }),
{
    let action = match action {
        EngineAction::Ignore => ini_merge::mutations::Action::Ignore,
        EngineAction::Delete => ini_merge::mutations::Action::Delete,
        EngineAction::Transform(t) => ini_merge::mutations::Action::Transform(t),
    };
    builder.add_regex_action(section, key, action);
}

/// `MutationsBuilder::add_setter`. Trusted: a transform that always gives the
/// line `key`, `separator`, `value` is stored under the entry's name, in place
/// of any action that was there, and the entry is noted as one that must
/// exist.
#[verifier::external_body]
pub(crate) fn mutations_add_setter(
    builder: &mut ini_merge::mutations::MutationsBuilder,
    section: String,
    key: String,
    value: &str,
    separator: &str,
)
    ensures
        mutations_builder_model(*final(builder)) == (MergeModel {
            literals: mutations_builder_model(*old(builder)).literals.insert(
                entry_name(section@, key@),
                EntryModel::Transform(TransformerModel::Fixed(key@ + separator@ + value@)),
            ),
            forced: mutations_builder_model(*old(builder)).forced.insert((section@, key@)),
            ..mutations_builder_model(*old(builder))
        }),
{
    builder.add_setter(section, key, value, separator);
}

/// `MutationsBuilder::warn_on_multiple_matches`. Trusted: only the flag
/// changes.
#[verifier::external_body]
pub(crate) fn mutations_set_warn(builder: &mut ini_merge::mutations::MutationsBuilder, warn: bool)
    ensures
        mutations_builder_model(*final(builder)) == (MergeModel {
            warn,
            ..mutations_builder_model(*old(builder))
        }),
{
    builder.warn_on_multiple_matches(warn);
}

/// `MutationsBuilder::build`. Trusted: the table holds what the builder held,
/// and building succeeds exactly when the builder's patterns for sections and
/// its patterns for entries each compile into a set, which a set of no
/// pattern always does.
#[verifier::external_body]
pub(crate) fn mutations_build(builder: ini_merge::mutations::MutationsBuilder) -> (r: Result<
    ini_merge::mutations::Mutations,
    ini_merge::actions::ActionsBuilderError,
>)
    ensures
        r is Ok <==> ((pattern_texts(mutations_builder_model(builder).section_patterns).len() == 0
            || regex_set_compiles(
            pattern_texts(mutations_builder_model(builder).section_patterns),
        )) && (pattern_texts(mutations_builder_model(builder).patterns).len() == 0
            || regex_set_compiles(pattern_texts(mutations_builder_model(builder).patterns)))),
        r matches Ok(m) ==> mutations_model(m) == mutations_builder_model(builder),
{
    builder.build()
}

/// `FilterActionsBuilder::new`. Trusted: the new builder holds no rule and
/// reports keys that several patterns match.
#[verifier::external_body]
pub(crate) fn new_filter_builder() -> (builder: ini_merge::filter::FilterActionsBuilder)
    ensures
        filter_builder_model(builder) == empty_filter_model(),
{
    ini_merge::filter::FilterActionsBuilder::new()
}

/// `ActionsBuilder::add_section_literal_action`. Trusted: the action is
/// stored under the section's name, in place of any that was there.
#[verifier::external_body]
pub(crate) fn filter_add_section(
    builder: &mut ini_merge::filter::FilterActionsBuilder,
    section: String,
    action: CaptureAction,
)
    ensures
        filter_builder_model(*final(builder)) == (FilterModel {
            sections: filter_builder_model(*old(builder)).sections.insert(section@, action@),
            ..filter_builder_model(*old(builder))
        }),
{
    let action = match action {
        CaptureAction::Remove => ini_merge::filter::FilterAction::Remove,
        CaptureAction::Replace(text) => ini_merge::filter::FilterAction::Replace(text),
    };
    builder.add_section_literal_action(section, action);
}

/// `ActionsBuilder::add_literal_action`. Trusted: the action is stored under
/// the entry's name, in place of any that was there.
#[verifier::external_body]
pub(crate) fn filter_add_literal(
    builder: &mut ini_merge::filter::FilterActionsBuilder,
    section: String,
    key: &str,
    action: CaptureAction,
)
    ensures
        filter_builder_model(*final(builder)) == (FilterModel {
            literals: filter_builder_model(*old(builder)).literals.insert(
                entry_name(section@, key@),
                action@,
            ),
            ..filter_builder_model(*old(builder))
        }),
{
    let action = match action {
        CaptureAction::Remove => ini_merge::filter::FilterAction::Remove,
        CaptureAction::Replace(text) => ini_merge::filter::FilterAction::Replace(text),
    };
    builder.add_literal_action(section, key, action);
}

/// `ActionsBuilder::add_regex_action`. Trusted: the pattern made of the two
/// expressions goes to the end of the list of patterns, with the action.
#[verifier::external_body]
pub(crate) fn filter_add_regex(
    builder: &mut ini_merge::filter::FilterActionsBuilder,
    section: &str,
    key: &str,
    action: CaptureAction,
)
    ensures
        filter_builder_model(*final(builder)) == (FilterModel {
            patterns: filter_builder_model(*old(builder)).patterns.push(
                (entry_pattern(section@, key@), action@),
            ),
            ..filter_builder_model(*old(builder))
        }),
{
    let action = match action {
        CaptureAction::Remove => ini_merge::filter::FilterAction::Remove,
        CaptureAction::Replace(text) => ini_merge::filter::FilterAction::Replace(text),
    };
    builder.add_regex_action(section, key, action);
}

/// `ActionsBuilder::warn_on_multiple_matches`. Trusted: only the flag changes.
#[verifier::external_body]
pub(crate) fn filter_set_warn(builder: &mut ini_merge::filter::FilterActionsBuilder, warn: bool)
    ensures
        filter_builder_model(*final(builder)) == (FilterModel {
            warn,
            ..filter_builder_model(*old(builder))
        }),
{
    builder.warn_on_multiple_matches(warn);
}

/// `ActionsBuilder::build`. Trusted: the table holds what the builder held,
/// and building succeeds exactly when the builder's patterns for sections and
/// its patterns for entries each compile into a set, which a set of no
/// pattern always does.
#[verifier::external_body]
pub(crate) fn filter_build(builder: ini_merge::filter::FilterActionsBuilder) -> (r: Result<
    ini_merge::filter::FilterActions,
    ini_merge::actions::ActionsBuilderError,
>)
    ensures
        r is Ok <==> ((pattern_texts(filter_builder_model(builder).section_patterns).len() == 0
            || regex_set_compiles(pattern_texts(filter_builder_model(builder).section_patterns)))
            && (pattern_texts(filter_builder_model(builder).patterns).len() == 0
            || regex_set_compiles(pattern_texts(filter_builder_model(builder).patterns)))),
        r matches Ok(a) ==> filter_actions_model(a) == filter_builder_model(builder),
{
    builder.build()
}

/// `TransformUnsortedLists::from_user_input`. Trusted: the transform is made
/// exactly when the arguments hold a `separator` of one character, and then
/// holds that character.
#[verifier::external_body]
pub(crate) fn unsorted_lists_from_user_input(args: &TransformArgs) -> (r: Result<
    ini_merge::mutations::transforms::TransformerDispatch,
    ini_merge::mutations::transforms::TransformerConstructionError,
>)
    requires
        distinct_keys(args@),
    ensures
        r is Ok <==> (arg_value(args@, "separator"@) matches Some(v) && v.len() == 1),
        r matches Ok(t) ==> transformer_model(t) == TransformerModel::UnsortedLists(
            arg_value(args@, "separator"@)->0[0],
        ),
{
    let map: HashMap<&str, &str> =
        args.entries().iter().map(|(k, v)| (k.as_str(), v.as_str())).collect();
    ini_merge::mutations::transforms::TransformUnsortedLists::from_user_input(&map).map(Into::into)
}

/// `TransformKdeShortcut::from_user_input`. Trusted: the transform is made
/// exactly when there is no argument.
#[verifier::external_body]
pub(crate) fn kde_shortcut_from_user_input(args: &TransformArgs) -> (r: Result<
    ini_merge::mutations::transforms::TransformerDispatch,
    ini_merge::mutations::transforms::TransformerConstructionError,
>)
    requires
        distinct_keys(args@),
    ensures
        r is Ok <==> args@.len() == 0,
        r matches Ok(t) ==> transformer_model(t) == TransformerModel::KdeShortcut,
{
    let map: HashMap<&str, &str> =
        args.entries().iter().map(|(k, v)| (k.as_str(), v.as_str())).collect();
    ini_merge::mutations::transforms::TransformKdeShortcut::from_user_input(&map).map(Into::into)
}

/// `ini_merge::filter::filter_ini`, reading from memory. Trusted: it fails
/// exactly when `contents` is not UTF-8, and else gives the lines that the
/// function [`filtered_lines`] names: the same text under tables that hold
/// the same always gives the same lines.
#[verifier::external_body]
pub(crate) fn filter_ini(contents: &[u8], actions: &ini_merge::filter::FilterActions) -> (r: Result<
    Vec<String>,
    ini_merge::filter::FilterError,
>)
    ensures
        r is Ok <==> valid_utf8(contents@),
        r matches Ok(lines) ==> line_views(lines@) == filtered_lines(
            decode_utf8(contents@),
            filter_actions_model(*actions),
        ),
{
    let mut input: &[u8] = contents;
    ini_merge::filter::filter_ini(&mut input, actions)
}

/// The text of an `ActionsBuilderError`, through its `Display`. Nothing is
/// claimed of it.
#[verifier::external_body]
pub(crate) fn builder_error_text(error: &ini_merge::actions::ActionsBuilderError) -> String {
    format!("{error}")
}

/// The text of a `TransformerConstructionError`, through its `Display`.
/// Nothing is claimed of it.
#[verifier::external_body]
pub(crate) fn construction_error_text(
    error: &ini_merge::mutations::transforms::TransformerConstructionError,
) -> String {
    format!("{error}")
}

} // verus!
