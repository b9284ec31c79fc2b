//! KB validation: the registry's generic checks over a tree, and the
//! template's own rules about changes.
use vstd::prelude::*;

use crate::ordering::views;
use crate::outside::{
    facts_only, generic_findings, names_facts_paths, pair_paths, refuses_empty_facts_entries,
    registry_findings, system_texts, text_pairs, under_facts,
};
use crate::wire::{TransitionContext, Violation};

verus! {

/// Systems whose links are externally owned (never locally resolvable),
/// used until a KB's source manifest declares its own.
pub const DEFAULT_SYSTEMS: [&'static str; 2] = ["graph", "sharepoint"];

/// The names in [`DEFAULT_SYSTEMS`].
pub open spec fn default_system_names() -> Seq<Seq<char>> {
    seq!["graph"@, "sharepoint"@]
}

/// The default systems are exactly the names in [`DEFAULT_SYSTEMS`], in
/// order: `graph` and `sharepoint`.
pub proof fn law_default_systems_are_the_declared_constant()
    ensures
        default_system_names() == DEFAULT_SYSTEMS@.map_values(|s: &str| s@),
        default_system_names().len() == 2,
        default_system_names()[0] == "graph"@,
        default_system_names()[1] == "sharepoint"@,
{
    assert(default_system_names() =~= DEFAULT_SYSTEMS@.map_values(|s: &str| s@));
}

/// Validates every KB file against the registry with the default systems.
/// `entries` are (repo-relative path, RON text) pairs; paths outside
/// `facts/` are ignored.
pub fn validate_entries(
    registry: &kyyn_core::registry::Registry,
    entries: &[(String, String)],
) -> (findings: Vec<Violation>)
    ensures
        views(findings@) == generic_findings(*registry, text_pairs(entries@), default_system_names()),
        views(findings@) == generic_findings(
            *registry,
            facts_only(text_pairs(entries@)),
            default_system_names(),
        ),
        names_facts_paths(pair_paths(entries@), findings@),
        refuses_empty_facts_entries(entries@, findings@),
{
    let systems = DEFAULT_SYSTEMS.as_slice();
    assert(system_texts(systems@) =~= default_system_names());
    validate_entries_with(registry, entries, systems)
}

/// Validates every KB file against the registry, with an explicit set of
/// declared external systems.
pub fn validate_entries_with(
    registry: &kyyn_core::registry::Registry,
    entries: &[(String, String)],
    systems: &[&str],
) -> (findings: Vec<Violation>)
    ensures
        views(findings@) == generic_findings(*registry, text_pairs(entries@), system_texts(systems@)),
        views(findings@) == generic_findings(
            *registry,
            facts_only(text_pairs(entries@)),
            system_texts(systems@),
        ),
        names_facts_paths(pair_paths(entries@), findings@),
        refuses_empty_facts_entries(entries@, findings@),
{
    registry_findings(registry, entries, systems)
}

/// Paths outside `facts/` are ignored: entries outside `facts/`, put
/// anywhere among the others, leave the entries the registry judges, and so
/// its findings, as they were.
pub proof fn law_entries_outside_facts_are_ignored(
    registry: kyyn_core::registry::Registry,
    before: Seq<(Seq<char>, Seq<char>)>,
    outside: Seq<(Seq<char>, Seq<char>)>,
    after: Seq<(Seq<char>, Seq<char>)>,
    systems: Seq<Seq<char>>,
)
    requires
        forall|k: int| 0 <= k < outside.len() ==> !under_facts(#[trigger] outside[k].0),
    ensures
        facts_only(before + outside + after) == facts_only(before + after),
        generic_findings(registry, facts_only(before + outside + after), systems)
            == generic_findings(registry, facts_only(before + after), systems),
{
    let pred = |e: (Seq<char>, Seq<char>)| under_facts(e.0);
    Seq::filter_distributes_over_add(before + outside, after, pred);
    Seq::filter_distributes_over_add(before, outside, pred);
    Seq::filter_distributes_over_add(before, after, pred);
    let kept = outside.filter(pred);
    if kept.len() > 0 {
        outside.lemma_filter_pred(pred, 0);
        assert(kept.contains(kept[0]));
        outside.lemma_filter_contains_rev(pred, kept[0]);
        let k = choose|k: int| 0 <= k < outside.len() && outside[k] == kept[0];
        assert(!under_facts(outside[k].0));
    }
    assert(kept =~= Seq::empty());
    assert(facts_only(before + outside + after) =~= facts_only(before + after));
}

/// The template's rules about a change, beyond its final state. The
/// templates ship none.
pub fn validate_transition(context: &TransitionContext) -> (findings: Vec<Violation>)
    ensures
        findings@.len() == 0,
{
    Vec::new()
}

} // verus!
