//! The validator boundary of a template's schema: what the engine calls to
//! read the registry and to validate a proposed tree.
use vstd::prelude::*;
use vstd::relations::sorted_by;
use vstd::string::*;
use vstd::utf8::{decode_utf8, encode_utf8, valid_utf8};

use crate::ordering::{in_report_order, order_violations, violation_order, views};
use crate::outside::{
    generic_findings, names_facts_paths, pair_paths, registry_ron, registry_ron_text, ron_error_message,
    ron_error_text, str_from_utf8, system_texts, text_pairs, under_facts, utf8_error_message,
    utf8_error_text, utf8_failure,
};
use crate::text::{ascending, lemma_ascending_from_neighbours, push_decimal, text_less, text_lt, decimal_text};
use crate::validate::{validate_entries_with, validate_transition};
use crate::wire::{
    CheckedSnapshot, Diagnostic, Entry, Severity, Snapshot, TransitionContext, ValidationContext,
    Violation,
};

verus! {

broadcast use vstd::utf8::decode_utf8_encode_utf8, vstd::utf8::encode_utf8_decode_utf8;

/// The paths of a tree's entries, in order.
pub open spec fn entry_paths(entries: Seq<Entry>) -> Seq<Seq<char>> {
    entries.map_values(|e: Entry| e.path@)
}

/// The names of declared systems, in order.
pub open spec fn system_names(systems: Seq<String>) -> Seq<Seq<char>> {
    systems.map_values(|s: String| s@)
}

/// Entries sorted by path and systems sorted by name, each without repeats.
pub open spec fn canonical(tree: Snapshot) -> bool {
    &&& ascending(entry_paths(tree.entries@))
    &&& ascending(system_names(tree.systems@))
}

/// Every entry's contents are well-formed UTF-8.
pub open spec fn all_utf8(entries: Seq<Entry>) -> bool {
    forall|i: int| 0 <= i < entries.len() ==> valid_utf8(#[trigger] entries[i].contents@)
}

/// The code of the first thing wrong with a tree, if anything is.
pub open spec fn snapshot_fault(tree: Snapshot) -> Option<Seq<char>> {
    if tree.format_version != 1 {
        Some("unsupported-snapshot"@)
    } else if !canonical(tree) {
        Some("noncanonical-snapshot"@)
    } else if !all_utf8(tree.entries@) {
        Some("non-utf8-entry"@)
    } else {
        None
    }
}

/// What a tree in an unknown format is told.
pub open spec fn unsupported_snapshot_message(version: u32) -> Seq<char> {
    "snapshot format "@ + decimal_text(version as nat) + " is unsupported; expected 1"@
}

/// What a request in an unknown format is told.
pub open spec fn unsupported_context_message(version: u32) -> Seq<char> {
    "validation context format "@ + decimal_text(version as nat) + " is unsupported; expected 1"@
}

/// What a tree out of order, or with a repeated path or system, is told.
pub open spec fn noncanonical_message() -> Seq<char> {
    "snapshot entries and systems must be sorted and unique"@
}

/// Entry `i` is the first whose contents are not UTF-8.
pub open spec fn first_non_utf8(entries: Seq<Entry>, i: int) -> bool {
    &&& 0 <= i < entries.len()
    &&& !valid_utf8(entries[i].contents@)
    &&& forall|k: int| 0 <= k < i ==> valid_utf8(#[trigger] entries[k].contents@)
}

/// What a tree with an entry that is not UTF-8 is told: the decoder's own
/// explanation of the first such entry.
pub open spec fn non_utf8_message(entries: Seq<Entry>) -> Seq<char> {
    let i = choose|i: int| first_non_utf8(entries, i);
    utf8_error_text(utf8_failure(entries[i].contents@))
}

/// There is one first entry that is not UTF-8.
proof fn lemma_first_non_utf8_is_unique(entries: Seq<Entry>, i: int)
    requires
        first_non_utf8(entries, i),
    ensures
        (choose|j: int| first_non_utf8(entries, j)) == i,
{
    let j = choose|j: int| first_non_utf8(entries, j);
    assert(first_non_utf8(entries, j));
    if j < i {
        assert(valid_utf8(entries[j].contents@));
    }
    if i < j {
        assert(valid_utf8(entries[i].contents@));
    }
}

/// `d` reports the first thing wrong with `tree`.
pub open spec fn reports_snapshot_fault(tree: Snapshot, d: Diagnostic) -> bool {
    &&& snapshot_fault(tree) == Some(d.code@)
    &&& tree.format_version != 1 ==> d.message@ == unsupported_snapshot_message(
        tree.format_version,
    )
    &&& tree.format_version == 1 && !canonical(tree) ==> d.message@ == noncanonical_message()
    &&& snapshot_fault(tree) == Some("non-utf8-entry"@) ==> d.message@ == non_utf8_message(
        tree.entries@,
    )
}

/// A refused tree is told one thing: any two diagnostics that report its
/// fault agree in code and message, so [`snapshot`] and [`core_snapshot`]
/// refuse it alike.
pub proof fn law_one_diagnostic_per_fault(tree: Snapshot, first: Diagnostic, second: Diagnostic)
    requires
        reports_snapshot_fault(tree, first),
        reports_snapshot_fault(tree, second),
    ensures
        first.code@ == second.code@,
        first.message@ == second.message@,
{
    reveal_strlit("unsupported-snapshot");
    reveal_strlit("noncanonical-snapshot");
    reveal_strlit("non-utf8-entry");
}

/// The declared systems only gate acceptance: two trees in one format with
/// the same entries, each listing its systems in order, are read alike:
/// both accepted with the same reading, or both refused with the same
/// diagnostic.
pub proof fn law_systems_do_not_change_reading(first: Snapshot, second: Snapshot)
    requires
        first.format_version == second.format_version,
        first.entries@ == second.entries@,
        ascending(system_names(first.systems@)),
        ascending(system_names(second.systems@)),
    ensures
        snapshot_fault(first) == snapshot_fault(second),
        forall|d: Diagnostic| reports_snapshot_fault(first, d) <==> reports_snapshot_fault(second, d),
        forall|t: Seq<(String, String)>| decodes(t, first.entries@) <==> decodes(t, second.entries@),
{
}

/// `texts` holds each entry's path and the text its bytes encode, in order.
pub open spec fn decodes(texts: Seq<(String, String)>, entries: Seq<Entry>) -> bool {
    &&& texts.len() == entries.len()
    &&& forall|i: int|
        0 <= i < entries.len() ==> #[trigger] texts[i].0@ == entries[i].path@ && texts[i].1@
            == decode_utf8(entries[i].contents@)
}

/// Each entry's path and the text its bytes encode, in order.
pub open spec fn decoded_pairs(entries: Seq<Entry>) -> Seq<(Seq<char>, Seq<char>)> {
    entries.map_values(|e: Entry| (e.path@, decode_utf8(e.contents@)))
}

/// `checked` holds exactly the entries and systems of `tree`.
pub open spec fn keeps(checked: CheckedSnapshot, tree: Snapshot) -> bool {
    &&& checked.entries.len() == tree.entries.len()
    &&& forall|i: int|
        0 <= i < tree.entries.len() ==> #[trigger] checked.entries@[i].0@ == tree.entries@[i].path@
            && checked.entries@[i].1@ == tree.entries@[i].contents@
    &&& system_names(checked.systems@) == system_names(tree.systems@)
}

/// A tree the validator accepts names each path once and each system once.
pub proof fn law_accepted_tree_names_each_path_once(tree: Snapshot)
    requires
        snapshot_fault(tree) is None,
    ensures
        entry_paths(tree.entries@).no_duplicates(),
        system_names(tree.systems@).no_duplicates(),
{
    let paths = entry_paths(tree.entries@);
    let names = system_names(tree.systems@);
    assert forall|i: int, j: int| 0 <= i < paths.len() && 0 <= j < paths.len() && i != j implies paths[i]
        != paths[j] by {
        crate::text::lemma_text_lt_irreflexive(paths[i]);
        if i < j {
            assert(text_lt(paths[i], paths[j]));
        } else {
            assert(text_lt(paths[j], paths[i]));
        }
    }
    assert forall|i: int, j: int| 0 <= i < names.len() && 0 <= j < names.len() && i != j implies names[i]
        != names[j] by {
        crate::text::lemma_text_lt_irreflexive(names[i]);
        if i < j {
            assert(text_lt(names[i], names[j]));
        } else {
            assert(text_lt(names[j], names[i]));
        }
    }
}

/// The code of the first thing wrong with a validation request, if anything.
pub open spec fn context_fault(context: ValidationContext) -> Option<Seq<char>> {
    if context.format_version != 1 {
        Some("unsupported-validation-context"@)
    } else if snapshot_fault(context.candidate) is Some {
        snapshot_fault(context.candidate)
    } else {
        match context.previous {
            Some(previous) => snapshot_fault(previous),
            None => None,
        }
    }
}

/// `d` reports the first thing wrong with a validation request.
pub open spec fn reports_context_fault(context: ValidationContext, d: Diagnostic) -> bool {
    if context.format_version != 1 {
        &&& d.code@ == "unsupported-validation-context"@
        &&& d.message@ == unsupported_context_message(context.format_version)
    } else if snapshot_fault(context.candidate) is Some {
        reports_snapshot_fault(context.candidate, d)
    } else {
        &&& context.previous is Some
        &&& reports_snapshot_fault(context.previous->0, d)
    }
}

/// A tree in any format but 1 is refused before anything else is looked
/// at, and told its format number.
pub proof fn law_unknown_tree_format_is_refused(tree: Snapshot, d: Diagnostic)
    requires
        tree.format_version != 1,
    ensures
        snapshot_fault(tree) == Some("unsupported-snapshot"@),
        reports_snapshot_fault(tree, d) ==> d.code@ == "unsupported-snapshot"@ && d.message@ == "snapshot format "@
            + decimal_text(tree.format_version as nat) + " is unsupported; expected 1"@,
{
}

/// A request in any format but 1 is refused before its trees are looked
/// at, whatever they hold, and told its format number.
pub proof fn law_unknown_request_format_is_refused(context: ValidationContext, d: Diagnostic)
    requires
        context.format_version != 1,
    ensures
        context_fault(context) == Some("unsupported-validation-context"@),
        reports_context_fault(context, d) ==> d.code@ == "unsupported-validation-context"@
            && d.message@ == "validation context format "@ + decimal_text(
            context.format_version as nat,
        ) + " is unsupported; expected 1"@,
{
}

/// A request is accepted only in format 1, with a candidate that is
/// accepted, and a previous tree, if any, that is accepted.
pub proof fn law_accepted_request(context: ValidationContext)
    requires
        context_fault(context) is None,
    ensures
        context.format_version == 1,
        snapshot_fault(context.candidate) is None,
        context.previous matches Some(p) ==> snapshot_fault(p) is None,
{
}

/// What an accepted tree reads as is in the tree's order, so sorted by path
/// without repeats, and each text is exactly what its entry's bytes encode.
pub proof fn law_reading_follows_the_tree(tree: Snapshot, texts: Seq<(String, String)>)
    requires
        snapshot_fault(tree) is None,
        decodes(texts, tree.entries@),
    ensures
        forall|i: int, j: int|
            0 <= i < j < texts.len() ==> #[trigger] text_lt(texts[i].0@, texts[j].0@) && #[trigger]
                texts[j].0@ != texts[i].0@,
        forall|i: int|
            0 <= i < texts.len() ==> #[trigger] encode_utf8(texts[i].1@) == tree.entries@[i].contents@
                && texts[i].0@ == tree.entries@[i].path@,
{
    let paths = entry_paths(tree.entries@);
    assert forall|i: int, j: int| 0 <= i < j < texts.len() implies #[trigger] text_lt(
        texts[i].0@,
        texts[j].0@,
    ) && #[trigger] texts[j].0@ != texts[i].0@ by {
        assert(paths[i] == texts[i].0@);
        assert(paths[j] == texts[j].0@);
        assert(text_lt(paths[i], paths[j]));
        crate::text::lemma_text_lt_irreflexive(paths[i]);
    }
    assert forall|i: int| 0 <= i < texts.len() implies #[trigger] encode_utf8(texts[i].1@)
        == tree.entries@[i].contents@ && texts[i].0@ == tree.entries@[i].path@ by {
        assert(texts[i].0@ == tree.entries@[i].path@ && texts[i].1@ == decode_utf8(
            tree.entries@[i].contents@,
        ));
        assert(valid_utf8(tree.entries@[i].contents@));
        vstd::utf8::decode_utf8_encode_utf8(tree.entries@[i].contents@);
    }
}

/// The checked tree holds what the reading holds, entry by entry in the
/// tree's order: the same path at each index, and bytes that encode the
/// text read there; so its entries are sorted by path without repeats.
pub proof fn law_checked_tree_matches_reading(
    tree: Snapshot,
    checked: CheckedSnapshot,
    texts: Seq<(String, String)>,
)
    requires
        snapshot_fault(tree) is None,
        keeps(checked, tree),
        decodes(texts, tree.entries@),
    ensures
        checked.entries.len() == texts.len(),
        forall|i: int|
            0 <= i < texts.len() ==> #[trigger] checked.entries@[i].0@ == texts[i].0@ && checked.entries@[i].1@
                == encode_utf8(texts[i].1@) && decode_utf8(checked.entries@[i].1@) == texts[i].1@,
        forall|i: int, j: int|
            0 <= i < j < checked.entries.len() ==> text_lt(
                #[trigger] checked.entries@[i].0@,
                #[trigger] checked.entries@[j].0@,
            ),
        system_names(checked.systems@) == system_names(tree.systems@),
{
    law_reading_follows_the_tree(tree, texts);
    assert forall|i: int| 0 <= i < texts.len() implies #[trigger] checked.entries@[i].0@ == texts[i].0@
        && checked.entries@[i].1@ == encode_utf8(texts[i].1@) && decode_utf8(checked.entries@[i].1@)
        == texts[i].1@ by {
        assert(encode_utf8(texts[i].1@) == tree.entries@[i].contents@);
    }
    assert forall|i: int, j: int| 0 <= i < j < checked.entries.len() implies text_lt(
        #[trigger] checked.entries@[i].0@,
        #[trigger] checked.entries@[j].0@,
    ) by {
        assert(checked.entries@[i].0@ == texts[i].0@);
        assert(checked.entries@[j].0@ == texts[j].0@);
        assert(text_lt(texts[i].0@, texts[j].0@) && texts[j].0@ != texts[i].0@);
    }
}

/// A tree in format 1 is checked for order before text: entries or
/// systems out of byte order, or repeated, are refused as noncanonical
/// whatever the bytes hold; only a canonical tree is refused for an entry
/// that is not UTF-8.
pub proof fn law_order_is_checked_before_text(tree: Snapshot, i: int, j: int)
    requires
        tree.format_version == 1,
    ensures
        0 <= i < j < tree.entries.len() && !text_lt(tree.entries@[i].path@, tree.entries@[j].path@)
            ==> snapshot_fault(tree) == Some("noncanonical-snapshot"@),
        0 <= i < j < tree.systems.len() && !text_lt(tree.systems@[i]@, tree.systems@[j]@)
            ==> snapshot_fault(tree) == Some("noncanonical-snapshot"@),
        snapshot_fault(tree) == Some("non-utf8-entry"@) ==> canonical(tree) && exists|k: int|
            0 <= k < tree.entries.len() && !valid_utf8(#[trigger] tree.entries@[k].contents@),
{
    reveal_strlit("noncanonical-snapshot");
    reveal_strlit("non-utf8-entry");
    if 0 <= i < j < tree.entries.len() {
        let paths = entry_paths(tree.entries@);
        assert(paths[i] == tree.entries@[i].path@);
        assert(paths[j] == tree.entries@[j].path@);
    }
    if 0 <= i < j < tree.systems.len() {
        let names = system_names(tree.systems@);
        assert(names[i] == tree.systems@[i]@);
        assert(names[j] == tree.systems@[j]@);
    }
    assert("noncanonical-snapshot"@.len() != "non-utf8-entry"@.len());
    if snapshot_fault(tree) == Some("non-utf8-entry"@) {
        assert(canonical(tree));
        assert(!all_utf8(tree.entries@));
        let k = choose|k: int| 0 <= k < tree.entries.len() && !valid_utf8(tree.entries@[k].contents@);
        assert(!valid_utf8(tree.entries@[k].contents@));
    }
}

/// A request in format 1 is judged by its candidate first: a faulty
/// candidate is reported as the tree check reports it, whatever the
/// previous tree holds; only with a sound candidate is a faulty previous
/// tree reported, again as the tree check reports it.
pub proof fn law_candidate_is_checked_first(context: ValidationContext, d: Diagnostic)
    requires
        context.format_version == 1,
    ensures
        snapshot_fault(context.candidate) is Some ==> context_fault(context) == snapshot_fault(
            context.candidate,
        ) && (reports_context_fault(context, d) <==> reports_snapshot_fault(context.candidate, d)),
        snapshot_fault(context.candidate) is None ==> (context.previous matches Some(p)
            ==> context_fault(context) == snapshot_fault(p) && (snapshot_fault(p) is Some ==> (
        reports_context_fault(context, d) <==> reports_snapshot_fault(p, d)))),
        snapshot_fault(context.candidate) is None && context.previous is None ==> context_fault(
            context,
        ) is None,
{
}

/// The text the validator judges for a candidate is what the tree check
/// reads: each entry's path and the text its bytes encode, in the tree's
/// order.
pub proof fn law_judged_text_is_the_reading(entries: Seq<Entry>, texts: Seq<(String, String)>)
    requires
        decodes(texts, entries),
    ensures
        decoded_pairs(entries) == text_pairs(texts),
        decoded_pairs(entries).len() == entries.len(),
        forall|i: int|
            0 <= i < entries.len() ==> (#[trigger] decoded_pairs(entries)[i]).0 == entries[i].path@
                && decoded_pairs(entries)[i].1 == decode_utf8(entries[i].contents@),
{
    assert(decoded_pairs(entries) =~= text_pairs(texts));
}

/// Findings reordered from ones that name facts entries of the decoded
/// tree name facts entries of the tree.
proof fn lemma_findings_name_candidate(
    entries: Seq<Entry>,
    texts: Seq<(String, String)>,
    generic: Seq<Violation>,
    findings: Seq<Violation>,
)
    requires
        decodes(texts, entries),
        names_facts_paths(pair_paths(texts), generic),
        views(findings).to_multiset() == views(generic).to_multiset(),
    ensures
        names_facts_paths(entry_paths(entries), findings),
{
    broadcast use vstd::seq_lib::group_to_multiset_ensures;

    assert(pair_paths(texts) =~= entry_paths(entries));
    assert forall|i: int| 0 <= i < findings.len() implies under_facts(
        #[trigger] findings[i].path@,
    ) && entry_paths(entries).contains(findings[i].path@) by {
        assert(views(findings)[i] == findings[i]@);
        assert(views(findings).contains(findings[i]@));
        assert(views(findings).to_multiset().count(findings[i]@) > 0);
        assert(views(generic).contains(findings[i]@));
        let k = choose|k: int| 0 <= k < views(generic).len() && views(generic)[k] == findings[i]@;
        assert(views(generic)[k] == generic[k]@);
        assert(generic[k].path@ == findings[i].path@);
    }
}

/// Sort key of a severity: errors before warnings.
pub fn severity_rank(severity: &Severity) -> (rank: u8)
    ensures
        rank == (match *severity {
            Severity::Error => 0u8,
            Severity::Warning => 1u8,
        }),
{
    match severity {
        Severity::Error => 0,
        Severity::Warning => 1,
    }
}

/// Whether the entries are sorted by path, without repeats.
fn entry_paths_ascending(entries: &Vec<Entry>) -> (ok: bool)
    ensures
        ok == ascending(entry_paths(entries@)),
{
    let ghost names = entry_paths(entries@);
    let mut i: usize = 1;
    while i < entries.len()
        invariant
            1 <= i,
            names == entry_paths(entries@),
            forall|k: int| 0 <= k < i - 1 && k < names.len() - 1 ==> text_lt(#[trigger] names[k], names[k + 1]),
        decreases entries.len() - i,
    {
        if !text_less(entries[i - 1].path.as_str(), entries[i].path.as_str()) {
            assert(names[i - 1] == entries@[i - 1].path@);
            assert(names[i as int] == entries@[i as int].path@);
            return false;
        }
        i = i + 1;
    }
    proof {
        lemma_ascending_from_neighbours(names);
    }
    true
}

/// Whether the systems are sorted by name, without repeats.
fn names_ascending(systems: &Vec<String>) -> (ok: bool)
    ensures
        ok == ascending(system_names(systems@)),
{
    let ghost names = system_names(systems@);
    let mut i: usize = 1;
    while i < systems.len()
        invariant
            1 <= i,
            names == system_names(systems@),
            forall|k: int| 0 <= k < i - 1 && k < names.len() - 1 ==> text_lt(#[trigger] names[k], names[k + 1]),
        decreases systems.len() - i,
    {
        if !text_less(systems[i - 1].as_str(), systems[i].as_str()) {
            assert(names[i - 1] == systems@[i - 1]@);
            assert(names[i as int] == systems@[i as int]@);
            return false;
        }
        i = i + 1;
    }
    proof {
        lemma_ascending_from_neighbours(names);
    }
    true
}

/// The diagnostic for a tree in an unknown format.
fn unsupported_snapshot(version: u32) -> (d: Diagnostic)
    ensures
        d.code@ == "unsupported-snapshot"@,
        d.message@ == unsupported_snapshot_message(version),
{
    let mut message = String::from_str("snapshot format ");
    push_decimal(&mut message, version);
    message.append(" is unsupported; expected 1");
    Diagnostic { code: String::from_str("unsupported-snapshot"), message }
}

/// Checks a tree and reads every entry as text.
fn decode_entries(tree: &Snapshot) -> (texts: Result<Vec<(String, String)>, Diagnostic>)
    ensures
        texts is Ok <==> snapshot_fault(*tree) is None,
        texts matches Ok(t) ==> decodes(t@, tree.entries@),
        texts matches Err(d) ==> reports_snapshot_fault(*tree, d),
{
    proof {
        reveal_strlit("unsupported-snapshot");
        reveal_strlit("noncanonical-snapshot");
        reveal_strlit("non-utf8-entry");
        assert("unsupported-snapshot"@.len() != "non-utf8-entry"@.len());
        assert("noncanonical-snapshot"@.len() != "non-utf8-entry"@.len());
    }
    if tree.format_version != 1 {
        return Err(unsupported_snapshot(tree.format_version));
    }
    if !entry_paths_ascending(&tree.entries) || !names_ascending(&tree.systems) {
        return Err(
            Diagnostic {
                code: String::from_str("noncanonical-snapshot"),
                message: String::from_str("snapshot entries and systems must be sorted and unique"),
            },
        );
    }
    let mut texts: Vec<(String, String)> = Vec::new();
    let mut i: usize = 0;
    while i < tree.entries.len()
        invariant
            i <= tree.entries.len(),
            tree.format_version == 1,
            canonical(*tree),
            texts.len() == i,
            forall|k: int| 0 <= k < i ==> valid_utf8(#[trigger] tree.entries@[k].contents@),
            forall|k: int|
                0 <= k < i ==> #[trigger] texts@[k].0@ == tree.entries@[k].path@ && texts@[k].1@
                    == decode_utf8(tree.entries@[k].contents@),
        decreases tree.entries.len() - i,
    {
        let entry = &tree.entries[i];
        match str_from_utf8(entry.contents.as_slice()) {
            Ok(text) => {
                let path = entry.path.clone();
                let owned = text.to_owned();
                let ghost before = texts@;
                texts.push((path, owned));
                proof {
                    assert forall|k: int| 0 <= k < i + 1 implies #[trigger] texts@[k].0@
                        == tree.entries@[k].path@ && texts@[k].1@ == decode_utf8(
                        tree.entries@[k].contents@,
                    ) by {
                        if k < i {
                            assert(texts@[k] == before[k]);
                        }
                    }
                }
            },
            Err(error) => {
                let message = utf8_error_message(&error);
                proof {
                    lemma_first_non_utf8_is_unique(tree.entries@, i as int);
                }
                return Err(Diagnostic { code: String::from_str("non-utf8-entry"), message });
            },
        }
        i = i + 1;
    }
    Ok(texts)
}

/// Checks that a tree is in the supported format, canonical, and UTF-8
/// throughout, and reads it as (path, text) pairs.
pub fn snapshot(tree: Snapshot) -> (texts: Result<Vec<(String, String)>, Diagnostic>)
    ensures
        texts is Ok <==> snapshot_fault(tree) is None,
        texts matches Ok(t) ==> decodes(t@, tree.entries@),
        texts matches Err(d) ==> reports_snapshot_fault(tree, d),
{
    decode_entries(&tree)
}

/// Re-encodes checked text as bytes; these are the tree's own bytes.
fn encode_entries(texts: Vec<(String, String)>, Ghost(entries): Ghost<Seq<Entry>>) -> (bytes: Vec<
    (String, Vec<u8>),
>)
    requires
        decodes(texts@, entries),
        all_utf8(entries),
    ensures
        bytes.len() == entries.len(),
        forall|i: int|
            0 <= i < entries.len() ==> #[trigger] bytes@[i].0@ == entries[i].path@ && bytes@[i].1@
                == entries[i].contents@,
{
    let mut bytes: Vec<(String, Vec<u8>)> = Vec::new();
    let mut i: usize = 0;
    while i < texts.len()
        invariant
            i <= texts.len(),
            decodes(texts@, entries),
            all_utf8(entries),
            bytes.len() == i,
            forall|k: int|
                0 <= k < i ==> #[trigger] bytes@[k].0@ == entries[k].path@ && bytes@[k].1@
                    == entries[k].contents@,
        decreases texts.len() - i,
    {
        let pair = &texts[i];
        let encoded = pair.1.as_str().as_bytes_vec();
        proof {
            assert(texts@[i as int].0@ == entries[i as int].path@);
            assert(pair.1@ == decode_utf8(entries[i as int].contents@));
            assert(valid_utf8(entries[i as int].contents@));
            vstd::utf8::decode_utf8_encode_utf8(entries[i as int].contents@);
            assert(encoded@ == entries[i as int].contents@);
        }
        let path = pair.0.clone();
        let ghost before = bytes@;
        bytes.push((path, encoded));
        proof {
            assert(bytes@ == before.push((path, encoded)));
            assert forall|k: int| 0 <= k < i + 1 implies #[trigger] bytes@[k].0@ == entries[k].path@
                && bytes@[k].1@ == entries[k].contents@ by {
                if k < i {
                    assert(bytes@[k] == before[k]);
                }
            }
        }
        i = i + 1;
    }
    bytes
}

/// Checks a tree as [`snapshot`] does and keeps it as checked bytes.
pub fn core_snapshot(tree: Snapshot) -> (checked: Result<CheckedSnapshot, Diagnostic>)
    ensures
        checked is Ok <==> snapshot_fault(tree) is None,
        checked matches Ok(c) ==> keeps(c, tree),
        checked matches Err(d) ==> reports_snapshot_fault(tree, d),
{
    let texts = decode_entries(&tree)?;
    let entries = encode_entries(texts, Ghost(tree.entries@));
    let checked = CheckedSnapshot { entries, systems: tree.systems };
    assert(system_names(checked.systems@) =~= system_names(tree.systems@));
    Ok(checked)
}

/// Findings from all phases, in report order.
pub fn finish_validation(generic: Vec<Violation>, specific: Vec<Violation>) -> (findings: Vec<
    Violation,
>)
    ensures
        views(findings@) == in_report_order(views(generic@) + views(specific@)),
{
    let mut all = generic;
    let mut rest = specific;
    let ghost g = all@;
    let ghost s = rest@;
    all.append(&mut rest);
    assert(views(all@) =~= views(g) + views(s));
    order_violations(all)
}

/// The validator a template's schema exports.
pub struct TemplateValidator;

impl TemplateValidator {
    /// The registry as canonical RON bytes: the serializer's text, encoded
    /// as UTF-8, or its error as a `registry-serialization` diagnostic.
    pub fn registry(registry: &kyyn_core::registry::Registry) -> (bytes: Result<Vec<u8>, Diagnostic>)
        ensures
            bytes is Ok <==> registry_ron_text(*registry) is Ok,
            registry_ron_text(*registry) matches Ok(t) ==> (bytes matches Ok(b) && b@ == encode_utf8(t)),
            registry_ron_text(*registry) matches Err(e) ==> (bytes matches Err(d)
                && d.code@ == "registry-serialization"@ && d.message@ == ron_error_text(e)),
            bytes matches Ok(b) ==> valid_utf8(b@) && decode_utf8(b@).len() > 0 && decode_utf8(
                b@,
            ).last() == '\n',
    {
        match registry_ron(registry) {
            Ok(text) => {
                let bytes = text.as_str().as_bytes_vec();
                proof {
                    vstd::utf8::encode_utf8_valid_utf8(text@);
                    vstd::utf8::encode_utf8_decode_utf8(text@);
                    assert(decode_utf8(bytes@) == text@);
                }
                Ok(bytes)
            },
            Err(error) => Err(
                Diagnostic {
                    code: String::from_str("registry-serialization"),
                    message: ron_error_message(&error),
                },
            ),
        }
    }

    /// Validates a proposed tree: checks the request, reads the candidate
    /// (and the previous tree, if any), runs the registry's generic checks
    /// and the template's transition rules, and reports the findings in
    /// order.
    pub fn validate(
        context: ValidationContext,
        registry: &kyyn_core::registry::Registry,
    ) -> (findings: Result<Vec<Violation>, Diagnostic>)
        ensures
            findings is Ok <==> context_fault(context) is None,
            findings matches Err(d) ==> reports_context_fault(context, d),
            findings matches Ok(v) ==> views(v@) == in_report_order(
                generic_findings(
                    *registry,
                    decoded_pairs(context.candidate.entries@),
                    system_names(context.candidate.systems@),
                ),
            ),
            findings matches Ok(v) ==> sorted_by(views(v@), violation_order()),
            findings matches Ok(v) ==> names_facts_paths(entry_paths(context.candidate.entries@), v@),
    {
        if context.format_version != 1 {
            let mut message = String::from_str("validation context format ");
            push_decimal(&mut message, context.format_version);
            message.append(" is unsupported; expected 1");
            return Err(
                Diagnostic { code: String::from_str("unsupported-validation-context"), message },
            );
        }
        let ghost ctx = context;
        let ValidationContext { format_version: _, previous, candidate, transitions } = context;
        let texts = decode_entries(&candidate)?;
        let previous = match previous {
            Some(tree) => Some(core_snapshot(tree)?),
            None => None,
        };
        let mut systems: Vec<&str> = Vec::new();
        let mut i: usize = 0;
        while i < candidate.systems.len()
            invariant
                i <= candidate.systems.len(),
                systems.len() == i,
                forall|k: int| 0 <= k < i ==> #[trigger] systems@[k]@ == candidate.systems@[k]@,
            decreases candidate.systems.len() - i,
        {
            systems.push(candidate.systems[i].as_str());
            i = i + 1;
        }
        let ghost systems_seq = systems@;
        let generic = validate_entries_with(registry, texts.as_slice(), systems.as_slice());
        let ghost texts_seq = texts@;
        let ghost generic_seq = generic@;
        let bytes = encode_entries(texts, Ghost(candidate.entries@));
        let transition_context = TransitionContext {
            previous,
            candidate: CheckedSnapshot { entries: bytes, systems: candidate.systems },
            transitions,
        };
        let specific = validate_transition(&transition_context);
        let findings = finish_validation(generic, specific);
        proof {
            let all = views(generic_seq) + views(specific@);
            crate::ordering::lemma_violation_order_is_total();
            all.lemma_sort_by_ensures(violation_order());
            assert(views(specific@) =~= Seq::empty());
            assert(all =~= views(generic_seq));
            assert(sorted_by(views(findings@), violation_order()));
            assert(views(findings@).to_multiset() == views(generic_seq).to_multiset());
            assert(text_pairs(texts_seq) =~= decoded_pairs(ctx.candidate.entries@));
            assert(system_texts(systems_seq) =~= system_names(ctx.candidate.systems@));
            lemma_findings_name_candidate(
                ctx.candidate.entries@,
                texts_seq,
                generic_seq,
                findings@,
            );
        }
        Ok(findings)
    }
}

} // verus!
