//! The calls this library makes into `kyyn-core`, `ron` and `std` that Verus
//! does not read, with the contracts it believes of them, and the outside
//! types that its records carry.
use vstd::prelude::*;
use vstd::utf8::{decode_utf8, valid_utf8};

use crate::ordering::{views, ViolationView};
use crate::wire::{Severity, Violation};

verus! {

/// A KB's registry, as `kyyn-core` assembles it from a schema's kinds.
#[verifier::external_type_specification]
#[verifier::external_body]
pub struct ExRegistry(kyyn_core::registry::Registry);

/// An analytical query a schema declares.
#[verifier::external_type_specification]
#[verifier::external_body]
pub struct ExQueryDecl(kyyn_core::query::QueryDecl);

/// A typed reference to a record or an external object.
#[verifier::external_type_specification]
#[verifier::external_body]
pub struct ExLink(kyyn_core::link::Link);

/// A calendar date.
#[verifier::external_type_specification]
#[verifier::external_body]
pub struct ExNaiveDate(chrono::NaiveDate);

/// Why bytes are not UTF-8.
#[verifier::external_type_specification]
#[verifier::external_body]
pub struct ExUtf8Error(core::str::Utf8Error);

/// Why a value could not be written as RON.
#[verifier::external_type_specification]
#[verifier::external_body]
pub struct ExRonError(ron::Error);

/// `NaiveDate`'s `clone`: a date is `Copy`, so its clone is the same date.
pub assume_specification[ <chrono::NaiveDate as Clone>::clone ](date: &chrono::NaiveDate) -> (copy:
    chrono::NaiveDate)
    ensures
        copy == *date,
;

/// `Link`'s derived `clone`: a link is its text, and the clone holds the
/// same text.
pub assume_specification[ <kyyn_core::link::Link as Clone>::clone ](link: &kyyn_core::link::Link) -> (copy:
    kyyn_core::link::Link)
    ensures
        copy == *link,
;

/// Whether `path` lies under the KB's `facts/` directory.
pub open spec fn under_facts(path: Seq<char>) -> bool {
    "facts/"@.is_prefix_of(path)
}

/// The paths of (path, text) entries, in order.
pub open spec fn pair_paths(entries: Seq<(String, String)>) -> Seq<Seq<char>> {
    entries.map_values(|e: (String, String)| e.0@)
}

/// Every finding names one of `paths`, and that path lies under `facts/`.
pub open spec fn names_facts_paths(paths: Seq<Seq<char>>, findings: Seq<Violation>) -> bool {
    forall|i: int|
        0 <= i < findings.len() ==> under_facts(#[trigger] findings[i].path@) && paths.contains(
            findings[i].path@,
        )
}

/// Every `facts/` entry with no text at all is reported, as an error naming
/// its path: empty text is no record, whichever kind its path routes to, and
/// a path that routes to no kind is an error as well.
pub open spec fn refuses_empty_facts_entries(
    entries: Seq<(String, String)>,
    findings: Seq<Violation>,
) -> bool {
    forall|j: int|
        0 <= j < entries.len() && under_facts(#[trigger] entries[j].0@) && entries[j].1@.len()
            == 0 ==> exists|i: int|
            0 <= i < findings.len() && #[trigger] findings[i].path@ == entries[j].0@
                && findings[i].severity == Severity::Error
}

/// The error `std::str::from_utf8` reports for bytes that are not UTF-8:
/// where the valid prefix ends and how long the bad sequence is, which
/// depends on the bytes alone.
pub uninterp spec fn utf8_failure(bytes: Seq<u8>) -> core::str::Utf8Error;

/// The text `Utf8Error`'s `Display` writes for an error.
pub uninterp spec fn utf8_error_text(error: core::str::Utf8Error) -> Seq<char>;

/// `std::str::from_utf8`: succeeds exactly on well-formed UTF-8, and then
/// reads the characters the bytes encode; otherwise it reports the error
/// those bytes give.
#[verifier::external_body]
pub(crate) fn str_from_utf8(bytes: &[u8]) -> (text: Result<&str, core::str::Utf8Error>)
    ensures
        text is Ok <==> valid_utf8(bytes@),
        text matches Ok(t) ==> t@ == decode_utf8(bytes@),
        text matches Err(e) ==> e == utf8_failure(bytes@),
{
    core::str::from_utf8(bytes)
}

/// `Utf8Error`'s `to_string`: the error's explanation as text.
#[verifier::external_body]
pub(crate) fn utf8_error_message(error: &core::str::Utf8Error) -> (message: String)
    ensures
        message@ == utf8_error_text(*error),
{
    error.to_string()
}

/// (path, text) entries as text.
pub open spec fn text_pairs(entries: Seq<(String, String)>) -> Seq<(Seq<char>, Seq<char>)> {
    entries.map_values(|e: (String, String)| (e.0@, e.1@))
}

/// Declared system names as text.
pub open spec fn system_texts(systems: Seq<&str>) -> Seq<Seq<char>> {
    systems.map_values(|s: &str| s@)
}

/// The entries whose paths lie under `facts/`, in order.
pub open spec fn facts_only(entries: Seq<(Seq<char>, Seq<char>)>) -> Seq<(Seq<char>, Seq<char>)> {
    entries.filter(|e: (Seq<char>, Seq<char>)| under_facts(e.0))
}

/// What `kyyn_core::validate::against_registry` reports for a registry,
/// (path, text) entries and declared systems: each finding as its path,
/// severity and message, in the order it reports them.
pub uninterp spec fn generic_findings(
    registry: kyyn_core::registry::Registry,
    entries: Seq<(Seq<char>, Seq<char>)>,
    systems: Seq<Seq<char>>,
) -> Seq<ViolationView>;

/// `kyyn_core::validate::against_registry`: the generic findings the
/// registry's declarations imply for a tree, each carried over field for
/// field, as [`generic_findings`] names them. It skips every path outside
/// `facts/` before anything else (they feed neither a finding nor the ids
/// links resolve against), so the findings are also those of the `facts/`
/// entries alone, and each names its entry. Each `facts/` entry either
/// routes to no kind (an error) or is decoded as its kind's record, and a
/// record cannot be read from empty text (an error). Which findings the
/// registry's routing, typed decoding, placeholders and links give is not
/// written out: that is the name.
#[verifier::external_body]
pub(crate) fn registry_findings(
    registry: &kyyn_core::registry::Registry,
    entries: &[(String, String)],
    systems: &[&str],
) -> (findings: Vec<Violation>)
    ensures
        views(findings@) == generic_findings(*registry, text_pairs(entries@), system_texts(systems@)),
        views(findings@) == generic_findings(
            *registry,
            facts_only(text_pairs(entries@)),
            system_texts(systems@),
        ),
        names_facts_paths(pair_paths(entries@), findings@),
        refuses_empty_facts_entries(entries@, findings@),
{
    kyyn_core::validate::against_registry(registry, entries, systems).into_iter().map(
        |v| Violation {
            path: v.path,
            severity: match v.severity {
                kyyn_core::violation::Severity::Error => Severity::Error,
                kyyn_core::violation::Severity::Warning => Severity::Warning,
            },
            message: v.message,
        },
    ).collect()
}

/// What `kyyn_core::ronfmt::to_ron` gives for a registry: its canonical
/// pretty RON text, or the serializer's error.
pub uninterp spec fn registry_ron_text(registry: kyyn_core::registry::Registry) -> Result<
    Seq<char>,
    ron::Error,
>;

/// The text `ron::Error`'s `Display` writes for an error.
pub uninterp spec fn ron_error_text(error: ron::Error) -> Seq<char>;

/// `kyyn_core::ronfmt::to_ron` on a registry, as [`registry_ron_text`]
/// names it; its text always ends in the newline it appends.
#[verifier::external_body]
pub(crate) fn registry_ron(registry: &kyyn_core::registry::Registry) -> (text: Result<
    String,
    ron::Error,
>)
    ensures
        text matches Ok(t) ==> (registry_ron_text(*registry) matches Ok(s) && s == t@),
        text matches Err(e) ==> (registry_ron_text(*registry) matches Err(f) && f == e),
        text matches Ok(t) ==> t@.len() > 0 && t@.last() == '\n',
{
    kyyn_core::ronfmt::to_ron(registry)
}

/// `ron::Error`'s `to_string`: the error's explanation as text.
#[verifier::external_body]
pub(crate) fn ron_error_message(error: &ron::Error) -> (message: String)
    ensures
        message@ == ron_error_text(*error),
{
    error.to_string()
}

} // verus!
