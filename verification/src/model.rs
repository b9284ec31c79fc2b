//! The records a KB stores. `Charter` and `SelfContext` make the minimal
//! governed KB; the page primitives, typed edges and takes make a
//! gbrain-style operational knowledge brain. Dates are `chrono` dates and
//! references are `kyyn-core` links, carried as they are.
use vstd::prelude::*;

use chrono::NaiveDate;
use kyyn_core::link::Link;

verus! {

/// The owner's own context: who this knowledge base serves.
#[derive(Debug, Clone, PartialEq, Eq)]
pub struct SelfContext {
    pub name: String,
    pub role: String,
    /// Distilled, always-current freeform context (Markdown): a snapshot,
    /// not a log.
    pub notes: String,
}

/// Why this knowledge base exists. One record, kept current: every curation
/// judgement should be defensible against it.
#[derive(Debug, Clone, PartialEq, Eq)]
pub struct Charter {
    /// One line on what this KB is for.
    pub purpose: String,
    /// The concrete objectives, each independently checkable.
    pub objectives: Vec<String>,
    /// Scope, period under review, ground rules, exclusions (Markdown).
    pub notes: String,
}

/// One dated entry of a page's append-only timeline.
#[derive(Debug, Clone, PartialEq, Eq)]
pub struct TimelineEntry {
    /// When it happened.
    pub time: NaiveDate,
    /// What happened: a dated, sourced note (Markdown).
    pub entry: String,
}

/// The page types on the entity primitive: the actors in the graph.
#[derive(Debug, Clone, Copy, PartialEq, Eq)]
pub enum EntityType {
    Person,
    Company,
}

/// A person or organisation: a briefing, not a contact card.
#[derive(Debug, Clone, PartialEq, Eq)]
pub struct Entity {
    /// Canonical slug; matches the filename.
    pub id: String,
    /// Display name.
    pub title: String,
    /// Which entity page type this is (stored as `type`).
    pub page_type: EntityType,
    /// Finer class within the type, when it has one.
    pub subtype: Option<String>,
    /// Every known name variant; dedup reads this.
    pub aliases: Vec<String>,
    /// Primary email address.
    pub email: Option<String>,
    /// Where they are.
    pub location: Option<String>,
    /// Current role (person) or one-line what-they-do (company).
    pub role: Option<String>,
    /// Compiled truth: the always-current synthesis.
    pub compiled: String,
    /// Append-only, dated evidence.
    pub timeline: Vec<TimelineEntry>,
}

/// The page types on the media primitive: the artifacts.
#[derive(Debug, Clone, Copy, PartialEq, Eq)]
pub enum MediaType {
    Media,
    Tweet,
    Analysis,
    Source,
    Writing,
}

/// An article, video, tweet, essay, source document or analysis.
#[derive(Debug, Clone, PartialEq, Eq)]
pub struct Media {
    pub id: String,
    pub title: String,
    /// Which media page type this is (stored as `type`).
    pub page_type: MediaType,
    pub subtype: Option<String>,
    /// Canonical URL of the artifact.
    pub url: Option<String>,
    /// Publication, platform or feed it came from.
    pub source: Option<String>,
    /// Author or creator, as named at the source.
    pub author: Option<String>,
    /// Publication or creation date.
    pub date: Option<NaiveDate>,
    pub compiled: String,
    pub timeline: Vec<TimelineEntry>,
}

/// The page types on the temporal primitive: dated events and exchanges.
#[derive(Debug, Clone, Copy, PartialEq, Eq)]
pub enum TemporalType {
    SocialDigest,
    Deal,
    Email,
    Slack,
    Event,
    Diary,
}

/// A deal, email, Slack thread, calendar event, diary entry or digest.
#[derive(Debug, Clone, PartialEq, Eq)]
pub struct Temporal {
    pub id: String,
    pub title: String,
    /// Which temporal page type this is (stored as `type`).
    pub page_type: TemporalType,
    pub subtype: Option<String>,
    /// When it happened.
    pub date: Option<NaiveDate>,
    /// Entities present or involved: links to entity pages.
    pub attendees: Vec<Link>,
    /// How long it ran, free-form.
    pub duration: Option<String>,
    /// Where it happened.
    pub location: Option<String>,
    pub compiled: String,
    pub timeline: Vec<TimelineEntry>,
}

/// The page types on the annotation primitive.
#[derive(Debug, Clone, Copy, PartialEq, Eq)]
pub enum AnnotationType {
    Atom,
}

/// A small, provenance-bearing unit of extracted knowledge.
#[derive(Debug, Clone, PartialEq, Eq)]
pub struct Annotation {
    pub id: String,
    pub title: String,
    /// Which annotation page type this is (stored as `type`).
    pub page_type: AnnotationType,
    pub subtype: Option<String>,
    /// How much to trust this.
    pub confidence: Option<String>,
    /// When the claim started being true.
    pub valid_from: Option<NaiveDate>,
    /// Where the atom came from.
    pub source: Option<String>,
    pub compiled: String,
    pub timeline: Vec<TimelineEntry>,
}

/// The page types on the concept primitive: ideas and workstreams.
#[derive(Debug, Clone, Copy, PartialEq, Eq)]
pub enum ConceptType {
    Concept,
    Project,
    Note,
}

/// A concept, project, or note.
#[derive(Debug, Clone, PartialEq, Eq)]
pub struct Concept {
    pub id: String,
    pub title: String,
    /// Which concept page type this is (stored as `type`).
    pub page_type: ConceptType,
    pub subtype: Option<String>,
    /// Free-form tags for grouping and retrieval.
    pub tags: Vec<String>,
    pub compiled: String,
    pub timeline: Vec<TimelineEntry>,
}

/// The typed link verbs, forward direction; inverses are derived on read.
#[derive(Debug, Clone, Copy, PartialEq, Eq)]
pub enum LinkVerb {
    PartnerOf,
    RelatesTo,
    Mentions,
    Discusses,
    Founded,
    WorksAt,
    InvestedIn,
    SourcedFrom,
    DerivedFrom,
    Supersedes,
    RedirectsTo,
    Attended,
    Authored,
    AttributedTo,
}

/// A typed edge between two pages.
#[derive(Debug, Clone, PartialEq, Eq)]
pub struct Relationship {
    pub id: String,
    /// Human-readable label.
    pub title: String,
    /// Source page of the edge.
    pub from: Link,
    /// Target page of the edge.
    pub to: Link,
    pub verb: LinkVerb,
    /// Why this edge exists (Markdown).
    pub context: String,
}

/// The kind of a structured claim.
#[derive(Debug, Clone, Copy, PartialEq, Eq)]
pub enum TakeKind {
    /// An established, verifiable fact.
    Fact,
    /// A judgement or opinion.
    Take,
    /// A prediction about the future.
    Bet,
    /// A low-confidence guess.
    Hunch,
}

/// A structured claim about a page, with provenance. Contradicting takes on
/// one subject sit side by side.
#[derive(Debug, Clone, PartialEq, Eq)]
pub struct Take {
    pub id: String,
    /// Short label for the claim.
    pub title: String,
    /// The page this claim is about.
    pub subject: Link,
    pub kind: TakeKind,
    /// The claim itself (Markdown).
    pub claim: String,
    pub confidence: Option<String>,
    pub valid_from: Option<NaiveDate>,
    pub source: Option<String>,
}

} // verus!
