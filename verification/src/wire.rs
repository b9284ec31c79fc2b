//! The records that cross the validator boundary: the tree the engine hands
//! in, the change context around it, and the findings and diagnostics that
//! come back.
use vstd::prelude::*;

verus! {

/// One file of a tree: its repo-relative path and raw bytes.
#[derive(Debug, Clone)]
pub struct Entry {
    pub path: String,
    pub contents: Vec<u8>,
}

/// A whole tree as the engine hands it in: entries sorted by path, and the
/// external link systems the tree declares, sorted by name.
#[derive(Debug, Clone)]
pub struct Snapshot {
    pub format_version: u32,
    pub entries: Vec<Entry>,
    pub systems: Vec<String>,
}

/// Who stands behind a field transition, as the engine verified it.
#[derive(Clone, Copy, Debug, PartialEq, Eq)]
pub enum Authority {
    DirectHuman,
    RecipeEvaluation,
    AgentTranscribedHuman,
    ExistingKnowledge,
    MechanicalDerivation,
    EngineGenerated,
    ObservedHost,
    Unattributed,
}

/// The record a transition touches.
#[derive(Debug)]
pub struct Subject {
    pub kind: String,
    pub id: String,
}

/// One final field transition between the previous and candidate trees.
#[derive(Debug)]
pub struct Transition {
    pub path: String,
    pub subject: Option<Subject>,
    pub field: Option<String>,
    pub before_sha256: Option<String>,
    pub after_sha256: Option<String>,
    pub authority: Authority,
    pub causal_reference: String,
}

/// Everything a validation run sees: the candidate tree, the tree it
/// replaces (if any), and the transitions between them.
#[derive(Debug)]
pub struct ValidationContext {
    pub format_version: u32,
    pub previous: Option<Snapshot>,
    pub candidate: Snapshot,
    pub transitions: Vec<Transition>,
}

/// A tree whose entries were checked to be UTF-8 text: paths and bytes, and
/// the declared systems.
#[derive(Debug)]
pub struct CheckedSnapshot {
    pub entries: Vec<(String, Vec<u8>)>,
    pub systems: Vec<String>,
}

/// What a rule about a change sees: both trees and the transitions.
#[derive(Debug)]
pub struct TransitionContext {
    pub previous: Option<CheckedSnapshot>,
    pub candidate: CheckedSnapshot,
    pub transitions: Vec<Transition>,
}

/// How bad a finding is: `Error` blocks an accept, `Warning` is advisory.
#[derive(Clone, Copy, Debug, PartialEq, Eq)]
pub enum Severity {
    Error,
    Warning,
}

/// One broken invariant, tied to the file that breaks it.
#[derive(Debug, PartialEq, Eq)]
pub struct Violation {
    pub path: String,
    pub severity: Severity,
    pub message: String,
}

/// Why a validation request could not be served at all.
#[derive(Debug, PartialEq, Eq)]
pub struct Diagnostic {
    pub code: String,
    pub message: String,
}

} // verus!
