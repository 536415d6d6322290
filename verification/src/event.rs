//! Classification and filtering of filesystem change events.
//!
//! Only a genuine data modification of a file is allowed to trigger a
//! rebuild; metadata-only touches, directory churn and removals are
//! discarded so that editors that merely update permissions or access
//! times do not cause spurious rebuilds.

use vstd::prelude::*;

verus! {

/// How a filesystem entry changed, as reported by the watcher.
#[derive(Clone, Copy, PartialEq, Eq, Structural, Debug)]
pub enum ChangeKind {
    /// A new entry appeared.
    Created,
    /// The content of a file changed.
    ModifiedData,
    /// Only metadata (permissions, timestamps) changed.
    ModifiedMetadata,
    /// An entry disappeared.
    Removed,
    /// Anything else the watcher reports.
    Other,
}

/// One change notification: a path inside the watched tree and how it changed.
pub struct ChangeEvent {
    /// Path of the changed entry.
    pub path: String,
    /// Classification of the change.
    pub kind: ChangeKind,
}

/// A change kind asks for a rebuild exactly when it is a data modification.
pub open spec fn is_trigger_kind(kind: ChangeKind) -> bool {
    kind is ModifiedData
}

/// Filter correctness: a data-modification event always yields a trigger;
/// a metadata-only change — and every other kind of change — never does.
pub proof fn lemma_filter_correctness()
    ensures
        is_trigger_kind(ChangeKind::ModifiedData),
        !is_trigger_kind(ChangeKind::ModifiedMetadata),
        !is_trigger_kind(ChangeKind::Created),
        !is_trigger_kind(ChangeKind::Removed),
        !is_trigger_kind(ChangeKind::Other),
{
}

/// Decide whether a change event produces a rebuild trigger.
///
/// A data-modification event always produces exactly one trigger; every
/// other kind of event, in particular a metadata-only change, never does.
pub fn is_trigger(event: &ChangeEvent) -> (trigger: bool)
    ensures
        trigger == is_trigger_kind(event.kind),
{
    match event.kind {
        ChangeKind::ModifiedData => true,
        _ => false,
    }
}

} // verus!
