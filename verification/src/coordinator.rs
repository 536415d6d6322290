//! The coordinator: wires the change-event filter, the build serializer and
//! the reload hub together.
//!
//! Per build cycle it moves through `Idle -> Building -> {Succeeded ->
//! Notifying -> Idle, Failed -> Idle}`: every completed build ends the
//! cycle, but only a successful one is followed by exactly one hub-wide
//! notification. On startup one build runs immediately, before anything is
//! served, so the first page view is never stale.

use vstd::prelude::*;
use crate::serializer::BuildSerializer;
use crate::serializer::SerializerModel;
use crate::serializer::SerializerOp;
use crate::serializer::step;

verus! {

/// The result of one completed build invocation.
pub struct BuildOutcome {
    /// Whether the external compiler reported success.
    pub success: bool,
    /// Where the artifact was written; meaningful only on success.
    pub artifact_path: String,
}

/// What the caller must do after reporting a completed build: notify every
/// pending waiter, start the coalesced follow-up build, both, or nothing.
pub struct CycleEnd {
    /// Fulfil every waiter pending at this moment: true exactly when the
    /// completed build succeeded.
    pub notify: bool,
    /// Start the single coalesced follow-up build now: true exactly when a
    /// trigger arrived while the completed build was running.
    pub start_follow_up: bool,
}

/// Drives the rebuild-and-reload pipeline: consumes filtered triggers,
/// serializes builds, and decides after each completed build whether the
/// reload hub must be notified.
pub struct Coordinator {
    serializer: BuildSerializer,
}

impl View for Coordinator {
    type V = SerializerModel;

    closed spec fn view(&self) -> SerializerModel {
        self.serializer@
    }
}

impl Coordinator {
    /// Start the pipeline: the initial build is begun at once, so the
    /// coordinator comes back already building, with no follow-up owed.
    pub fn startup() -> (coordinator: Coordinator)
        ensures
            coordinator@ == (SerializerModel { busy: true, pending: false }),
    {
        let mut serializer = BuildSerializer::new();
        serializer.request_build();
        Coordinator { serializer }
    }

    /// A filtered change trigger arrived. Returns whether the caller must
    /// start a build invocation now: true exactly when none was in flight.
    pub fn on_trigger(&mut self) -> (start: bool)
        ensures
            start == !old(self)@.busy,
            final(self)@ == step(old(self)@, SerializerOp::Trigger),
    {
        self.serializer.request_build()
    }

    /// The in-flight build completed with the given outcome. The hub is to
    /// be notified exactly when the build succeeded — a failed build ends
    /// its cycle silently, leaving the previous artifact served — and the
    /// coalesced follow-up build is to be started exactly when a trigger
    /// arrived during the completed build.
    pub fn on_build_done(&mut self, outcome: &BuildOutcome) -> (cycle_end: CycleEnd)
        requires
            old(self)@.busy,
        ensures
            cycle_end.notify == outcome.success,
            cycle_end.start_follow_up == old(self)@.pending,
            final(self)@ == step(old(self)@, SerializerOp::Finish),
    {
        let start_follow_up = self.serializer.build_finished();
        CycleEnd { notify: outcome.success, start_follow_up }
    }

    /// Whether a build is currently in flight.
    pub fn is_building(&self) -> (busy: bool)
        ensures
            busy == self@.busy,
    {
        self.serializer.is_busy()
    }
}

/// How many hub-wide notifications a sequence of completed builds causes:
/// one per success, none per failure.
pub open spec fn notifications(outcomes: Seq<bool>) -> nat
    decreases outcomes.len(),
{
    if outcomes.len() == 0 {
        0
    } else {
        notifications(outcomes.drop_last()) + if outcomes.last() {
            1nat
        } else {
            0nat
        }
    }
}

/// Over any sequence of completed builds, the notifications are exactly
/// one per success: failed builds cause none.
pub proof fn lemma_notifications_count(outcomes: Seq<bool>)
    ensures
        notifications(outcomes) == outcomes.filter(|success: bool| success).len(),
    decreases outcomes.len(),
{
    reveal(Seq::filter);
    if outcomes.len() > 0 {
        lemma_notifications_count(outcomes.drop_last());
    }
}

/// Failure isolation: a failing build followed by a successful build causes
/// exactly one notification in total — none from the failure, one from the
/// success.
pub proof fn lemma_failure_isolation()
    ensures
        notifications(seq![false, true]) == 1,
{
    reveal_with_fuel(notifications, 3);
    assert(seq![false, true].drop_last() =~= seq![false]);
    assert(seq![false].drop_last() =~= Seq::<bool>::empty());
}

} // verus!
