//! Serialization and coalescing of build invocations.
//!
//! The serializer owns the single build-capable resource. At most one build
//! is ever in flight; triggers that arrive while a build runs are coalesced
//! into at most one follow-up build, started the moment the in-flight build
//! finishes.

use vstd::prelude::*;

verus! {

/// Abstract state of the serializer: whether a build is in flight and
/// whether a follow-up build is owed.
pub struct SerializerModel {
    /// A build invocation is currently running.
    pub busy: bool,
    /// A trigger arrived while busy, so one follow-up build is owed.
    pub pending: bool,
}

/// The two things that can happen to the serializer: a rebuild trigger
/// arrives, or the in-flight build finishes.
pub enum SerializerOp {
    Trigger,
    Finish,
}

/// One transition of the serializer state machine.
///
/// A trigger starts a build at once when idle, and otherwise only records
/// that one follow-up is owed. A finish starts the owed follow-up
/// immediately, or returns to idle.
pub open spec fn step(s: SerializerModel, op: SerializerOp) -> SerializerModel {
    match op {
        SerializerOp::Trigger => SerializerModel { busy: true, pending: s.busy },
        SerializerOp::Finish => if s.busy {
            SerializerModel { busy: s.pending, pending: false }
        } else {
            s
        },
    }
}

/// The state after a whole sequence of operations.
pub open spec fn run(s: SerializerModel, ops: Seq<SerializerOp>) -> SerializerModel
    decreases ops.len(),
{
    if ops.len() == 0 {
        s
    } else {
        step(run(s, ops.drop_last()), ops.last())
    }
}

/// Whether one transition starts a build invocation: a trigger on an idle
/// serializer, or a finish that owes a follow-up.
pub open spec fn step_starts_build(s: SerializerModel, op: SerializerOp) -> bool {
    match op {
        SerializerOp::Trigger => !s.busy,
        SerializerOp::Finish => s.busy && s.pending,
    }
}

/// How many build invocations a sequence of operations starts.
pub open spec fn builds_started(s: SerializerModel, ops: Seq<SerializerOp>) -> nat
    decreases ops.len(),
{
    if ops.len() == 0 {
        0
    } else {
        builds_started(s, ops.drop_last()) + if step_starts_build(
            run(s, ops.drop_last()),
            ops.last(),
        ) {
            1nat
        } else {
            0nat
        }
    }
}

/// How many builds are running in a given state.
pub open spec fn builds_running(s: SerializerModel) -> nat {
    if s.busy {
        1
    } else {
        0
    }
}

/// A burst of rebuild triggers.
pub open spec fn triggers(n: nat) -> Seq<SerializerOp> {
    Seq::new(n, |i: int| SerializerOp::Trigger)
}

/// No matter how many triggers arrive and in what order builds finish,
/// the serializer never has more than one build in flight.
pub proof fn lemma_no_concurrent_builds(s: SerializerModel, ops: Seq<SerializerOp>)
    ensures
        builds_running(run(s, ops)) <= 1,
{
}

/// Any number of triggers arriving while a build is in flight leaves the
/// serializer still busy and owing exactly one follow-up build.
pub proof fn lemma_triggers_while_busy(s: SerializerModel, n: nat)
    requires
        s.busy,
        n >= 1,
    ensures
        run(s, triggers(n)) == (SerializerModel { busy: true, pending: true }),
        builds_started(s, triggers(n)) == 0,
    decreases n,
{
    assert(triggers(n).drop_last() =~= triggers((n - 1) as nat));
    if n == 1 {
        assert(run(s, triggers(0)) == s);
        assert(builds_started(s, triggers(0)) == 0);
    } else {
        lemma_triggers_while_busy(s, (n - 1) as nat);
    }
}

/// Coalescing: triggers arriving at any times t1 < t2 < ... < tn, all while
/// a build started earlier is still running, cause exactly one additional
/// build, started when the in-flight one completes — not n.
pub proof fn lemma_coalescing(s: SerializerModel, n: nat)
    requires
        s.busy,
        n >= 1,
    ensures
        builds_started(s, triggers(n).push(SerializerOp::Finish)) == 1,
        run(s, triggers(n).push(SerializerOp::Finish)) == (SerializerModel {
            busy: true,
            pending: false,
        }),
{
    let ops = triggers(n).push(SerializerOp::Finish);
    assert(ops.drop_last() =~= triggers(n));
    lemma_triggers_while_busy(s, n);
}

/// The build serializer: wraps the external compiler resource with mutual
/// exclusion and trigger coalescing. Its state is exclusively owned; other
/// components interact with it only through `request_build` and
/// `build_finished`.
pub struct BuildSerializer {
    busy: bool,
    pending: bool,
}

impl View for BuildSerializer {
    type V = SerializerModel;

    closed spec fn view(&self) -> SerializerModel {
        SerializerModel { busy: self.busy, pending: self.pending }
    }
}

impl BuildSerializer {
    /// A fresh serializer: idle, no follow-up owed.
    pub fn new() -> (s: BuildSerializer)
        ensures
            s@ == (SerializerModel { busy: false, pending: false }),
    {
        BuildSerializer { busy: false, pending: false }
    }

    /// A rebuild trigger arrived. Returns whether the caller must start a
    /// build invocation now: true exactly when no build was in flight.
    /// While a build is in flight, any number of triggers only record that
    /// a single follow-up build is owed.
    pub fn request_build(&mut self) -> (start: bool)
        ensures
            start == !old(self)@.busy,
            final(self)@ == step(old(self)@, SerializerOp::Trigger),
    {
        if self.busy {
            self.pending = true;
            false
        } else {
            self.busy = true;
            self.pending = false;
            true
        }
    }

    /// The in-flight build finished. Returns whether the caller must start
    /// the single coalesced follow-up build immediately: true exactly when
    /// a trigger arrived during the finished build.
    pub fn build_finished(&mut self) -> (follow_up: bool)
        requires
            old(self)@.busy,
        ensures
            follow_up == old(self)@.pending,
            final(self)@ == step(old(self)@, SerializerOp::Finish),
    {
        if self.pending {
            self.pending = false;
            true
        } else {
            self.busy = false;
            false
        }
    }

    /// Whether a build is currently in flight.
    pub fn is_busy(&self) -> (busy: bool)
        ensures
            busy == self@.busy,
    {
        self.busy
    }
}

} // verus!
