//! The reload rendezvous hub.
//!
//! Each connected browser tab registers one waiter: a single-use reply slot
//! that is fulfilled at most once, by the first successful build completed
//! after registration. A notification cycle atomically drains the whole
//! pending collection; waiters registered after the drain began stay
//! pending for the next cycle.
//!
//! The hub is generic in the waiter payload, so the caller may store
//! whatever reply handle its connections use. The hub itself never reads a
//! payload; it only guarantees which payloads each cycle hands out.

use vstd::prelude::*;

verus! {

/// Registering a waiter appends it to the pending collection.
pub open spec fn spec_register<T>(pending: Seq<T>, waiter: T) -> Seq<T> {
    pending.push(waiter)
}

/// A notification cycle fulfills exactly the waiters pending when it
/// begins.
pub open spec fn spec_drained<T>(pending: Seq<T>) -> Seq<T> {
    pending
}

/// After a notification cycle nothing is pending.
pub open spec fn spec_after_notify<T>(pending: Seq<T>) -> Seq<T> {
    Seq::empty()
}

/// The pending collection of not-yet-fulfilled waiters. Exclusively owned
/// by the hub; the only operations are registering one waiter and draining
/// them all.
pub struct ReloadHub<T> {
    pending: Vec<T>,
}

impl<T> View for ReloadHub<T> {
    type V = Seq<T>;

    closed spec fn view(&self) -> Seq<T> {
        self.pending@
    }
}

impl<T> ReloadHub<T> {
    /// A fresh hub with no pending waiter.
    pub fn new() -> (hub: ReloadHub<T>)
        ensures
            hub@ =~= Seq::<T>::empty(),
    {
        ReloadHub { pending: Vec::new() }
    }

    /// Register one waiter. It stays pending until the next notification
    /// cycle, which fulfills it exactly once.
    pub fn register_waiter(&mut self, waiter: T)
        ensures
            final(self)@ == spec_register(old(self)@, waiter),
    {
        self.pending.push(waiter);
    }

    /// Begin and complete one notification cycle: atomically drain the
    /// whole pending collection and hand every drained waiter out for
    /// fulfillment, each exactly once. Waiters registered after this call
    /// are unaffected and wait for the next cycle.
    pub fn notify_all(&mut self) -> (drained: Vec<T>)
        ensures
            drained@ == spec_drained(old(self)@),
            final(self)@ =~= spec_after_notify(old(self)@),
    {
        let mut drained: Vec<T> = Vec::new();
        core::mem::swap(&mut drained, &mut self.pending);
        drained
    }

    /// How many waiters are pending.
    pub fn pending_count(&self) -> (count: usize)
        ensures
            count == self@.len(),
    {
        self.pending.len()
    }
}

/// The payload of the one message the reload wire protocol ever sends to a
/// fulfilled waiter.
pub open spec fn reload_message_spec() -> Seq<char> {
    "reload"@
}

/// The exact text sent to each waiter fulfilled by a notification cycle.
pub fn reload_message() -> (msg: String)
    ensures
        msg@ == reload_message_spec(),
{
    "reload".to_owned()
}

/// At-most-once delivery per cycle: a waiter registered before a
/// notification cycle begins is fulfilled exactly once by that cycle and is
/// no longer pending afterwards; a waiter registered only after the cycle
/// began is not fulfilled by it and stays pending for the next one.
pub proof fn lemma_at_most_once_delivery<T>(pending: Seq<T>, early: T, late: T)
    requires
        pending.to_multiset().count(early) == 1,
        !pending.contains(late),
        late != early,
    ensures
        spec_drained(pending).to_multiset().count(early) == 1,
        !spec_after_notify::<T>(pending).contains(early),
        !spec_drained(pending).contains(late),
        spec_register(spec_after_notify::<T>(pending), late).contains(late),
{
    broadcast use vstd::seq_lib::group_to_multiset_ensures;

    assert(spec_register(spec_after_notify::<T>(pending), late).last() == late);
}

/// No lost waiters under concurrency: however K concurrent registrations
/// interleave with one notification cycle, each lands either before the
/// drain or after it, and every waiter is handed out exactly once over this
/// cycle and the next — K fulfillments in total, no duplicates, no
/// omissions.
pub proof fn lemma_no_lost_waiters<T>(pending: Seq<T>, before: Seq<T>, after: Seq<T>)
    ensures
        ({
            let first_cycle = spec_drained(pending + before);
            let second_cycle = spec_drained(spec_after_notify::<T>(pending + before) + after);
            &&& first_cycle.len() + second_cycle.len() == pending.len() + before.len()
                + after.len()
            &&& (first_cycle + second_cycle).to_multiset() =~= (pending + before
                + after).to_multiset()
        }),
{
    let first_cycle = spec_drained(pending + before);
    let second_cycle = spec_drained(spec_after_notify::<T>(pending + before) + after);
    assert(second_cycle =~= after);
    assert(first_cycle + second_cycle =~= pending + before + after);
}

} // verus!
