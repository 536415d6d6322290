//! Tests of the rebuild-and-reload pipeline: event filtering, build
//! serialization with coalescing, the reload rendezvous hub, and the
//! coordinator's cycle decisions.

use specto::coordinator::{BuildOutcome, Coordinator};
use specto::event::{is_trigger, ChangeEvent, ChangeKind};
use specto::hub::{reload_message, ReloadHub};
use specto::serializer::BuildSerializer;

fn event(kind: ChangeKind) -> ChangeEvent {
    ChangeEvent {
        path: String::from("proj/src/Main.elm"),
        kind,
    }
}

#[test]
fn data_modification_triggers() {
    assert!(is_trigger(&event(ChangeKind::ModifiedData)));
}

#[test]
fn metadata_change_never_triggers() {
    assert!(!is_trigger(&event(ChangeKind::ModifiedMetadata)));
}

#[test]
fn other_changes_never_trigger() {
    assert!(!is_trigger(&event(ChangeKind::Created)));
    assert!(!is_trigger(&event(ChangeKind::Removed)));
    assert!(!is_trigger(&event(ChangeKind::Other)));
}

#[test]
fn idle_trigger_starts_build() {
    let mut serializer = BuildSerializer::new();
    assert!(!serializer.is_busy());
    assert!(serializer.request_build());
    assert!(serializer.is_busy());
}

#[test]
fn no_second_build_while_busy() {
    let mut serializer = BuildSerializer::new();
    assert!(serializer.request_build());
    // A build is in flight: no further trigger may start another.
    assert!(!serializer.request_build());
    assert!(!serializer.request_build());
    assert!(serializer.is_busy());
}

#[test]
fn triggers_during_build_coalesce_to_one_follow_up() {
    let mut serializer = BuildSerializer::new();
    assert!(serializer.request_build());
    // Three triggers at t1 < t2 < t3, all during the in-flight build.
    assert!(!serializer.request_build());
    assert!(!serializer.request_build());
    assert!(!serializer.request_build());
    // The finished build owes exactly one follow-up, not three.
    assert!(serializer.build_finished());
    // The follow-up finishes with nothing further owed.
    assert!(!serializer.build_finished());
    assert!(!serializer.is_busy());
}

#[test]
fn quiet_build_owes_no_follow_up() {
    let mut serializer = BuildSerializer::new();
    assert!(serializer.request_build());
    assert!(!serializer.build_finished());
    assert!(!serializer.is_busy());
}

#[test]
fn notify_fulfills_exactly_the_registered_waiters() {
    let mut hub: ReloadHub<u32> = ReloadHub::new();
    hub.register_waiter(1);
    hub.register_waiter(2);
    hub.register_waiter(3);
    let drained = hub.notify_all();
    assert_eq!(drained, vec![1, 2, 3]);
    assert_eq!(hub.pending_count(), 0);
}

#[test]
fn waiter_registered_after_drain_waits_for_next_cycle() {
    let mut hub: ReloadHub<u32> = ReloadHub::new();
    hub.register_waiter(1);
    let first = hub.notify_all();
    hub.register_waiter(2);
    assert_eq!(first, vec![1]);
    // The late waiter got nothing from the first cycle...
    assert!(!first.contains(&2));
    assert_eq!(hub.pending_count(), 1);
    // ...and is fulfilled exactly once by the next one.
    let second = hub.notify_all();
    assert_eq!(second, vec![2]);
    assert_eq!(hub.pending_count(), 0);
}

#[test]
fn k_waiters_give_k_fulfillments() {
    let mut hub: ReloadHub<u32> = ReloadHub::new();
    let k: u32 = 25;
    for id in 0..k {
        hub.register_waiter(id);
    }
    let drained = hub.notify_all();
    // Exactly K fulfillments: no duplicates, no omissions.
    assert_eq!(drained.len(), k as usize);
    for id in 0..k {
        assert_eq!(drained.iter().filter(|w| **w == id).count(), 1);
    }
    assert_eq!(hub.pending_count(), 0);
}

#[test]
fn empty_cycle_fulfills_nobody() {
    let mut hub: ReloadHub<u32> = ReloadHub::new();
    let drained = hub.notify_all();
    assert!(drained.is_empty());
}

#[test]
fn reload_message_payload() {
    assert_eq!(reload_message(), "reload");
}

fn outcome(success: bool) -> BuildOutcome {
    BuildOutcome {
        success,
        artifact_path: String::from("index.html"),
    }
}

#[test]
fn startup_begins_building_immediately() {
    let coordinator = Coordinator::startup();
    assert!(coordinator.is_building());
}

#[test]
fn successful_build_notifies_once() {
    let mut coordinator = Coordinator::startup();
    let cycle = coordinator.on_build_done(&outcome(true));
    assert!(cycle.notify);
    assert!(!cycle.start_follow_up);
    assert!(!coordinator.is_building());
}

#[test]
fn failed_build_notifies_nobody() {
    let mut coordinator = Coordinator::startup();
    let cycle = coordinator.on_build_done(&outcome(false));
    assert!(!cycle.notify);
    assert!(!coordinator.is_building());
}

#[test]
fn failure_then_success_notifies_exactly_once() {
    let mut coordinator = Coordinator::startup();
    let mut notifications: usize = 0;

    // The initial build fails: no reload, the pipeline keeps watching.
    let failed = coordinator.on_build_done(&outcome(false));
    if failed.notify {
        notifications += 1;
    }

    // A later trigger starts a fresh build, which succeeds.
    assert!(coordinator.on_trigger());
    let succeeded = coordinator.on_build_done(&outcome(true));
    if succeeded.notify {
        notifications += 1;
    }

    assert_eq!(notifications, 1);
}
