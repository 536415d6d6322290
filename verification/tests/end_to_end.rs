//! One whole walk through the pipeline: initial build, a connected tab,
//! a source change, a rebuild, a reload notice, re-registration, and a
//! coalesced second change.

use specto::coordinator::{BuildOutcome, Coordinator};
use specto::event::{is_trigger, ChangeEvent, ChangeKind};
use specto::hub::ReloadHub;

fn modified(path: &str) -> ChangeEvent {
    ChangeEvent {
        path: String::from(path),
        kind: ChangeKind::ModifiedData,
    }
}

fn success() -> BuildOutcome {
    BuildOutcome {
        success: true,
        artifact_path: String::from("index.html"),
    }
}

#[test]
fn edit_rebuild_reload_cycle() {
    // Watch root `/proj/src`; startup begins the initial build at once.
    let mut coordinator = Coordinator::startup();
    let mut hub: ReloadHub<u32> = ReloadHub::new();
    let mut builds_run: usize = 0;

    // The initial build succeeds, producing `index.html`; nobody is
    // connected yet, so the notification cycle fulfills no waiter.
    builds_run += 1;
    let initial = coordinator.on_build_done(&success());
    assert!(initial.notify);
    assert!(hub.notify_all().is_empty());

    // A tab connects, registers and blocks.
    hub.register_waiter(1);

    // A file under `/proj/src` is modified: exactly one rebuild starts.
    assert!(is_trigger(&modified("/proj/src/Main.elm")));
    assert!(coordinator.on_trigger());
    builds_run += 1;

    // A second modification arrives while that rebuild is still running:
    // no overlapping build starts, only a follow-up is recorded.
    assert!(is_trigger(&modified("/proj/src/Util.elm")));
    assert!(!coordinator.on_trigger());

    // The rebuild succeeds: the tab receives `"reload"`, exactly once,
    // and the coalesced follow-up build starts.
    let rebuilt = coordinator.on_build_done(&success());
    assert!(rebuilt.notify);
    let reloaded = hub.notify_all();
    assert_eq!(reloaded, vec![1]);

    // The tab re-registers after reloading. Its new waiter was not part
    // of the earlier cycle and is satisfied only by the follow-up build's
    // own completion.
    hub.register_waiter(2);
    assert!(!reloaded.contains(&2));

    assert!(rebuilt.start_follow_up);
    builds_run += 1;
    let follow_up = coordinator.on_build_done(&success());
    assert!(follow_up.notify);
    assert!(!follow_up.start_follow_up);
    assert_eq!(hub.notify_all(), vec![2]);

    // Two modifications, three builds in all: initial, rebuild, and one
    // coalesced follow-up — never more than one at a time.
    assert_eq!(builds_run, 3);
    assert!(!coordinator.is_building());
}
