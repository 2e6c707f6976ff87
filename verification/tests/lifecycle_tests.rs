//! End-to-end scenario over the whole lifecycle core: setup, merge,
//! reload coordination and snapshot reads working together.

use lifecycle_core::reload::{ReloadAction, ReloadCoordinator, StreamItem};
use lifecycle_core::watch::{
    merge_by_schedule, setup_watcher, RootSetup, SubscriptionEvent, TaggedEvent,
};

#[test]
fn change_in_one_root_reloads_once_and_readers_swap_cleanly() {
    // Two watch roots A and B, both of which resolve and subscribe.
    let outcomes = vec![RootSetup::Subscribed, RootSetup::Subscribed];
    let watcher = setup_watcher(&outcomes).expect("both roots subscribed");
    assert_eq!(watcher.num_roots, 2);

    // Root A stays quiet; a change batch arrives from root B
    // referencing "layout.html".
    let root_a: Vec<SubscriptionEvent> = vec![];
    let root_b = vec![SubscriptionEvent::Files(vec![String::from("layout.html")])];
    let schedule = vec![0, 1, 0];
    let merged = merge_by_schedule(vec![root_a, root_b], &schedule);
    assert_eq!(
        merged,
        vec![TaggedEvent {
            root: 1,
            event: SubscriptionEvent::Files(vec![String::from("layout.html")]),
        }]
    );

    // A response already being written holds the snapshot it started
    // with; the batch provokes exactly one reload.
    let mut coordinator = ReloadCoordinator::start();
    let in_flight_render = coordinator.snapshot.read();
    let mut reloads: u64 = 0;
    for event in merged {
        if coordinator.on_item(StreamItem::Next(event)) == ReloadAction::StartReload {
            reloads += 1;
            coordinator.on_reload_result(true);
        }
    }
    assert_eq!(reloads, 1);
    assert_eq!(coordinator.batches, 1);

    // Subsequent requests render with the new snapshot, while the
    // render that began before the swap still holds its old one.
    let fresh_render = coordinator.snapshot.read();
    assert_eq!(fresh_render.generation, 1);
    assert_eq!(in_flight_render.generation, 0);
}
