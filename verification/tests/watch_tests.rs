use lifecycle_core::watch::{
    merge_by_schedule, setup_watcher, RootSetup, SetupFailure, SubscriptionEvent, TaggedEvent,
};

fn files(names: &[&str]) -> SubscriptionEvent {
    SubscriptionEvent::Files(names.iter().map(|n| String::from(*n)).collect())
}

#[test]
fn setup_succeeds_when_every_root_subscribes() {
    let outcomes = vec![RootSetup::Subscribed, RootSetup::Subscribed, RootSetup::Subscribed];
    let w = setup_watcher(&outcomes).expect("all roots subscribed");
    assert_eq!(w.num_roots, 3);
}

#[test]
fn setup_succeeds_for_a_single_root() {
    let outcomes = vec![RootSetup::Subscribed];
    let w = setup_watcher(&outcomes).expect("the one root subscribed");
    assert_eq!(w.num_roots, 1);
}

#[test]
fn one_resolve_failure_aborts_setup() {
    let outcomes = vec![RootSetup::Subscribed, RootSetup::ResolveFailed, RootSetup::Subscribed];
    let e = setup_watcher(&outcomes).expect_err("setup is all-or-nothing");
    assert_eq!(e.root, 1);
    assert_eq!(e.failure, SetupFailure::Resolve);
}

#[test]
fn one_subscribe_failure_aborts_setup() {
    let outcomes = vec![RootSetup::SubscribeFailed];
    let e = setup_watcher(&outcomes).expect_err("setup is all-or-nothing");
    assert_eq!(e.root, 0);
    assert_eq!(e.failure, SetupFailure::Subscribe);
}

#[test]
fn setup_reports_the_first_failing_root() {
    let outcomes = vec![
        RootSetup::Subscribed,
        RootSetup::SubscribeFailed,
        RootSetup::ResolveFailed,
    ];
    let e = setup_watcher(&outcomes).expect_err("two roots failed");
    assert_eq!(e.root, 1);
    assert_eq!(e.failure, SetupFailure::Subscribe);
}

#[test]
fn merge_keeps_each_roots_own_order() {
    let streams = vec![
        vec![files(&["a.html"]), files(&["b.html"])],
        vec![files(&["x.html"]), SubscriptionEvent::Control],
    ];
    let schedule = vec![1, 0, 1, 0];
    let merged = merge_by_schedule(streams, &schedule);
    let expected = vec![
        TaggedEvent { root: 1, event: files(&["x.html"]) },
        TaggedEvent { root: 0, event: files(&["a.html"]) },
        TaggedEvent { root: 1, event: SubscriptionEvent::Control },
        TaggedEvent { root: 0, event: files(&["b.html"]) },
    ];
    assert_eq!(merged, expected);
}

#[test]
fn merge_skips_roots_with_nothing_pending() {
    let streams = vec![vec![files(&["a.html"])], vec![]];
    let schedule = vec![1, 0, 1, 0];
    let merged = merge_by_schedule(streams, &schedule);
    let expected = vec![TaggedEvent { root: 0, event: files(&["a.html"]) }];
    assert_eq!(merged, expected);
}

#[test]
fn merge_ignores_roots_outside_the_set() {
    let streams = vec![vec![files(&["a.html"])]];
    let schedule = vec![5, 0];
    let merged = merge_by_schedule(streams, &schedule);
    let expected = vec![TaggedEvent { root: 0, event: files(&["a.html"]) }];
    assert_eq!(merged, expected);
}

#[test]
fn generous_schedule_delivers_every_batch() {
    let streams = vec![
        vec![files(&["a.html"]), files(&["b.html"]), files(&["c.html"])],
        vec![files(&["x.html"])],
    ];
    let schedule = vec![0, 1, 0, 1, 0, 1];
    let merged = merge_by_schedule(streams, &schedule);
    let from_root_0: Vec<&SubscriptionEvent> =
        merged.iter().filter(|t| t.root == 0).map(|t| &t.event).collect();
    let from_root_1: Vec<&SubscriptionEvent> =
        merged.iter().filter(|t| t.root == 1).map(|t| &t.event).collect();
    assert_eq!(
        from_root_0,
        vec![&files(&["a.html"]), &files(&["b.html"]), &files(&["c.html"])]
    );
    assert_eq!(from_root_1, vec![&files(&["x.html"])]);
}

#[test]
fn merge_of_empty_schedule_is_empty() {
    let streams = vec![vec![files(&["a.html"])]];
    let schedule: Vec<usize> = vec![];
    let merged = merge_by_schedule(streams, &schedule);
    assert!(merged.is_empty());
}
