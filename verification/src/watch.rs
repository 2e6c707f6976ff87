//! Multi-root watching: all-or-nothing setup over the configured watch
//! roots, and the fan-in merge of the per-root subscription sequences
//! into one merged sequence of change events.
//!
//! Resolving a root and opening a subscription are asynchronous calls
//! into the change-notification service; the hosting process performs
//! them and reports each root's outcome here. Likewise the runtime's
//! scheduler decides which subscription yields next; that choice enters
//! the merge as an explicit schedule, so everything proved here holds
//! for every interleaving the runtime can produce.

use vstd::prelude::*;

verus! {

/// The outcome of preparing one watch root: the root resolved and its
/// subscription opened, or one of the two steps failed.
#[derive(Clone, Copy, Debug, PartialEq, Eq, Structural)]
pub enum RootSetup {
    Subscribed,
    ResolveFailed,
    SubscribeFailed,
}

/// Which step of watcher setup failed.
#[derive(Clone, Copy, Debug, PartialEq, Eq, Structural)]
pub enum SetupFailure {
    Resolve,
    Subscribe,
}

/// Why watcher setup was aborted: the first root that failed, and at
/// which step.
#[derive(Clone, Copy, Debug, PartialEq, Eq, Structural)]
pub struct SetupError {
    pub root: usize,
    pub failure: SetupFailure,
}

/// A watcher over a fixed set of roots, all of whose subscriptions are
/// open. The set of roots is fixed for the watcher's lifetime.
#[derive(Clone, Copy, Debug, PartialEq, Eq, Structural)]
pub struct MultiRootWatcher {
    pub num_roots: usize,
}

/// Fail-fast, all-or-nothing watcher setup: the watcher exists exactly
/// when every configured root resolved and subscribed; any single
/// failure aborts the whole setup and names the first root that failed.
/// The caller receives no partial watcher.
pub fn setup_watcher(outcomes: &Vec<RootSetup>) -> (r: Result<MultiRootWatcher, SetupError>)
    ensures
        r is Ok <==> (forall|i: int| 0 <= i < outcomes@.len() ==> outcomes@[i] is Subscribed),
        r matches Ok(w) ==> w.num_roots == outcomes@.len(),
        r matches Err(e) ==> {
            &&& e.root < outcomes@.len()
            &&& !(outcomes@[e.root as int] is Subscribed)
            &&& forall|j: int| 0 <= j < e.root ==> outcomes@[j] is Subscribed
            &&& (e.failure is Resolve <==> outcomes@[e.root as int] is ResolveFailed)
        },
{
    let mut i: usize = 0;
    while i < outcomes.len()
        invariant
            i <= outcomes@.len(),
            forall|j: int| 0 <= j < i ==> outcomes@[j] is Subscribed,
        decreases outcomes@.len() - i,
    {
        match outcomes[i] {
            RootSetup::Subscribed => {},
            RootSetup::ResolveFailed => {
                return Err(SetupError { root: i, failure: SetupFailure::Resolve });
            },
            RootSetup::SubscribeFailed => {
                return Err(SetupError { root: i, failure: SetupFailure::Subscribe });
            },
        }
        i = i + 1;
    }
    Ok(MultiRootWatcher { num_roots: outcomes.len() })
}

/// One event produced by a root's subscription: either a change-event
/// batch listing the changed files, or a heartbeat/control message that
/// carries no file changes and is dropped silently.
#[derive(Debug, PartialEq, Eq)]
pub enum SubscriptionEvent {
    Files(Vec<String>),
    Control,
}

/// An event of the merged sequence, tagged with the root that emitted it.
#[derive(Debug, PartialEq, Eq)]
pub struct TaggedEvent {
    pub root: usize,
    pub event: SubscriptionEvent,
}

/// The contents of each per-root subscription, as sequences.
pub open spec fn stream_views(streams: Seq<Vec<SubscriptionEvent>>) -> Seq<Seq<SubscriptionEvent>> {
    streams.map_values(|v: Vec<SubscriptionEvent>| v@)
}

/// The merged sequence that a schedule produces from the per-root
/// sequences: at each schedule entry the named root yields its next
/// pending event; a root with nothing pending yields nothing.
pub open spec fn merge_spec(ss: Seq<Seq<SubscriptionEvent>>, sched: Seq<usize>) -> Seq<TaggedEvent>
    decreases sched.len(),
{
    if sched.len() == 0 {
        Seq::<TaggedEvent>::empty()
    } else {
        let r: int = sched[0] as int;
        if r < ss.len() && ss[r].len() > 0 {
            seq![TaggedEvent { root: sched[0], event: ss[r][0] }]
                + merge_spec(ss.update(r, ss[r].skip(1)), sched.skip(1))
        } else {
            merge_spec(ss, sched.skip(1))
        }
    }
}

/// The subsequence of a merged sequence that one root emitted.
pub open spec fn project_root(s: Seq<TaggedEvent>, root: usize) -> Seq<SubscriptionEvent>
    decreases s.len(),
{
    if s.len() == 0 {
        Seq::<SubscriptionEvent>::empty()
    } else if s[0].root == root {
        seq![s[0].event] + project_root(s.skip(1), root)
    } else {
        project_root(s.skip(1), root)
    }
}

/// Law: merging guarantees no cross-root ordering, but each root's
/// events appear in the merged sequence exactly in the order that root
/// emitted them — the merged sequence restricted to one root is a
/// prefix of that root's own sequence, whatever the schedule.
pub proof fn lemma_merge_keeps_root_order(
    ss: Seq<Seq<SubscriptionEvent>>,
    sched: Seq<usize>,
    root: usize,
)
    requires
        root < ss.len(),
    ensures
        project_root(merge_spec(ss, sched), root).len() <= ss[root as int].len(),
        project_root(merge_spec(ss, sched), root) == ss[root as int].take(
            project_root(merge_spec(ss, sched), root).len() as int,
        ),
    decreases sched.len(),
{
    if sched.len() == 0 {
        assert(project_root(merge_spec(ss, sched), root) =~= ss[root as int].take(0));
    } else {
        let r0: int = sched[0] as int;
        if r0 < ss.len() && ss[r0].len() > 0 {
            let t = TaggedEvent { root: sched[0], event: ss[r0][0] };
            let ss2 = ss.update(r0, ss[r0].skip(1));
            let rest = merge_spec(ss2, sched.skip(1));
            let whole = seq![t] + rest;
            assert(merge_spec(ss, sched) == whole);
            assert(whole.skip(1) =~= rest);
            lemma_merge_keeps_root_order(ss2, sched.skip(1), root);
            let p_rest = project_root(rest, root);
            if sched[0] == root {
                let p = project_root(whole, root);
                assert(p == seq![t.event] + p_rest);
                assert(ss2[root as int] == ss[root as int].skip(1));
                assert(p.len() <= ss[root as int].len());
                assert(p =~= ss[root as int].take(p.len() as int)) by {
                    assert forall|k: int| 0 <= k < p.len() implies p[k] == ss[root as int][k] by {
                        if k == 0 {
                            assert(p[0] == ss[root as int][0]);
                        } else {
                            assert(p[k] == p_rest[k - 1]);
                            assert(p_rest[k - 1] == ss[root as int].skip(1)[k - 1]);
                        }
                    }
                }
            } else {
                assert(project_root(whole, root) == p_rest);
                assert(ss2[root as int] == ss[root as int]);
            }
        } else {
            lemma_merge_keeps_root_order(ss, sched.skip(1), root);
        }
    }
}

/// How often a schedule lets one root yield.
pub open spec fn times_scheduled(sched: Seq<usize>, root: usize) -> nat
    decreases sched.len(),
{
    if sched.len() == 0 {
        0
    } else {
        (if sched[0] == root {
            1nat
        } else {
            0nat
        }) + times_scheduled(sched.skip(1), root)
    }
}

/// Law: a schedule delivers from each root exactly as many events as
/// it lets that root yield, capped by what the root emitted.
pub proof fn lemma_merge_delivery_count(
    ss: Seq<Seq<SubscriptionEvent>>,
    sched: Seq<usize>,
    root: usize,
)
    requires
        root < ss.len(),
    ensures
        project_root(merge_spec(ss, sched), root).len() == (if times_scheduled(sched, root)
            <= ss[root as int].len() {
            times_scheduled(sched, root) as int
        } else {
            ss[root as int].len() as int
        }),
    decreases sched.len(),
{
    if sched.len() == 0 {
    } else {
        let r0: int = sched[0] as int;
        if r0 < ss.len() && ss[r0].len() > 0 {
            let t = TaggedEvent { root: sched[0], event: ss[r0][0] };
            let ss2 = ss.update(r0, ss[r0].skip(1));
            let rest = merge_spec(ss2, sched.skip(1));
            let whole = seq![t] + rest;
            assert(merge_spec(ss, sched) == whole);
            assert(whole.skip(1) =~= rest);
            lemma_merge_delivery_count(ss2, sched.skip(1), root);
            if sched[0] == root {
                assert(project_root(whole, root) == seq![t.event] + project_root(rest, root));
                assert(ss2[root as int] == ss[root as int].skip(1));
            } else {
                assert(project_root(whole, root) == project_root(rest, root));
                assert(ss2[root as int] == ss[root as int]);
            }
        } else {
            lemma_merge_delivery_count(ss, sched.skip(1), root);
        }
    }
}

/// Law: every batch is delivered at least once — under any schedule
/// that lets each root yield at least as often as it emitted, the
/// merged sequence carries each root's whole sequence, in its order.
pub proof fn lemma_merge_delivers_all(
    ss: Seq<Seq<SubscriptionEvent>>,
    sched: Seq<usize>,
    root: usize,
)
    requires
        root < ss.len(),
        times_scheduled(sched, root) >= ss[root as int].len(),
    ensures
        project_root(merge_spec(ss, sched), root) == ss[root as int],
{
    lemma_merge_delivery_count(ss, sched, root);
    lemma_merge_keeps_root_order(ss, sched, root);
    assert(ss[root as int].take(ss[root as int].len() as int) =~= ss[root as int]);
}

/// Merges the per-root subscription contents into one sequence, under an
/// explicit schedule standing for the runtime's choice of which
/// subscription yields next. The result is exactly the merged sequence
/// the schedule produces.
pub fn merge_by_schedule(
    streams: Vec<Vec<SubscriptionEvent>>,
    schedule: &Vec<usize>,
) -> (out: Vec<TaggedEvent>)
    ensures
        out@ == merge_spec(stream_views(streams@), schedule@),
{
    let ghost init_views = stream_views(streams@);
    let mut streams = streams;
    let mut out: Vec<TaggedEvent> = Vec::new();
    let mut i: usize = 0;
    proof {
        assert(schedule@.skip(0) =~= schedule@);
        assert(out@ + merge_spec(init_views, schedule@) =~= merge_spec(init_views, schedule@));
    }
    while i < schedule.len()
        invariant
            i <= schedule@.len(),
            out@ + merge_spec(stream_views(streams@), schedule@.skip(i as int)) == merge_spec(
                init_views,
                schedule@,
            ),
        decreases schedule@.len() - i,
    {
        let ghost vs = stream_views(streams@);
        let ghost sched_i = schedule@.skip(i as int);
        proof {
            assert(sched_i[0] == schedule@[i as int]);
            assert(sched_i.skip(1) =~= schedule@.skip(i as int + 1));
        }
        let r = schedule[i];
        let ghost out0 = out@;
        if r < streams.len() && streams[r].len() > 0 {
            let e = streams[r].remove(0);
            proof {
                assert(e == vs[r as int][0]);
            }
            out.push(TaggedEvent { root: r, event: e });
            proof {
                assert(stream_views(streams@) =~= vs.update(r as int, vs[r as int].skip(1)));
                let t = TaggedEvent { root: r, event: e };
                assert(merge_spec(vs, sched_i) == seq![t] + merge_spec(
                    stream_views(streams@),
                    sched_i.skip(1),
                ));
                assert(out@ =~= out0 + seq![t]);
                assert(out@ + merge_spec(stream_views(streams@), schedule@.skip(i as int + 1))
                    =~= out0 + merge_spec(vs, sched_i));
            }
        } else {
            proof {
                assert(merge_spec(vs, sched_i) == merge_spec(vs, sched_i.skip(1)));
            }
        }
        i = i + 1;
    }
    proof {
        assert(schedule@.skip(i as int) =~= Seq::<usize>::empty());
        assert(out@ + Seq::<TaggedEvent>::empty() =~= out@);
    }
    out
}

} // verus!
