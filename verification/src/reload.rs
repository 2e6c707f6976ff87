//! The reload coordinator: consumes the merged change-event sequence
//! and drives atomic reloads of the shared template snapshot.
//!
//! Batches are processed strictly one at a time — the coordinator hands
//! out at most one reload at once and accepts the next item only after
//! the result of the pending reload came back. A failed reload is
//! recoverable: the last good snapshot stays live and the loop goes on.
//! A failure of the stream itself is fatal to the watch loop only: the
//! coordinator freezes and the process keeps serving the frozen
//! snapshot.

use vstd::prelude::*;

use crate::snapshot::SnapshotCell;
use crate::watch::merge_spec;
use crate::watch::SubscriptionEvent;
use crate::watch::TaggedEvent;

verus! {

/// One item of the merged stream as the coordinator sees it: the next
/// per-root event, or a transport-level failure of the stream itself.
#[derive(Debug)]
pub enum StreamItem {
    Next(TaggedEvent),
    Failed,
}

/// What the coordinator asks the hosting process to do after an item:
/// perform one atomic reload of the template provider, or nothing.
#[derive(Clone, Copy, Debug, PartialEq, Eq, Structural)]
pub enum ReloadAction {
    StartReload,
    NoAction,
}

/// The coordinator's abstract state: how many filtered batches have
/// triggered a reload, how those reloads ended, whether a reload is
/// pending, and whether the stream has failed for good.
pub struct CoordState {
    pub batches: nat,
    pub succeeded: nat,
    pub failed: nat,
    pub reloading: bool,
    pub stream_failed: bool,
}

/// The state the coordinator starts in.
pub open spec fn init_state() -> CoordState {
    CoordState { batches: 0, succeeded: 0, failed: 0, reloading: false, stream_failed: false }
}

/// The action an item provokes: a files-changed batch starts a reload;
/// a control message is dropped silently; a stream failure, or any item
/// arriving after one, provokes nothing.
pub open spec fn item_action(s: CoordState, item: StreamItem) -> ReloadAction {
    if s.stream_failed || s.reloading {
        ReloadAction::NoAction
    } else {
        match item {
            StreamItem::Next(t) => if t.event is Files {
                ReloadAction::StartReload
            } else {
                ReloadAction::NoAction
            },
            StreamItem::Failed => ReloadAction::NoAction,
        }
    }
}

/// How an item changes the coordinator's state.
pub open spec fn item_step(s: CoordState, item: StreamItem) -> CoordState {
    if s.stream_failed || s.reloading {
        s
    } else {
        match item {
            StreamItem::Next(t) => if t.event is Files {
                CoordState {
                    batches: s.batches + 1,
                    succeeded: s.succeeded,
                    failed: s.failed,
                    reloading: true,
                    stream_failed: false,
                }
            } else {
                s
            },
            StreamItem::Failed => CoordState {
                batches: s.batches,
                succeeded: s.succeeded,
                failed: s.failed,
                reloading: s.reloading,
                stream_failed: true,
            },
        }
    }
}

/// How the result of the pending reload changes the state.
pub open spec fn reload_step(s: CoordState, ok: bool) -> CoordState {
    if !s.reloading {
        s
    } else if ok {
        CoordState {
            batches: s.batches,
            succeeded: s.succeeded + 1,
            failed: s.failed,
            reloading: false,
            stream_failed: s.stream_failed,
        }
    } else {
        CoordState {
            batches: s.batches,
            succeeded: s.succeeded,
            failed: s.failed + 1,
            reloading: false,
            stream_failed: s.stream_failed,
        }
    }
}

/// One round of the watch loop: the next stream item and, where it
/// started a reload, how that reload ended.
pub struct ReloadRound {
    pub item: StreamItem,
    pub ok: bool,
}

/// The state after one round.
pub open spec fn round_step(s: CoordState, r: ReloadRound) -> CoordState {
    let s1 = item_step(s, r.item);
    if item_action(s, r.item) is StartReload {
        reload_step(s1, r.ok)
    } else {
        s1
    }
}

/// The state after a sequence of rounds.
pub open spec fn run_rounds(s: CoordState, rs: Seq<ReloadRound>) -> CoordState
    decreases rs.len(),
{
    if rs.len() == 0 {
        s
    } else {
        round_step(run_rounds(s, rs.drop_last()), rs.last())
    }
}

/// Whether a round carries a files-changed batch.
pub open spec fn is_batch(r: ReloadRound) -> bool {
    r.item matches StreamItem::Next(t) && t.event is Files
}

/// How many rounds of a sequence carry a files-changed batch.
pub open spec fn batch_count(rs: Seq<ReloadRound>) -> nat
    decreases rs.len(),
{
    if rs.len() == 0 {
        0
    } else {
        batch_count(rs.drop_last()) + if is_batch(rs.last()) {
            1nat
        } else {
            0nat
        }
    }
}

/// Law: for any interleaving of change-event batches from multiple
/// roots, as long as the stream itself does not fail, the number of
/// reload invocations equals the number of filtered, non-control
/// batches observed — control messages provoke nothing, every batch
/// provokes exactly one reload, and no reload is left pending.
pub proof fn lemma_reloads_match_batches(s: CoordState, rs: Seq<ReloadRound>)
    requires
        !s.reloading,
        !s.stream_failed,
        forall|i: int| 0 <= i < rs.len() ==> !(#[trigger] rs[i].item is Failed),
    ensures
        run_rounds(s, rs).batches == s.batches + batch_count(rs),
        run_rounds(s, rs).succeeded + run_rounds(s, rs).failed == s.succeeded + s.failed
            + batch_count(rs),
        !run_rounds(s, rs).reloading,
        !run_rounds(s, rs).stream_failed,
    decreases rs.len(),
{
    if rs.len() == 0 {
    } else {
        assert forall|i: int| 0 <= i < rs.drop_last().len() implies !(#[trigger] rs.drop_last()[i].item
            is Failed) by {
            assert(rs.drop_last()[i] == rs[i]);
        }
        lemma_reloads_match_batches(s, rs.drop_last());
    }
}

/// How many events of a merged sequence are files-changed batches.
pub open spec fn files_count(s: Seq<TaggedEvent>) -> nat
    decreases s.len(),
{
    if s.len() == 0 {
        0
    } else {
        files_count(s.drop_last()) + if s.last().event is Files {
            1nat
        } else {
            0nat
        }
    }
}

/// The rounds that driving the coordinator over a merged sequence
/// produces: one round per merged event, each with the result the
/// template provider reported for the reload it provoked, if any.
pub open spec fn rounds_of(merged: Seq<TaggedEvent>, oks: Seq<bool>) -> Seq<ReloadRound> {
    Seq::new(merged.len(), |i: int| ReloadRound { item: StreamItem::Next(merged[i]), ok: oks[i] })
}

proof fn lemma_rounds_batch_count(merged: Seq<TaggedEvent>, oks: Seq<bool>)
    requires
        oks.len() == merged.len(),
    ensures
        batch_count(rounds_of(merged, oks)) == files_count(merged),
    decreases merged.len(),
{
    if merged.len() == 0 {
        assert(rounds_of(merged, oks) =~= Seq::<ReloadRound>::empty());
    } else {
        assert(rounds_of(merged, oks).drop_last() =~= rounds_of(
            merged.drop_last(),
            oks.drop_last(),
        ));
        assert(rounds_of(merged, oks).last() == (ReloadRound {
            item: StreamItem::Next(merged.last()),
            ok: oks.last(),
        }));
        lemma_rounds_batch_count(merged.drop_last(), oks.drop_last());
    }
}

/// Law: for any per-root subscription contents, any schedule the
/// runtime may interleave them by, and any sequence of reload results,
/// driving the coordinator from its start state over the merged
/// sequence performs exactly one reload per files-changed batch in it
/// — control messages provoke none — and leaves no reload pending.
pub proof fn lemma_interleaving_reloads(
    ss: Seq<Seq<SubscriptionEvent>>,
    sched: Seq<usize>,
    oks: Seq<bool>,
)
    requires
        oks.len() == merge_spec(ss, sched).len(),
    ensures
        ({
            let merged = merge_spec(ss, sched);
            let fin = run_rounds(init_state(), rounds_of(merged, oks));
            &&& fin.batches == files_count(merged)
            &&& fin.succeeded + fin.failed == files_count(merged)
            &&& !fin.reloading
            &&& !fin.stream_failed
        }),
{
    let merged = merge_spec(ss, sched);
    let rs = rounds_of(merged, oks);
    assert(forall|i: int| 0 <= i < rs.len() ==> !(#[trigger] rs[i].item is Failed));
    lemma_rounds_batch_count(merged, oks);
    lemma_reloads_match_batches(init_state(), rs);
}

/// Law: a reload failure for one batch does not prevent the next batch
/// from being processed — after a failed reload the coordinator is
/// still watching, and the following batch provokes its own reload.
pub proof fn lemma_failure_does_not_block(
    s: CoordState,
    b1: TaggedEvent,
    b2: TaggedEvent,
    ok2: bool,
)
    requires
        !s.reloading,
        !s.stream_failed,
        b1.event is Files,
        b2.event is Files,
    ensures
        ({
            let s1 = round_step(s, ReloadRound { item: StreamItem::Next(b1), ok: false });
            let s2 = round_step(s1, ReloadRound { item: StreamItem::Next(b2), ok: ok2 });
            &&& s1.failed == s.failed + 1
            &&& !s1.stream_failed
            &&& !s1.reloading
            &&& s2.batches == s.batches + 2
        }),
{
}

/// Law: a stream-level failure after some batch prevents every later
/// item from being processed, without ending the host — the round that
/// carries the failure only marks the stream failed, and every state
/// component is frozen from then on, whatever arrives.
pub proof fn lemma_stream_failure_is_terminal(s: CoordState, rs: Seq<ReloadRound>)
    requires
        s.stream_failed,
    ensures
        run_rounds(s, rs) == s,
    decreases rs.len(),
{
    if rs.len() == 0 {
    } else {
        lemma_stream_failure_is_terminal(s, rs.drop_last());
    }
}

/// Law: the round that carries the stream failure changes nothing but
/// the terminal mark, and nothing after it is processed.
pub proof fn lemma_failed_item_stops_watching(s: CoordState, rs: Seq<ReloadRound>, ok: bool)
    requires
        !s.reloading,
        !s.stream_failed,
    ensures
        ({
            let s1 = round_step(s, ReloadRound { item: StreamItem::Failed, ok });
            &&& s1.stream_failed
            &&& s1.batches == s.batches
            &&& s1.succeeded == s.succeeded
            &&& s1.failed == s.failed
            &&& run_rounds(s1, rs) == s1
        }),
{
    let s1 = round_step(s, ReloadRound { item: StreamItem::Failed, ok });
    lemma_stream_failure_is_terminal(s1, rs);
}

/// The reload coordinator: the sole writer of the shared snapshot cell,
/// counting the batches it observed and the reloads they provoked.
pub struct ReloadCoordinator {
    pub snapshot: SnapshotCell,
    pub batches: u64,
    pub succeeded: u64,
    pub failed: u64,
    pub reloading: bool,
    pub stream_failed: bool,
}

impl View for ReloadCoordinator {
    type V = CoordState;

    open spec fn view(&self) -> CoordState {
        CoordState {
            batches: self.batches as nat,
            succeeded: self.succeeded as nat,
            failed: self.failed as nat,
            reloading: self.reloading,
            stream_failed: self.stream_failed,
        }
    }
}

impl ReloadCoordinator {
    /// Every reached state satisfies this: each observed batch is
    /// accounted for by a finished or pending reload, and the snapshot
    /// generation equals the number of successful reloads.
    pub open spec fn wf(self) -> bool {
        &&& self.batches == self.succeeded + self.failed + (if self.reloading {
            1int
        } else {
            0int
        })
        &&& self.snapshot.generation == self.succeeded
    }

    /// A coordinator over the snapshot generation compiled at startup.
    pub fn start() -> (c: ReloadCoordinator)
        ensures
            c@ == init_state(),
            c.wf(),
            c.snapshot.generation == 0,
    {
        ReloadCoordinator {
            snapshot: SnapshotCell::initial(),
            batches: 0,
            succeeded: 0,
            failed: 0,
            reloading: false,
            stream_failed: false,
        }
    }

    /// Consumes the next item of the merged stream. A files-changed
    /// batch asks the host for one reload; a control message and
    /// anything arriving after a stream failure ask for nothing. The
    /// host must report the pending reload's result before handing in
    /// the next item, so reloads never overlap.
    pub fn on_item(&mut self, item: StreamItem) -> (a: ReloadAction)
        requires
            old(self).wf(),
            !old(self).reloading,
            old(self).batches < u64::MAX,
        ensures
            final(self).wf(),
            final(self)@ == item_step(old(self)@, item),
            a == item_action(old(self)@, item),
            final(self).snapshot == old(self).snapshot,
    {
        if self.stream_failed {
            ReloadAction::NoAction
        } else {
            match item {
                StreamItem::Next(t) => match t.event {
                    SubscriptionEvent::Files(_) => {
                        self.batches = self.batches + 1;
                        self.reloading = true;
                        ReloadAction::StartReload
                    },
                    SubscriptionEvent::Control => ReloadAction::NoAction,
                },
                StreamItem::Failed => {
                    self.stream_failed = true;
                    ReloadAction::NoAction
                },
            }
        }
    }

    /// Records how the pending reload ended: success installs the next
    /// snapshot generation in one indivisible swap; failure leaves the
    /// last good generation live, and the loop continues either way.
    pub fn on_reload_result(&mut self, ok: bool)
        requires
            old(self).wf(),
            old(self).reloading,
        ensures
            final(self).wf(),
            final(self)@ == reload_step(old(self)@, ok),
            ok ==> final(self).snapshot.generation == old(self).snapshot.generation + 1,
            !ok ==> final(self).snapshot == old(self).snapshot,
    {
        if ok {
            self.succeeded = self.succeeded + 1;
            self.snapshot.install_next();
        } else {
            self.failed = self.failed + 1;
        }
        self.reloading = false;
    }
}

} // verus!
