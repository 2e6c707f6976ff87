//! Shutdown coordination: the OS termination-intent signals become one
//! terminal event with at-most-once delivery, the accept loop is gated
//! on it, and in-flight requests drain rather than being dropped.
//!
//! Waiting for a signal and accepting a connection are asynchronous
//! operations of the hosting process; the process reports each
//! occurrence here and obeys the decisions: whether a new connection
//! may be accepted, and when the drained process may return.

use vstd::prelude::*;

verus! {

/// The two distinguishable termination-intent notifications. Both are
/// treated identically: the first occurrence of either raises the
/// shutdown event.
#[derive(Clone, Copy, Debug, PartialEq, Eq, Structural)]
pub enum SignalKind {
    Interrupt,
    Terminate,
}

/// Which listener could not be installed. Installation failure is
/// fatal to startup: without a shutdown path the process must not run.
#[derive(Clone, Copy, Debug, PartialEq, Eq, Structural)]
pub struct InstallError {
    pub listener: SignalKind,
}

/// The abstract serving state: whether shutdown has been raised, and
/// how many connections were accepted, are in flight, and completed.
pub struct ServeState {
    pub raised: bool,
    pub accepted: nat,
    pub in_flight: nat,
    pub completed: nat,
}

/// The state the process starts serving in.
pub open spec fn init_serve_state() -> ServeState {
    ServeState { raised: false, accepted: 0, in_flight: 0, completed: 0 }
}

/// The observable occurrences at the serving loop's suspension points:
/// a termination signal, an incoming connection, a request finishing.
#[derive(Clone, Copy, Debug, PartialEq, Eq, Structural)]
pub enum ServeOp {
    Signal(SignalKind),
    Accept,
    Complete,
}

/// How one occurrence changes the serving state: any signal raises the
/// terminal shutdown event; a connection is accepted only while it is
/// not raised; a finishing request leaves the in-flight set whether or
/// not shutdown has begun.
pub open spec fn serve_step(s: ServeState, op: ServeOp) -> ServeState {
    match op {
        ServeOp::Signal(_) => ServeState {
            raised: true,
            accepted: s.accepted,
            in_flight: s.in_flight,
            completed: s.completed,
        },
        ServeOp::Accept => if s.raised {
            s
        } else {
            ServeState {
                raised: false,
                accepted: s.accepted + 1,
                in_flight: s.in_flight + 1,
                completed: s.completed,
            }
        },
        ServeOp::Complete => if s.in_flight > 0 {
            ServeState {
                raised: s.raised,
                accepted: s.accepted,
                in_flight: (s.in_flight - 1) as nat,
                completed: s.completed + 1,
            }
        } else {
            s
        },
    }
}

/// The state after a sequence of occurrences.
pub open spec fn serve_run(s: ServeState, ops: Seq<ServeOp>) -> ServeState
    decreases ops.len(),
{
    if ops.len() == 0 {
        s
    } else {
        serve_step(serve_run(s, ops.drop_last()), ops.last())
    }
}

/// Law: the shutdown event is terminal. Once raised it stays raised, no
/// later occurrence is ever accepted as a new connection, and in-flight
/// requests only move to completed — none is lost.
pub proof fn lemma_no_accept_after_shutdown(s: ServeState, ops: Seq<ServeOp>)
    requires
        s.raised,
    ensures
        serve_run(s, ops).raised,
        serve_run(s, ops).accepted == s.accepted,
        serve_run(s, ops).in_flight + serve_run(s, ops).completed == s.in_flight + s.completed,
        serve_run(s, ops).in_flight <= s.in_flight,
    decreases ops.len(),
{
    if ops.len() == 0 {
    } else {
        lemma_no_accept_after_shutdown(s, ops.drop_last());
    }
}

/// The drain steps: one completion per in-flight request.
pub open spec fn drain_ops(n: nat) -> Seq<ServeOp> {
    Seq::new(n, |i: int| ServeOp::Complete)
}

proof fn lemma_drain_steps(s: ServeState, n: nat)
    requires
        n <= s.in_flight,
    ensures
        serve_run(s, drain_ops(n)) == (ServeState {
            raised: s.raised,
            accepted: s.accepted,
            in_flight: (s.in_flight - n) as nat,
            completed: s.completed + n,
        }),
    decreases n,
{
    if n == 0 {
        assert(drain_ops(0) =~= Seq::<ServeOp>::empty());
        assert(serve_run(s, drain_ops(0)) =~= s);
    } else {
        assert(drain_ops(n).drop_last() =~= drain_ops((n - 1) as nat));
        assert(drain_ops(n).last() == ServeOp::Complete);
        lemma_drain_steps(s, (n - 1) as nat);
    }
}

/// Law: every request already in flight when shutdown fires runs to
/// completion — letting each one finish drains the process, with the
/// shutdown event still raised and nothing force-dropped.
pub proof fn lemma_in_flight_completes(s: ServeState)
    requires
        s.raised,
    ensures
        serve_run(s, drain_ops(s.in_flight)).raised,
        serve_run(s, drain_ops(s.in_flight)).in_flight == 0,
        serve_run(s, drain_ops(s.in_flight)).completed == s.completed + s.in_flight,
        serve_run(s, drain_ops(s.in_flight)).accepted == s.accepted,
{
    lemma_drain_steps(s, s.in_flight);
}

/// The shutdown coordinator the serving loop and the background tasks
/// consult: the broadcast shutdown event plus the serving counters.
#[derive(Debug)]
pub struct ShutdownCoordinator {
    pub raised: bool,
    pub accepted: u64,
    pub in_flight: u64,
    pub completed: u64,
}

impl View for ShutdownCoordinator {
    type V = ServeState;

    open spec fn view(&self) -> ServeState {
        ServeState {
            raised: self.raised,
            accepted: self.accepted as nat,
            in_flight: self.in_flight as nat,
            completed: self.completed as nat,
        }
    }
}

/// Installs the two signal listeners. Both must install: the
/// coordinator exists exactly when the terminate and the interrupt
/// listener are in place, and a failure names the first listener that
/// could not be installed — the caller must then abort startup.
pub fn install_listeners(terminate_installed: bool, interrupt_installed: bool) -> (r: Result<
    ShutdownCoordinator,
    InstallError,
>)
    ensures
        r is Ok <==> terminate_installed && interrupt_installed,
        r matches Ok(c) ==> c@ == init_serve_state() && c.wf(),
        r matches Err(e) ==> (e.listener is Terminate <==> !terminate_installed),
{
    if !terminate_installed {
        Err(InstallError { listener: SignalKind::Terminate })
    } else if !interrupt_installed {
        Err(InstallError { listener: SignalKind::Interrupt })
    } else {
        Ok(
            ShutdownCoordinator { raised: false, accepted: 0, in_flight: 0, completed: 0 },
        )
    }
}

impl ShutdownCoordinator {
    /// Every reached state satisfies this: each accepted connection is
    /// either still in flight or completed.
    pub open spec fn wf(self) -> bool {
        self.accepted == self.in_flight + self.completed
    }

    /// Delivers a termination signal. The event is raised at most
    /// once: only the first occurrence of either signal kind reports
    /// delivery, every later one finds the event already raised.
    pub fn signal(&mut self, kind: SignalKind) -> (first: bool)
        requires
            old(self).wf(),
        ensures
            final(self).wf(),
            final(self)@ == serve_step(old(self)@, ServeOp::Signal(kind)),
            first == !old(self).raised,
    {
        let first = !self.raised;
        self.raised = true;
        first
    }

    /// Whether the accept loop may take another connection.
    pub fn should_accept(&self) -> (b: bool)
        ensures
            b == !self.raised,
    {
        !self.raised
    }

    /// The accept loop offers an incoming connection: it is accepted
    /// exactly when shutdown has not been raised.
    pub fn try_accept(&mut self) -> (accepted: bool)
        requires
            old(self).wf(),
            old(self).accepted < u64::MAX,
        ensures
            final(self).wf(),
            final(self)@ == serve_step(old(self)@, ServeOp::Accept),
            accepted == !old(self).raised,
    {
        if self.raised {
            false
        } else {
            self.accepted = self.accepted + 1;
            self.in_flight = self.in_flight + 1;
            true
        }
    }

    /// A request in flight ran to completion — allowed before and after
    /// shutdown alike.
    pub fn finish_one(&mut self)
        requires
            old(self).wf(),
            old(self).in_flight > 0,
        ensures
            final(self).wf(),
            final(self)@ == serve_step(old(self)@, ServeOp::Complete),
    {
        self.in_flight = self.in_flight - 1;
        self.completed = self.completed + 1;
    }

    /// Whether the process may return: shutdown has been raised and
    /// every request accepted before it has completed.
    pub fn drained(&self) -> (b: bool)
        ensures
            b == (self.raised && self.in_flight == 0),
    {
        self.raised && self.in_flight == 0
    }
}

} // verus!
