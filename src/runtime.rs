//! The decisions of an actor's runtime loop, apart from the channels and the
//! executor that carry them out.

use crate::lifecycle::{Awake, LifecycleNotifier, RuntimeError};
use crate::terminator::{Status, TerminationProgress, TerminationSignal, Terminator};
use vstd::prelude::*;

verus! {

/// How many normal-priority messages an actor's bounded queue holds.
pub const MESSAGES_CHANNEL_DEPTH: usize = 32;

/// Where an actor is in its life.
#[derive(Clone, Copy, Debug, PartialEq, Eq, Structural)]
pub enum Phase {
    /// Spawned; `Awake` not yet sent.
    Created,
    /// `Awake` sent; the loop runs.
    Running,
    /// The loop has exited; `Done` not yet sent to the supervisor.
    Exited,
    /// `Done` was sent, where there is a supervisor.
    Notified,
    /// The operator was finalized and the controllers released.
    Finalized,
}

/// One of the three sources the loop waits on.
#[derive(Clone, Copy, Debug, PartialEq, Eq, Structural)]
pub enum Source {
    /// Structural events from the operator.
    Operator,
    /// The high-priority mailbox.
    High,
    /// The normal-priority mailbox.
    Normal,
}

/// The source the loop serves next, given which ones have an item ready:
/// the operator before the high-priority mailbox before the normal one.
pub open spec fn biased_choice(operator: bool, high: bool, normal: bool) -> Option<Source> {
    if operator {
        Some(Source::Operator)
    } else if high {
        Some(Source::High)
    } else if normal {
        Some(Source::Normal)
    } else {
        None
    }
}

/// The order in which the actor loop polls its sources (the loop's biased
/// `select`): the first ready one is served; `None` when nothing is ready.
pub fn select_biased(operator: bool, high: bool, normal: bool) -> (r: Option<Source>)
    ensures
        r == biased_choice(operator, high, normal),
{
    if operator {
        Some(Source::Operator)
    } else if high {
        Some(Source::High)
    } else if normal {
        Some(Source::Normal)
    } else {
        None
    }
}

/// What the loop observed on the source it served.
#[derive(Clone, Copy, Debug, PartialEq, Eq, Structural)]
pub enum LoopEvent {
    /// A structural event from the operator.
    Signal(TerminationSignal),
    /// An envelope from the given mailbox.
    Envelope(Source),
    /// The given mailbox has ended: every sender of it is gone.
    Drained(Source),
}

/// What the loop must do next.
pub enum LoopAction {
    /// Run the handler of the envelope just received.
    Dispatch,
    /// Send `Interrupt` to each of these children, then keep looping.
    InterruptChildren(Vec<u128>),
    /// Nothing to do: keep looping.
    Wait,
    /// Close the normal mailbox and leave the loop.
    CloseAndExit,
}

/// The state of one actor's runtime apart from its channels: its lifecycle
/// phase, its terminator and its two one-shot notifiers.
pub struct RuntimeCore {
    id: u128,
    phase: Phase,
    terminator: Terminator,
    awake: LifecycleNotifier<Awake>,
    done: Option<LifecycleNotifier<u128>>,
    dispatched: u64,
    awake_queued: bool,
    awake_at: u64,
}

impl RuntimeCore {
    pub closed spec fn owner(&self) -> u128 {
        self.id
    }

    pub closed spec fn phase_spec(&self) -> Phase {
        self.phase
    }

    pub closed spec fn terminator_spec(&self) -> Terminator {
        self.terminator
    }

    /// Whether the actor was spawned with a supervisor.
    pub closed spec fn supervised(&self) -> bool {
        self.done is Some
    }

    /// Whether `Awake` has been handed out.
    pub closed spec fn awake_sent(&self) -> bool {
        self.awake.pending() is None
    }

    /// Whether `Done` has been handed out to the supervisor.
    pub closed spec fn done_sent(&self) -> bool {
        self.done matches Some(n) && n.pending() is None
    }

    /// How many envelopes the loop has dispatched, saturating.
    pub closed spec fn dispatched_spec(&self) -> u64 {
        self.dispatched
    }

    /// Whether `Awake` waits at the head of the high-priority queue.
    pub closed spec fn awake_queued_spec(&self) -> bool {
        self.awake_queued
    }

    /// The position, counting from 1, of `Awake` among the dispatched
    /// envelopes; 0 while it has not been dispatched.
    pub closed spec fn awake_position(&self) -> u64 {
        self.awake_at
    }

    /// `Awake` goes out on leaving `Created` and before anything is
    /// dispatched; the loop runs exactly while the terminator is not safe to
    /// stop; `Done` goes out on leaving `Exited`, and only there.
    pub closed spec fn wf(&self) -> bool {
        &&& self.terminator.wf()
        &&& self.terminator.owner() == self.id
        &&& (self.phase == Phase::Created) == !self.awake_sent()
        &&& self.phase == Phase::Created ==> self.dispatched == 0 && !self.awake_queued && self.awake_at == 0
        &&& self.awake_queued ==> self.dispatched == 0 && self.awake_at == 0
        &&& (self.phase != Phase::Created && !self.awake_queued) ==> self.awake_at == 1 && self.dispatched >= 1
        &&& (self.phase == Phase::Created || self.phase == Phase::Running)
            == (self.terminator.status_spec() != Status::SafeToStop)
        &&& (self.phase == Phase::Created || self.phase == Phase::Running || self.phase == Phase::Exited)
            ==> !self.done_sent()
        &&& (self.supervised() && (self.phase == Phase::Notified || self.phase == Phase::Finalized))
            ==> self.done_sent()
        &&& self.done matches Some(n) ==> (n.pending() matches Some(c) ==> c == self.id)
    }

    /// The runtime of a freshly spawned actor `id`: nothing sent yet, no
    /// children, and a `Done` notifier exactly when there is a supervisor.
    pub fn new(id: u128, supervised: bool) -> (r: RuntimeCore)
        ensures
            r.wf(),
            r.owner() == id,
            r.phase_spec() == Phase::Created,
            r.supervised() == supervised,
            r.terminator_spec().live().is_empty(),
            r.terminator_spec().status_spec() == Status::Active,
            r.dispatched_spec() == 0,
    {
        let done = if supervised {
            Some(LifecycleNotifier::once(id))
        } else {
            None
        };
        RuntimeCore {
            id,
            phase: Phase::Created,
            terminator: Terminator::new(id),
            awake: LifecycleNotifier::once(Awake::new()),
            done,
            dispatched: 0,
            awake_queued: false,
            awake_at: 0,
        }
    }

    /// The actor's key.
    pub fn id(&self) -> (r: u128)
        ensures
            r == self.owner(),
    {
        self.id
    }

    /// The current phase.
    pub fn phase(&self) -> (r: Phase)
        ensures
            r == self.phase_spec(),
    {
        self.phase
    }

    /// The terminator, for reading.
    pub fn terminator(&self) -> (r: &Terminator)
        requires
            self.wf(),
        ensures
            *r == self.terminator_spec(),
            r.wf(),
    {
        &self.terminator
    }

    /// Whether `Awake` still waits at the head of the high-priority queue.
    pub fn awake_queued(&self) -> (r: bool)
        ensures
            r == self.awake_queued_spec(),
    {
        self.awake_queued
    }

    /// How many envelopes the loop has dispatched (saturating).
    pub fn dispatched(&self) -> (r: u64)
        ensures
            r == self.dispatched_spec(),
    {
        self.dispatched
    }

    /// Starts the actor: hands out `Awake`. The caller puts it on the actor's
    /// high-priority queue before the address is handed to anyone, so that
    /// it stands at the head of that queue.
    pub fn start(&mut self) -> (r: Awake)
        requires
            old(self).wf(),
            old(self).phase_spec() == Phase::Created,
        ensures
            final(self).wf(),
            final(self).phase_spec() == Phase::Running,
            !old(self).awake_sent() && final(self).awake_sent(),
            final(self).awake_queued_spec(),
            final(self).owner() == old(self).owner(),
            final(self).supervised() == old(self).supervised(),
            final(self).terminator_spec() == old(self).terminator_spec(),
            final(self).dispatched_spec() == 0,
    {
        let r = self.awake.notify();
        self.phase = Phase::Running;
        self.awake_queued = true;
        match r {
            Ok(a) => a,
            Err(_) => Awake::new(),
        }
    }

    /// Registers a child spawned through this actor's context.
    pub fn register_child(&mut self, child: u128)
        requires
            old(self).wf(),
            old(self).phase_spec() == Phase::Running,
        ensures
            final(self).wf(),
            final(self).phase_spec() == Phase::Running,
            final(self).owner() == old(self).owner(),
            final(self).supervised() == old(self).supervised(),
            final(self).dispatched_spec() == old(self).dispatched_spec(),
            final(self).awake_queued_spec() == old(self).awake_queued_spec(),
            final(self).awake_position() == old(self).awake_position(),
            final(self).terminator_spec().live() == old(self).terminator_spec().live().insert(child),
            final(self).terminator_spec().status_spec() == old(self).terminator_spec().status_spec(),
    {
        self.terminator.insert_child(child);
    }

    /// One iteration of the loop, after it served a source.
    ///
    /// An envelope is dispatched; while `Awake` heads the high-priority
    /// queue, the biased choice serves no normal envelope, so the first one
    /// dispatched is `Awake`. A drained mailbox does not end the loop. A
    /// structural event goes to the terminator: the loop exits when it
    /// reports `SafeToStop`, and otherwise interrupts the children it names;
    /// a repeated stop signal changes nothing.
    pub fn step(&mut self, event: LoopEvent) -> (r: LoopAction)
        requires
            old(self).wf(),
            old(self).phase_spec() == Phase::Running,
            old(self).awake_queued_spec() ==> event != LoopEvent::Envelope(Source::Normal),
        ensures
            event matches LoopEvent::Envelope(_) ==> !final(self).awake_queued_spec()
                && final(self).awake_position() == (if old(self).awake_queued_spec() {
                    1u64
                } else {
                    old(self).awake_position()
                }),
            !(event is Envelope) ==> final(self).awake_queued_spec() == old(self).awake_queued_spec()
                && final(self).awake_position() == old(self).awake_position(),
            final(self).wf(),
            final(self).owner() == old(self).owner(),
            final(self).supervised() == old(self).supervised(),
            (r is CloseAndExit) == (final(self).phase_spec() == Phase::Exited),
            final(self).phase_spec() == Phase::Running || final(self).phase_spec() == Phase::Exited,
            r is CloseAndExit ==> final(self).terminator_spec().live().is_empty()
                && final(self).terminator_spec().stop_requested_spec(),
            event matches LoopEvent::Envelope(_) ==> r is Dispatch
                && final(self).phase_spec() == Phase::Running
                && final(self).terminator_spec() == old(self).terminator_spec()
                && final(self).dispatched_spec() == (if old(self).dispatched_spec() < u64::MAX {
                    (old(self).dispatched_spec() + 1) as u64
                } else {
                    old(self).dispatched_spec()
                }),
            event matches LoopEvent::Drained(_) ==> r is Wait
                && final(self).phase_spec() == Phase::Running
                && final(self).terminator_spec() == old(self).terminator_spec()
                && final(self).dispatched_spec() == old(self).dispatched_spec(),
            event matches LoopEvent::Signal(s) ==> final(self).dispatched_spec() == old(self).dispatched_spec()
                && final(self).terminator_spec().stop_requested_spec()
                    == (old(self).terminator_spec().stop_requested_spec() || s == TerminationSignal::StopSignal)
                && (s == TerminationSignal::StopSignal ==> final(self).terminator_spec().live() == old(self).terminator_spec().live())
                && (s matches TerminationSignal::ChildDone(c) ==> final(self).terminator_spec().live() == old(self).terminator_spec().live().remove(c))
                && (r is CloseAndExit <==> (final(self).terminator_spec().stop_requested_spec()
                    && final(self).terminator_spec().live().is_empty()))
                && (r matches LoopAction::InterruptChildren(v) ==> s == TerminationSignal::StopSignal
                    && !old(self).terminator_spec().stop_requested_spec()
                    && v@ == old(self).terminator_spec().children_seq()
                    && v@.no_duplicates())
                && ((s == TerminationSignal::StopSignal && old(self).terminator_spec().stop_requested_spec()) ==> r is Wait
                    && final(self).phase_spec() == Phase::Running
                    && final(self).terminator_spec().live() == old(self).terminator_spec().live()
                    && final(self).terminator_spec().status_spec() == old(self).terminator_spec().status_spec())
                && ((s == TerminationSignal::StopSignal && !old(self).terminator_spec().stop_requested_spec()
                    && !old(self).terminator_spec().live().is_empty()) ==> r is InterruptChildren),
    {
        match event {
            LoopEvent::Signal(s) => {
                let t = self.terminator.track_child_or_stop_signal(s);
                if t.progress == TerminationProgress::SafeToStop {
                    self.phase = Phase::Exited;
                    LoopAction::CloseAndExit
                } else if t.interrupt.len() > 0 {
                    proof {
                        old(self).terminator.lemma_status();
                    }
                    LoopAction::InterruptChildren(t.interrupt)
                } else {
                    proof {
                        if s == TerminationSignal::StopSignal && !old(self).terminator.stop_requested_spec() {
                            let ghost cs = old(self).terminator.children_seq();
                            if cs.len() == 0 {
                                assert(old(self).terminator.live() =~= Set::<u128>::empty());
                            }
                        }
                    }
                    LoopAction::Wait
                }
            },
            LoopEvent::Envelope(_) => {
                if self.dispatched < u64::MAX {
                    self.dispatched = self.dispatched + 1;
                }
                if self.awake_queued {
                    self.awake_queued = false;
                    self.awake_at = 1;
                }
                LoopAction::Dispatch
            },
            LoopEvent::Drained(_) => LoopAction::Wait,
        }
    }

    /// After the loop has exited: hands out the child's key for the `Done`
    /// that goes to the supervisor, or `None` where there is none.
    pub fn notify_done(&mut self) -> (r: Option<u128>)
        requires
            old(self).wf(),
            old(self).phase_spec() == Phase::Exited,
        ensures
            final(self).wf(),
            final(self).phase_spec() == Phase::Notified,
            final(self).owner() == old(self).owner(),
            final(self).supervised() == old(self).supervised(),
            final(self).terminator_spec() == old(self).terminator_spec(),
            r == (if old(self).supervised() { Some(old(self).owner()) } else { None::<u128> }),
            final(self).supervised() ==> final(self).done_sent(),
    {
        self.phase = Phase::Notified;
        match &mut self.done {
            Some(n) => {
                match n.notify() {
                    Ok(c) => Some(c),
                    Err(_) => Some(self.id),
                }
            },
            None => None,
        }
    }

    /// Finalizes the operator, which releases the controllers; this comes
    /// after `Done` was handed out.
    pub fn finalize(&mut self)
        requires
            old(self).wf(),
            old(self).phase_spec() == Phase::Notified,
        ensures
            final(self).wf(),
            final(self).phase_spec() == Phase::Finalized,
            final(self).owner() == old(self).owner(),
            final(self).supervised() == old(self).supervised(),
            final(self).supervised() ==> final(self).done_sent(),
    {
        self.phase = Phase::Finalized;
    }
}

/// A high-priority envelope that is ready is always served before a
/// normal-priority one that is ready at the same time.
pub proof fn lemma_priority_strict(operator: bool, high: bool, normal: bool)
    ensures
        high ==> biased_choice(operator, high, normal) != Some(Source::Normal),
        high && !operator ==> biased_choice(operator, high, normal) == Some(Source::High),
{
}

/// A structural event that is ready is served before every envelope, of
/// either priority, that is ready at the same time.
pub proof fn lemma_control_strict(operator: bool, high: bool, normal: bool)
    ensures
        operator ==> biased_choice(operator, high, normal) == Some(Source::Operator),
        biased_choice(operator, high, normal) == Some(Source::Normal) ==> !operator && !high,
{
}

/// `Awake` is the first envelope an actor handles: a runtime that has
/// dispatched anything dispatched `Awake` first, and one that has left
/// `Created` has handed `Awake` out.
pub proof fn lemma_awake_first(c: RuntimeCore)
    requires
        c.wf(),
    ensures
        c.phase_spec() != Phase::Created ==> c.awake_sent(),
        c.dispatched_spec() > 0 ==> c.awake_sent() && c.awake_position() == 1,
{
}

/// A runtime whose loop has exited was asked to stop and has no live child:
/// every child it had emitted `Done` first.
pub proof fn lemma_quiescence(c: RuntimeCore)
    requires
        c.wf(),
        c.phase_spec() != Phase::Created,
        c.phase_spec() != Phase::Running,
    ensures
        c.terminator_spec().stop_requested_spec(),
        c.terminator_spec().live().is_empty(),
{
    c.terminator.lemma_status();
}

/// A supervised runtime that has finalized its operator sent `Done` to its
/// supervisor first, and a runtime sends `Done` only after its loop exited.
pub proof fn lemma_done_before_finalize(c: RuntimeCore)
    requires
        c.wf(),
    ensures
        c.phase_spec() == Phase::Finalized && c.supervised() ==> c.done_sent(),
        c.done_sent() ==> c.phase_spec() == Phase::Notified || c.phase_spec() == Phase::Finalized,
{
}

} // verus!
