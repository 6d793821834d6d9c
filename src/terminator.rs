//! The per-actor termination state machine: live children and a pending stop.

use vstd::prelude::*;

verus! {

/// A structural event delivered to an actor's operator.
#[derive(Clone, Copy, Debug, PartialEq, Eq, Structural)]
pub enum TerminationSignal {
    /// A parent, or the actor itself, asks the actor to begin stopping.
    StopSignal,
    /// The child with this serial number has terminated.
    ChildDone(u128),
}

/// What the terminator tells the runtime loop after an event.
#[derive(Clone, Copy, Debug, PartialEq, Eq, Structural)]
pub enum TerminationProgress {
    /// Keep looping.
    Continue,
    /// A stop was requested and no child is left: the loop may exit.
    SafeToStop,
}

/// The status derived from a terminator's state.
#[derive(Clone, Copy, Debug, PartialEq, Eq, Structural)]
pub enum Status {
    Active,
    Stopping,
    SafeToStop,
}

/// The terminator's answer to an event: its progress, and the children that
/// must now be sent `Interrupt`.
pub struct Termination {
    pub progress: TerminationProgress,
    pub interrupt: Vec<u128>,
}

/// Tracks the live children of one actor and whether it was asked to stop.
pub struct Terminator {
    id: u128,
    children: Vec<u128>,
    stop_requested: bool,
    completed: bool,
}

/// Copies a vector of serial numbers.
fn copy_serials(v: &Vec<u128>) -> (r: Vec<u128>)
    ensures
        r@ == v@,
{
    let mut r: Vec<u128> = Vec::new();
    let mut i: usize = 0;
    while i < v.len()
        invariant
            i <= v.len(),
            r@ == v@.subrange(0, i as int),
        decreases v.len() - i,
    {
        r.push(v[i]);
        i = i + 1;
    }
    assert(r@ =~= v@);
    r
}

impl Terminator {
    /// The serial number of the actor that owns this terminator.
    pub closed spec fn owner(&self) -> u128 {
        self.id
    }

    /// The live children, in the order they were added.
    pub closed spec fn children_seq(&self) -> Seq<u128> {
        self.children@
    }

    /// The set of live children.
    pub open spec fn live(&self) -> Set<u128> {
        Set::new(|c: u128| self.children_seq().contains(c))
    }

    /// Whether a stop was requested.
    pub closed spec fn stop_requested_spec(&self) -> bool {
        self.stop_requested
    }

    /// Whether `SafeToStop` has been reached.
    pub closed spec fn completed(&self) -> bool {
        self.completed
    }

    /// Every live child is listed once; `SafeToStop` is reached exactly when
    /// a stop was requested and no child is left.
    pub closed spec fn wf(&self) -> bool {
        &&& self.children@.no_duplicates()
        &&& self.completed == (self.stop_requested && self.children@.len() == 0)
    }

    /// The status that the state stands for.
    pub open spec fn status_spec(&self) -> Status {
        if self.completed() {
            Status::SafeToStop
        } else if self.stop_requested_spec() {
            Status::Stopping
        } else {
            Status::Active
        }
    }

    /// In a well-formed terminator the status is `SafeToStop` exactly when a
    /// stop was requested and no child is live.
    pub proof fn lemma_status(&self)
        requires
            self.wf(),
        ensures
            (self.status_spec() == Status::SafeToStop) == (self.stop_requested_spec() && self.live().is_empty()),
            self.children_seq().no_duplicates(),
            self.status_spec() == Status::Active ==> !self.stop_requested_spec(),
    {
        if self.children@.len() > 0 {
            assert(self.live().contains(self.children@[0]));
        } else {
            assert(self.live() =~= Set::<u128>::empty());
        }
    }

    /// A terminator for the actor `id`: active, with no children.
    pub fn new(id: u128) -> (r: Terminator)
        ensures
            r.wf(),
            r.owner() == id,
            r.live() == Set::<u128>::empty(),
            r.status_spec() == Status::Active,
    {
        let r = Terminator { id, children: Vec::new(), stop_requested: false, completed: false };
        assert(r.live() =~= Set::<u128>::empty());
        r
    }

    /// The serial number of the owning actor.
    pub fn id(&self) -> (r: u128)
        ensures
            r == self.owner(),
    {
        self.id
    }

    /// The current status.
    pub fn status(&self) -> (r: Status)
        ensures
            r == self.status_spec(),
    {
        if self.completed {
            Status::SafeToStop
        } else if self.stop_requested {
            Status::Stopping
        } else {
            Status::Active
        }
    }

    /// Whether `child` is live.
    pub fn has_child(&self, child: u128) -> (r: bool)
        ensures
            r == self.live().contains(child),
    {
        let mut i: usize = 0;
        while i < self.children.len()
            invariant
                i <= self.children@.len(),
                forall|j: int| 0 <= j < i ==> self.children@[j] != child,
            decreases self.children.len() - i,
        {
            if self.children[i] == child {
                return true;
            }
            i = i + 1;
        }
        false
    }

    /// The live children, in the order they were added, each once.
    pub fn children(&self) -> (r: Vec<u128>)
        requires
            self.wf(),
        ensures
            r@.no_duplicates(),
            r@ == self.children_seq(),
    {
        copy_serials(&self.children)
    }

    /// Registers a child spawned through this actor's context. An actor that
    /// is safe to stop has left its loop and spawns no more children.
    pub fn insert_child(&mut self, child: u128)
        requires
            old(self).wf(),
            old(self).status_spec() != Status::SafeToStop,
        ensures
            final(self).wf(),
            final(self).live() == old(self).live().insert(child),
            final(self).owner() == old(self).owner(),
            final(self).status_spec() == old(self).status_spec(),
    {
        if !self.has_child(child) {
            self.children.push(child);
            assert(self.children@.last() == child);
            assert(self.children@.no_duplicates()) by {
                assert forall|a: int, b: int| 0 <= a < b < self.children@.len() implies self.children@[a] != self.children@[b] by {
                    if b == self.children@.len() - 1 {
                        assert(old(self).children@.contains(self.children@[a]));
                    }
                }
            }
        }
        assert(self.live() =~= old(self).live().insert(child)) by {
            assert forall|c: u128| #[trigger] self.children@.contains(c) <==> (old(self).children@.contains(c) || c == child) by {
                if self.children@.len() > old(self).children@.len() {
                    assert(self.children@ == old(self).children@.push(child));
                    if old(self).children@.contains(c) {
                        let j = choose|j: int| 0 <= j < old(self).children@.len() && old(self).children@[j] == c;
                        assert(self.children@[j] == c);
                    }
                    if c == child {
                        assert(self.children@[self.children@.len() - 1] == c);
                    }
                }
            }
        }
    }

    /// Removes `child` from the live children, if it is one.
    fn remove_child(&mut self, child: u128)
        requires
            old(self).children@.no_duplicates(),
        ensures
            final(self).children@.no_duplicates(),
            final(self).live() == old(self).live().remove(child),
            final(self).id == old(self).id,
            final(self).stop_requested == old(self).stop_requested,
            final(self).completed == old(self).completed,
    {
        let mut i: usize = 0;
        while i < self.children.len()
            invariant
                i <= self.children@.len(),
                self.children@ == old(self).children@,
                old(self).children@.no_duplicates(),
                self.id == old(self).id,
                self.stop_requested == old(self).stop_requested,
                self.completed == old(self).completed,
                forall|j: int| 0 <= j < i ==> self.children@[j] != child,
            decreases self.children.len() - i,
        {
            if self.children[i] == child {
                let ghost before = self.children@;
                assert(before.no_duplicates());
                self.children.remove(i);
                proof {
                    let after = self.children@;
                    assert(after == before.remove(i as int));
                    assert(after.len() + 1 == before.len());
                    assert(before[i as int] == child);
                    assert forall|k: int| 0 <= k < after.len() implies after[k] == (if k < i { before[k] } else { before[k + 1] }) by {}
                    assert forall|c: u128| #[trigger] after.contains(c) <==> (before.contains(c) && c != child) by {
                        if after.contains(c) {
                            let k = choose|k: int| 0 <= k < after.len() && after[k] == c;
                            let k2 = if k < i { k } else { k + 1 };
                            assert(before[k2] == c);
                            assert(k2 != i);
                            assert(0 <= k2 < before.len() && 0 <= i < before.len());
                            assert(before[k2] != before[i as int]);
                        }
                        if before.contains(c) && c != child {
                            let k = choose|k: int| 0 <= k < before.len() && before[k] == c;
                            assert(k != i);
                            if k < i {
                                assert(after[k] == c);
                            } else {
                                assert(after[k - 1] == c);
                            }
                        }
                    }
                }
                assert(self.live() =~= old(self).live().remove(child));
                assert(self.children@.no_duplicates()) by {
                    let after = self.children@;
                    assert forall|a: int, b: int| 0 <= a < b < after.len() implies after[a] != after[b] by {
                        let a2 = if a < i { a } else { a + 1 };
                        let b2 = if b < i { b } else { b + 1 };
                        assert(after[a] == before[a2]);
                        assert(after[b] == before[b2]);
                        assert(a2 < b2 && b2 < before.len());
                        assert(before[a2] != before[b2]);
                    }
                }
                return;
            }
            i = i + 1;
        }
        assert(self.live() =~= old(self).live().remove(child));
    }

    /// Handles a structural event.
    ///
    /// The first stop signal moves the actor to stopping and names every live
    /// child to interrupt; later ones change nothing. A child's `Done` removes
    /// it. `SafeToStop` is reported once, on the event after which a stop is
    /// requested and no child is left.
    pub fn track_child_or_stop_signal(&mut self, signal: TerminationSignal) -> (r: Termination)
        requires
            old(self).wf(),
        ensures
            final(self).wf(),
            final(self).owner() == old(self).owner(),
            final(self).stop_requested_spec() == (old(self).stop_requested_spec() || signal == TerminationSignal::StopSignal),
            signal == TerminationSignal::StopSignal ==> final(self).live() == old(self).live(),
            signal matches TerminationSignal::ChildDone(c) ==> final(self).live() == old(self).live().remove(c),
            r.interrupt@.no_duplicates(),
            r.interrupt@ == (if signal == TerminationSignal::StopSignal && !old(self).stop_requested_spec() {
                old(self).children_seq()
            } else {
                Seq::<u128>::empty()
            }),
            final(self).completed() == (final(self).stop_requested_spec() && final(self).live().is_empty()),
            (r.progress == TerminationProgress::SafeToStop) == (!old(self).completed() && final(self).completed()),
            old(self).stop_requested_spec() && signal == TerminationSignal::StopSignal ==> final(self).live()
                == old(self).live() && final(self).status_spec() == old(self).status_spec()
                && r.progress == TerminationProgress::Continue && r.interrupt@.len() == 0,
    {
        let mut interrupt: Vec<u128> = Vec::new();
        match signal {
            TerminationSignal::StopSignal => {
                if !self.stop_requested {
                    self.stop_requested = true;
                    interrupt = copy_serials(&self.children);
                }
            },
            TerminationSignal::ChildDone(c) => {
                self.remove_child(c);
            },
        }
        let was_completed = self.completed;
        if self.stop_requested && self.children.len() == 0 {
            self.completed = true;
        }
        proof {
            if self.children@.len() > 0 {
                assert(self.live().contains(self.children@[0]));
            } else {
                assert(self.live() =~= Set::<u128>::empty());
            }
            if old(self).completed {
                assert(old(self).live() =~= Set::<u128>::empty());
                assert(self.live() =~= Set::<u128>::empty());
            }
        }
        let progress = if !was_completed && self.completed {
            TerminationProgress::SafeToStop
        } else {
            TerminationProgress::Continue
        };
        Termination { progress, interrupt }
    }
}

} // verus!
