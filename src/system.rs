//! The system root: the virtual parent of standalone actors, and the
//! decisions of the keyboard-interrupt waiter.

use vstd::prelude::*;

verus! {

/// The virtual actor that stands for the environment. Its field is private
/// and nothing in the library makes a value of it: it only names the
/// "no supervisor" case in types.
pub struct System {
    _virtual: (),
}

/// What the interrupt waiter observed.
#[derive(Clone, Copy, Debug, PartialEq, Eq, Structural)]
pub enum WaitEvent {
    /// A keyboard interrupt arrived.
    CtrlC,
    /// The root actor's loop has exited.
    Joined,
}

/// What the interrupt waiter must do next.
#[derive(Clone, Copy, Debug, PartialEq, Eq, Structural)]
pub enum WaitAction {
    /// Send `Interrupt` to the root actor and keep waiting.
    Interrupt,
    /// Stop waiting and return.
    Return,
}

/// Waits for the root actor to finish, interrupting it on the first
/// keyboard interrupt and giving up on the second.
pub struct InterruptWaiter {
    first_attempt: bool,
    returned: bool,
}

impl InterruptWaiter {
    /// Whether no keyboard interrupt has been seen yet.
    pub closed spec fn first_attempt_spec(&self) -> bool {
        self.first_attempt
    }

    /// Whether the waiter has decided to return.
    pub closed spec fn returned_spec(&self) -> bool {
        self.returned
    }

    /// The action for `event` in a waiter that has or has not seen an
    /// interrupt yet.
    pub open spec fn action_for(first_attempt: bool, event: WaitEvent) -> WaitAction {
        match event {
            WaitEvent::CtrlC => if first_attempt {
                WaitAction::Interrupt
            } else {
                WaitAction::Return
            },
            WaitEvent::Joined => WaitAction::Return,
        }
    }

    pub fn new() -> (r: InterruptWaiter)
        ensures
            r.first_attempt_spec(),
            !r.returned_spec(),
    {
        InterruptWaiter { first_attempt: true, returned: false }
    }

    /// Whether the waiter has decided to return.
    pub fn returned(&self) -> (r: bool)
        ensures
            r == self.returned_spec(),
    {
        self.returned
    }

    /// Decides what to do on `event`: the first interrupt is passed on to the
    /// root, the second ends the wait, as does the root's exit.
    pub fn on_event(&mut self, event: WaitEvent) -> (r: WaitAction)
        requires
            !old(self).returned_spec(),
        ensures
            r == Self::action_for(old(self).first_attempt_spec(), event),
            final(self).first_attempt_spec() == (old(self).first_attempt_spec() && event != WaitEvent::CtrlC),
            final(self).returned_spec() == (r == WaitAction::Return),
    {
        let r = match event {
            WaitEvent::CtrlC => {
                if self.first_attempt {
                    self.first_attempt = false;
                    WaitAction::Interrupt
                } else {
                    WaitAction::Return
                }
            },
            WaitEvent::Joined => WaitAction::Return,
        };
        self.returned = r == WaitAction::Return;
        r
    }
}

} // verus!
