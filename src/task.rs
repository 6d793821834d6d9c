//! The decisions of the `HeartBeat` lite task.

use vstd::prelude::*;

verus! {

/// What the heartbeat observed.
#[derive(Clone, Copy, Debug, PartialEq, Eq, Structural)]
pub enum BeatEvent {
    /// Its shutdown receiver signalled done.
    Shutdown,
    /// Its interval elapsed.
    Tick,
}

/// What the heartbeat must do next.
#[derive(Clone, Copy, Debug, PartialEq, Eq, Structural)]
pub enum BeatAction {
    /// Deliver a `Tick` action to the recipient.
    SendTick,
    /// Leave the routine.
    Exit,
}

/// The state of a heartbeat: whether it was told to shut down.
pub struct HeartBeatCore {
    stopped: bool,
    sent: u64,
}

impl HeartBeatCore {
    pub closed spec fn stopped_spec(&self) -> bool {
        self.stopped
    }

    /// How many ticks were sent (saturating).
    pub closed spec fn sent_spec(&self) -> u64 {
        self.sent
    }

    pub fn new() -> (r: HeartBeatCore)
        ensures
            !r.stopped_spec(),
            r.sent_spec() == 0,
    {
        HeartBeatCore { stopped: false, sent: 0 }
    }

    /// Whether the heartbeat was told to shut down.
    pub fn stopped(&self) -> (r: bool)
        ensures
            r == self.stopped_spec(),
    {
        self.stopped
    }

    /// How many ticks were sent (saturating).
    pub fn sent(&self) -> (r: u64)
        ensures
            r == self.sent_spec(),
    {
        self.sent
    }

    /// Decides what to do on `event`: a tick is sent only while no shutdown
    /// has been seen; after a shutdown every event means exit.
    pub fn on_event(&mut self, event: BeatEvent) -> (r: BeatAction)
        ensures
            final(self).stopped_spec() == (old(self).stopped_spec() || event == BeatEvent::Shutdown),
            (r == BeatAction::SendTick) == (event == BeatEvent::Tick && !old(self).stopped_spec()),
            final(self).sent_spec() == (if r == BeatAction::SendTick && old(self).sent_spec() < u64::MAX {
                (old(self).sent_spec() + 1) as u64
            } else {
                old(self).sent_spec()
            }),
    {
        if event == BeatEvent::Shutdown {
            self.stopped = true;
        }
        if self.stopped {
            BeatAction::Exit
        } else {
            if self.sent < u64::MAX {
                self.sent = self.sent + 1;
            }
            BeatAction::SendTick
        }
    }
}

} // verus!
