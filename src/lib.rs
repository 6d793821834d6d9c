//! A lightweight actor runtime: the decisions it makes, stated and proved.
//!
//! The modules hold the parts of the runtime that are pure logic: actor
//! identifiers and names, lifecycle events and one-shot notifiers, the
//! terminator that tracks children and stop requests, the step function of
//! the actor loop, the lite-task heartbeat and the system root's interrupt
//! waiter. Channels, executors and signal sources drive these from outside.

mod ids;
mod lifecycle;
mod runtime;
mod system;
mod task;
mod terminator;

pub use ids::{actor_name, default_actor_name, hex_char, hex_digits, hyphenated_of, is_v4, name_text, Id};
pub use lifecycle::{Action, Awake, Done, Interrupt, LifecycleNotifier, RuntimeError};
pub use terminator::{Status, Termination, TerminationProgress, TerminationSignal, Terminator};
pub use runtime::{biased_choice, lemma_awake_first, lemma_control_strict, lemma_done_before_finalize, lemma_priority_strict, lemma_quiescence, select_biased, LoopAction, LoopEvent, Phase, RuntimeCore, Source, MESSAGES_CHANNEL_DEPTH};
pub use system::{InterruptWaiter, System, WaitAction, WaitEvent};
pub use task::{BeatAction, BeatEvent, HeartBeatCore};
