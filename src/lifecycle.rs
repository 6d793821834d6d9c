//! Lifecycle events of an actor and the one-shot notifiers that deliver them.

use crate::ids::Id;
use std::marker::PhantomData;
use vstd::prelude::*;

verus! {

/// A message that an actor can be sent.
pub trait Action {
    /// Whether the message travels on the high-priority path, which bypasses
    /// the bounded queue of normal messages.
    fn is_high_priority(&self) -> bool;
}

/// Failures at the boundary of an actor: they are returned to the caller as
/// values.
#[derive(Clone, Copy, Debug, PartialEq, Eq, Structural)]
pub enum RuntimeError {
    /// The actor is gone: its mailbox no longer takes messages.
    MailboxClosed,
    /// The reply slot of an interaction was dropped before a reply was written.
    InteractionDropped,
    /// A one-shot notifier was invoked a second time.
    NotifierReused,
    /// A `Done` could not be delivered because the supervisor is gone.
    SupervisorGone,
}

/// Sent to a spawned actor before any other message: the actor has started.
#[derive(Debug)]
pub struct Awake {}

impl Awake {
    pub fn new() -> (r: Self) {
        Awake {}
    }
}

impl Action for Awake {
    fn is_high_priority(&self) -> (r: bool)
        ensures
            r,
    {
        true
    }
}

/// Asks an actor to interrupt its activity and begin stopping.
#[derive(Debug)]
pub struct Interrupt {}

impl Interrupt {
    pub fn new() -> (r: Self) {
        Interrupt {}
    }
}

impl Action for Interrupt {
    fn is_high_priority(&self) -> (r: bool)
        ensures
            r,
    {
        true
    }
}

/// Tells a supervisor that its child of type `T`, named by `id`, has finished.
pub struct Done<T> {
    id: Id,
    _origin: PhantomData<T>,
}

impl<T> Done<T> {
    /// The identifier of the child that finished.
    pub closed spec fn child(&self) -> Id {
        self.id
    }

    pub fn new(id: Id) -> (r: Self)
        ensures
            r.child() == id,
    {
        Done { id, _origin: PhantomData }
    }

    /// Returns the identifier of the child that finished.
    pub fn id(&self) -> (r: &Id)
        ensures
            *r == self.child(),
    {
        &self.id
    }
}

impl<T> Action for Done<T> {
    fn is_high_priority(&self) -> (r: bool)
        ensures
            r,
    {
        true
    }
}

/// A one-shot capability to deliver a lifecycle message: the first
/// invocation hands the message out, every later one fails.
pub struct LifecycleNotifier<M> {
    msg: Option<M>,
}

impl<M> LifecycleNotifier<M> {
    /// The message still to be delivered, or `None` once it has been.
    pub closed spec fn pending(&self) -> Option<M> {
        self.msg
    }

    /// Creates a notifier that will deliver `msg` once.
    pub fn once(msg: M) -> (r: Self)
        ensures
            r.pending() == Some(msg),
    {
        LifecycleNotifier { msg: Some(msg) }
    }

    /// Whether the message has already been handed out.
    pub fn is_spent(&self) -> (r: bool)
        ensures
            r == (self.pending() is None),
    {
        self.msg.is_none()
    }

    /// Hands out the message on the first invocation; fails with
    /// `NotifierReused` on every later one.
    pub fn notify(&mut self) -> (r: Result<M, RuntimeError>)
        ensures
            old(self).pending() matches Some(m) ==> r == Ok::<M, RuntimeError>(m),
            old(self).pending() is None ==> r == Err::<M, RuntimeError>(RuntimeError::NotifierReused),
            final(self).pending() is None,
    {
        match self.msg.take() {
            Some(m) => Ok(m),
            None => Err(RuntimeError::NotifierReused),
        }
    }
}

} // verus!
