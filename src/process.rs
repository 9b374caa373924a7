//! The slot that owns the backend process for the session, and the reaction
//! to the host's close request.
use vstd::prelude::*;

verus! {

/// Holds the backend process, if one was started and not yet taken.
/// Exclusive access (`&mut`) stands for the lock the host wraps it in.
pub struct BackendProcess<T> {
    held: Option<T>,
}

/// The slot's content after `store(outcome)`.
pub open spec fn store_spec<T>(slot: Option<T>, outcome: Option<T>) -> Option<T> {
    outcome
}

/// The slot's content after a take, and the process handed out for
/// termination.
pub open spec fn take_spec<T>(slot: Option<T>) -> (Option<T>, Option<T>) {
    (None, slot)
}

/// A lifecycle event of a host window.
pub enum WindowEvent {
    CloseRequested,
    Other,
}

/// The slot's content after `event`, and the process to terminate.
pub open spec fn hook_spec<T>(slot: Option<T>, event: WindowEvent) -> (Option<T>, Option<T>) {
    match event {
        WindowEvent::CloseRequested => take_spec(slot),
        WindowEvent::Other => (slot, None),
    }
}

impl<T> View for BackendProcess<T> {
    type V = Option<T>;

    closed spec fn view(&self) -> Option<T> {
        self.held
    }
}

impl<T> BackendProcess<T> {
    /// An empty slot.
    pub fn new() -> (r: Self)
        ensures
            r@ == None::<T>,
    {
        BackendProcess { held: None }
    }

    /// Puts the outcome of the launch into the slot, replacing what was there.
    pub fn store(&mut self, outcome: Option<T>)
        ensures
            final(self)@ == store_spec(old(self)@, outcome),
    {
        self.held = outcome;
    }

    /// Removes the process from the slot and hands it out for termination;
    /// an empty slot stays empty and hands out nothing.
    pub fn take(&mut self) -> (r: Option<T>)
        ensures
            (final(self)@, r) == take_spec(old(self)@),
    {
        self.held.take()
    }

    /// Whether the slot holds no process.
    pub fn is_empty(&self) -> (r: bool)
        ensures
            r == (self@ is None),
    {
        self.held.is_none()
    }
}

/// Reacts to a window event: a close request drains the slot and returns the
/// process that must be killed and waited for; any other event leaves the
/// slot as it is and returns nothing.
pub fn on_window_event<T>(slot: &mut BackendProcess<T>, event: WindowEvent) -> (r: Option<T>)
    ensures
        (final(slot)@, r) == hook_spec(old(slot)@, event),
{
    match event {
        WindowEvent::CloseRequested => slot.take(),
        WindowEvent::Other => None,
    }
}

/// A store followed by a take empties the slot and hands out exactly the
/// stored process, once.
pub proof fn lemma_store_then_take<T>(slot: Option<T>, process: T)
    ensures
        take_spec(store_spec(slot, Some(process))) == (None::<T>, Some(process)),
{
}

/// Taking from an empty slot hands out nothing and leaves it empty.
pub proof fn lemma_take_empty<T>()
    ensures
        take_spec(None::<T>) == (None::<T>, None::<T>),
{
}

/// After one store, two takes hand out the process once: the second finds
/// the slot empty.
pub proof fn lemma_drain_once<T>(slot: Option<T>, process: T)
    ensures
        ({
            let (after_first, first) = take_spec(store_spec(slot, Some(process)));
            let (after_second, second) = take_spec(after_first);
            &&& first == Some(process)
            &&& second is None
            &&& after_second is None
        }),
{
}

/// A close request right after a store hands out the stored process for
/// termination and leaves the slot empty; a later close request hands out
/// nothing.
pub proof fn lemma_close_after_store<T>(slot: Option<T>, process: T)
    ensures
        ({
            let (after, killed) = hook_spec(store_spec(slot, Some(process)), WindowEvent::CloseRequested);
            &&& killed == Some(process)
            &&& after is None
            &&& hook_spec(after, WindowEvent::CloseRequested) == (None::<T>, None::<T>)
        }),
{
}

} // verus!
