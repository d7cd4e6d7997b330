//! Trusted boundary to the `event_listener` crate, the broadcast-wait
//! primitive both synchronization types are built on.
//!
//! An `Event` is a queue of waiters; `notify(usize::MAX)` wakes every waiter
//! registered at that moment and has no effect on waiters registered later.
//! An `EventListener` is registered with its event the moment it is created
//! and resolves (as a future, or through its blocking `wait`) once notified;
//! dropping it before it resolves deregisters it. Both values are opaque to
//! the verifier: nothing here claims anything about when a listener resolves,
//! so every proof in this crate is independent of wake-up timing.

use vstd::prelude::*;

verus! {

#[verifier::external_type_specification]
#[verifier::external_body]
#[verifier::reject_recursive_types(T)]
pub struct ExEvent<T>(event_listener::Event<T>);

#[verifier::external_type_specification]
#[verifier::external_body]
#[verifier::reject_recursive_types(T)]
pub struct ExEventListener<T>(event_listener::EventListener<T>);

/// Relies on `event_listener::Event::new`: a fresh event with no waiters
/// registered and no notification pending.
#[verifier::external_body]
pub(crate) fn event_new() -> event_listener::Event {
    event_listener::Event::new()
}

/// Relies on `event_listener::Event::notify` with a count of `usize::MAX`:
/// wakes every waiter currently registered on the event, exactly once per
/// call, and does not affect waiters registered afterward.
#[verifier::external_body]
pub(crate) fn event_notify_all(ev: &event_listener::Event) {
    ev.notify(usize::MAX);
}

/// Relies on `event_listener::Event::listen`: returns a waiter registered on
/// the event at the moment of the call; it resolves only from a notification
/// issued after this call.
#[verifier::external_body]
pub(crate) fn event_listen(ev: &event_listener::Event) -> event_listener::EventListener {
    ev.listen()
}

} // verus!
