//! A process-wide exit signal: at most one pending exit code, broadcast to
//! any number of waiting tasks.

use vstd::prelude::*;

use crate::events::{event_listen, event_new, event_notify_all};

verus! {

/// Holds the pending exit code, if any, together with the broadcast event
/// that wakes tasks waiting for shutdown.
///
/// The view of an `Exit` is its code: `None` until the first `set`, then
/// `Some` of the most recently set value (later `set` calls overwrite).
pub struct Exit {
    code: Option<u8>,
    event: event_listener::Event,
}

impl View for Exit {
    type V = Option<u8>;

    closed spec fn view(&self) -> Option<u8> {
        self.code
    }
}

impl Exit {
    /// Creates a signal with no exit code set.
    pub fn new() -> (r: Exit)
        ensures
            r@ == Option::<u8>::None,
    {
        Exit { code: None, event: event_new() }
    }

    /// Records `code`, overwriting any previously set value, and wakes every
    /// task currently suspended in a wait obtained from `listen`.
    pub fn set(&mut self, code: u8)
        ensures
            final(self)@ == Some(code),
    {
        self.code = Some(code);
        event_notify_all(&self.event);
    }

    /// Returns the current exit code without suspending: `None` until the
    /// first `set`, afterwards the most recently set value.
    pub fn get(&self) -> (r: Option<u8>)
        ensures
            r == self@,
    {
        self.code
    }

    /// Returns a waiter that resolves once a later `set` call notifies it.
    ///
    /// This deliberately does not consult the stored code first: a `set` that
    /// happened before this call is not observed through the returned waiter,
    /// which only a future notification resolves. Callers must check `get`
    /// before waiting, and re-check after waking.
    pub fn listen(&self) -> event_listener::EventListener {
        event_listen(&self.event)
    }
}

} // verus!
