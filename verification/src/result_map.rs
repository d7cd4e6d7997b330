//! A registry of task results: tracks task identifiers, publishes each
//! task's terminal result, and hands out waiters for tasks that have not
//! finished yet.

use std::collections::HashMap;
use std::collections::HashSet;

use vstd::prelude::*;

use crate::events::{event_listen, event_new, event_notify_all};

verus! {

broadcast use vstd::std_specs::hash::group_hash_axioms;

/// The error a registry operation reports when it is handed a task
/// identifier that was never tracked (or already removed).
#[derive(Clone, Copy, Debug, PartialEq, Eq, Structural)]
pub enum RegistryError {
    UnknownTaskId,
}

/// The abstract state of a [`ThreadResultMap`]: which identifiers are
/// tracked, which results have been published, and which identifiers
/// currently have a waiter handle.
#[verifier::ext_equal]
pub ghost struct RegistryView<R> {
    /// Identifiers currently under management.
    pub tracked_ids: Set<u64>,
    /// Terminal results, present once the task has finished.
    pub results: Map<u64, R>,
    /// Identifiers with a live broadcast event, i.e. with at least one
    /// registered waiter and no published result yet.
    pub waiters: Set<u64>,
}

impl<R> RegistryView<R> {
    /// The state of a freshly created registry.
    pub open spec fn empty() -> RegistryView<R> {
        RegistryView {
            tracked_ids: Set::empty(),
            results: Map::empty(),
            waiters: Set::empty(),
        }
    }

    /// Every reachable registry state satisfies this: results and waiters
    /// only exist for tracked identifiers, and an identifier never has both
    /// a published result and a waiter handle.
    pub open spec fn wf(self) -> bool {
        &&& self.results.dom().subset_of(self.tracked_ids)
        &&& self.waiters.subset_of(self.tracked_ids)
        &&& self.waiters.disjoint(self.results.dom())
    }

    /// Whether `id` is under management.
    pub open spec fn is_tracked(self, id: u64) -> bool {
        self.tracked_ids.contains(id)
    }

    /// The state after `track(id)`.
    pub open spec fn track(self, id: u64) -> RegistryView<R> {
        RegistryView { tracked_ids: self.tracked_ids.insert(id), ..self }
    }

    /// The state after a successful `insert(id, result)`: the result is
    /// stored (overwriting any previous one) and the waiter handle for `id`,
    /// if any, is discarded after notification.
    pub open spec fn insert(self, id: u64, result: R) -> RegistryView<R> {
        RegistryView {
            results: self.results.insert(id, result),
            waiters: self.waiters.remove(id),
            ..self
        }
    }

    /// The state after a `listen(id)` that found no published result and
    /// registered a waiter.
    pub open spec fn listen_pending(self, id: u64) -> RegistryView<R> {
        RegistryView { waiters: self.waiters.insert(id), ..self }
    }

    /// The state after a `remove(id)` that found a published result: the
    /// identifier leaves the registry entirely.
    pub open spec fn remove(self, id: u64) -> RegistryView<R> {
        RegistryView {
            tracked_ids: self.tracked_ids.remove(id),
            results: self.results.remove(id),
            waiters: self.waiters.remove(id),
        }
    }
}

/// Per-task result registry.
///
/// Lifecycle of an identifier: untracked, then `track` makes it tracked and
/// pending, `insert` publishes its result, and `remove` takes the result and
/// returns the identifier to untracked. `listen` hands out a waiter while
/// the result is pending and resolves immediately once it is published.
pub struct ThreadResultMap<R> {
    tracked_ids: HashSet<u64>,
    results: HashMap<u64, R>,
    waiters: HashMap<u64, event_listener::Event>,
}

impl<R> View for ThreadResultMap<R> {
    type V = RegistryView<R>;

    closed spec fn view(&self) -> RegistryView<R> {
        RegistryView {
            tracked_ids: self.tracked_ids@,
            results: self.results@,
            waiters: self.waiters@.dom(),
        }
    }
}

impl<R> ThreadResultMap<R> {
    /// Creates an empty registry: nothing tracked, no results, no waiters.
    pub fn new() -> (r: ThreadResultMap<R>)
        ensures
            r@ == RegistryView::<R>::empty(),
            r@.wf(),
    {
        ThreadResultMap {
            tracked_ids: HashSet::new(),
            results: HashMap::new(),
            waiters: HashMap::new(),
        }
    }

    /// Puts `id` under management. Idempotent: tracking an already tracked
    /// identifier changes nothing.
    pub fn track(&mut self, id: u64)
        requires
            old(self)@.wf(),
        ensures
            final(self)@ == old(self)@.track(id),
            final(self)@.wf(),
    {
        self.tracked_ids.insert(id);
    }

    /// Returns whether `id` is under management, without suspending.
    pub fn is_tracked(&self, id: u64) -> (r: bool)
        ensures
            r == self@.is_tracked(id),
    {
        self.tracked_ids.contains(&id)
    }

    /// Publishes the terminal `result` of task `id`: stores it (overwriting
    /// any previous result) and, if any tasks are waiting for `id`, wakes
    /// all of them and discards their waiter handle.
    ///
    /// Fails with [`RegistryError::UnknownTaskId`], leaving the registry
    /// unchanged, exactly when `id` is not tracked.
    pub fn insert(&mut self, id: u64, result: R) -> (r: Result<(), RegistryError>)
        requires
            old(self)@.wf(),
        ensures
            final(self)@.wf(),
            r is Ok <==> old(self)@.is_tracked(id),
            r is Ok ==> final(self)@ == old(self)@.insert(id, result),
            r is Err ==> final(self)@ == old(self)@ && r == Err::<(), RegistryError>(
                RegistryError::UnknownTaskId,
            ),
    {
        if !self.tracked_ids.contains(&id) {
            return Err(RegistryError::UnknownTaskId);
        }
        self.results.insert(id, result);
        match self.waiters.remove(&id) {
            Some(ev) => {
                event_notify_all(&ev);
            },
            None => {
                proof {
                    assert(self.waiters@.dom().remove(id) =~= self.waiters@.dom());
                }
            },
        }
        Ok(())
    }

    /// Returns a way to wait for the result of task `id`:
    ///
    /// - `Ok(None)` when the result is already published — the caller need
    ///   not suspend (this is the check that makes `listen` race-safe);
    /// - `Ok(Some(waiter))` when the result is still pending — the waiter
    ///   resolves once `insert` publishes the result for `id`; all callers
    ///   that listen for the same pending `id` share one broadcast event, so
    ///   a single `insert` wakes every one of them;
    /// - `Err(UnknownTaskId)`, leaving the registry unchanged, exactly when
    ///   `id` is not tracked.
    pub fn listen(&mut self, id: u64) -> (r: Result<
        Option<event_listener::EventListener>,
        RegistryError,
    >)
        requires
            old(self)@.wf(),
        ensures
            final(self)@.wf(),
            r is Err <==> !old(self)@.is_tracked(id),
            (r is Err ==> final(self)@ == old(self)@ && (r matches Err(e)
                && e == RegistryError::UnknownTaskId)),
            (r matches Ok(w) ==> (w is None <==> old(self)@.results.dom().contains(id))),
            (r matches Ok(w) && w is None ==> final(self)@ == old(self)@),
            (r matches Ok(w) && w is Some ==> final(self)@ == old(self)@.listen_pending(id)),
    {
        if !self.tracked_ids.contains(&id) {
            return Err(RegistryError::UnknownTaskId);
        }
        if self.results.contains_key(&id) {
            return Ok(None);
        }
        if !self.waiters.contains_key(&id) {
            let ev = event_new();
            let listener = event_listen(&ev);
            self.waiters.insert(id, ev);
            return Ok(Some(listener));
        }
        proof {
            assert(self.waiters@.dom().insert(id) =~= self.waiters@.dom());
        }
        let ev = self.waiters.get(&id).unwrap();
        Ok(Some(event_listen(ev)))
    }

    /// Takes the published result of task `id`, if there is one, and
    /// removes `id` from the registry entirely (tracking, result, and any
    /// waiter handle). When no result is published — whether `id` is
    /// pending or not tracked at all — returns `None` and leaves the
    /// registry unchanged.
    pub fn remove(&mut self, id: u64) -> (r: Option<R>)
        requires
            old(self)@.wf(),
        ensures
            final(self)@.wf(),
            r is Some <==> old(self)@.results.dom().contains(id),
            r is Some ==> r == Some(old(self)@.results[id]) && final(self)@ == old(self)@.remove(
                id,
            ),
            r is None ==> final(self)@ == old(self)@,
    {
        match self.results.remove(&id) {
            None => {
                proof {
                    assert(self.results@.remove(id) =~= self.results@);
                }
                None
            },
            Some(res) => {
                self.tracked_ids.remove(&id);
                self.waiters.remove(&id);
                Some(res)
            },
        }
    }
}

/// Tracking makes an identifier tracked, whatever the prior state; in a
/// fresh registry no identifier is tracked.
pub proof fn lemma_track_then_is_tracked<R>(m: RegistryView<R>, id: u64)
    ensures
        m.track(id).is_tracked(id),
        !RegistryView::<R>::empty().is_tracked(id),
{
}

/// After tracking `id` and publishing its result `r`, `remove(id)` yields
/// exactly `r` and untracks `id`; after that, the result is gone, so a
/// second `remove(id)` yields nothing — the result is handed out exactly
/// once.
pub proof fn lemma_remove_yields_result_once<R>(m: RegistryView<R>, id: u64, r: R)
    ensures
        m.track(id).insert(id, r).results.dom().contains(id),
        m.track(id).insert(id, r).results[id] == r,
        !m.track(id).insert(id, r).remove(id).is_tracked(id),
        !m.track(id).insert(id, r).remove(id).results.dom().contains(id),
{
}

/// Once `insert(id, r)` has published a result, a later `listen(id)` finds
/// it (so it resolves without suspending) and what it observes through
/// `remove` is exactly `r`.
pub proof fn lemma_listen_after_insert<R>(m: RegistryView<R>, id: u64, r: R)
    requires
        m.is_tracked(id),
    ensures
        m.insert(id, r).is_tracked(id),
        m.insert(id, r).results.dom().contains(id),
        m.insert(id, r).results[id] == r,
{
}

/// A `listen(id)` before the result arrives registers a waiter for `id`; a
/// second listener for the same `id` shares that waiter (the state after
/// both is the state after one), and a single `insert(id, r)` then clears
/// the waiter entry — after notifying every listener on it — and publishes
/// `r`.
pub proof fn lemma_listen_before_insert<R>(m: RegistryView<R>, id: u64, r: R)
    requires
        m.wf(),
        m.is_tracked(id),
        !m.results.dom().contains(id),
    ensures
        m.listen_pending(id).waiters.contains(id),
        m.listen_pending(id).listen_pending(id) == m.listen_pending(id),
        !m.listen_pending(id).insert(id, r).waiters.contains(id),
        m.listen_pending(id).insert(id, r).results[id] == r,
{
    assert(m.listen_pending(id).listen_pending(id) =~= m.listen_pending(id));
}

} // verus!
